use rproxy::endpoint::{ProxyProtocol, ValidationError};
use rproxy::launcher::{proxy_env_vars, LaunchError, ProfileOp, ProxyLauncherApp, StoreError};
use rproxy::process::ProcessInfo;
use rproxy::profile::{AppConfig, ProxyProfile};

fn info(pid: &str, name: &str, exe: Option<&str>) -> ProcessInfo {
    ProcessInfo::new(pid.to_string(), name.to_string(), exe.map(|e| e.to_string()))
}

fn profile(name: &str, ip: &str, port: &str, protocol: ProxyProtocol) -> ProxyProfile {
    ProxyProfile::new(name.to_string(), ip.to_string(), port.to_string(), protocol)
}

fn app_with_processes() -> ProxyLauncherApp {
    let mut app = ProxyLauncherApp::new(Vec::new());
    app.refresh_processes(vec![
        info("30", "zeta", Some("/opt/zeta/bin/zeta")),
        info("10", "alpha", None),
        info("20", "beta", Some("/usr/bin/beta")),
    ]);
    app
}

#[test]
fn new_has_default_form() {
    let app = ProxyLauncherApp::new(vec![profile("p", "1.1.1.1", "1", ProxyProtocol::Http)]);
    assert_eq!(app.ip, "127.0.0.1");
    assert_eq!(app.port, "7890");
    assert_eq!(app.protocol, ProxyProtocol::Http);
    assert_eq!(app.profile_name, "默认配置");
    assert_eq!(app.status, "请选择进程并启动。");
    assert_eq!(app.profiles.len(), 1);
    assert!(app.processes.is_empty());
    assert_eq!(app.selected_index, None);
}

#[test]
fn refresh_sorts_processes() {
    let app = app_with_processes();
    let names: Vec<&str> = app.processes.iter().map(|p| p.name.as_str()).collect();
    assert_eq!(names, vec!["alpha", "beta", "zeta"]);
}

#[test]
fn refresh_clears_selection_out_of_range() {
    let mut app = app_with_processes();
    app.selected_index = Some(2);
    app.refresh_processes(vec![info("1", "a", None), info("2", "b", None)]);
    assert_eq!(app.selected_index, None);
    app.selected_index = Some(1);
    app.refresh_processes(vec![info("1", "a", None), info("2", "b", None)]);
    assert_eq!(app.selected_index, Some(1));
    app.refresh_processes(Vec::new());
    assert_eq!(app.selected_index, None);
}

#[test]
fn current_proxy_url_of_form() {
    let mut app = ProxyLauncherApp::new(Vec::new());
    assert_eq!(app.current_proxy_url(), Ok("http://127.0.0.1:7890".to_string()));
    app.port = "x".to_string();
    assert_eq!(app.current_proxy_url(), Err("端口号无效（1-65535）".to_string()));
    app.ip = " ".to_string();
    assert_eq!(app.current_proxy_url(), Err("IP 地址不能为空".to_string()));
}

#[test]
fn launch_without_selection() {
    let mut app = app_with_processes();
    assert_eq!(app.plan_launch(true).unwrap_err(), LaunchError::NoProcessSelected);
    app.selected_index = Some(9);
    assert_eq!(app.plan_launch(true).unwrap_err(), LaunchError::NoProcessSelected);
    let r = app.launch_with_proxy(true);
    assert_eq!(r.unwrap_err(), LaunchError::NoProcessSelected);
    assert_eq!(app.status, "请先选择一个进程");
}

#[test]
fn launch_checks_endpoint_first() {
    let mut app = app_with_processes();
    app.ip = String::new();
    assert_eq!(
        app.plan_launch(true).unwrap_err(),
        LaunchError::InvalidEndpoint(ValidationError::EmptyIp)
    );
    app.ip = "1.2.3.4".to_string();
    app.port = "99999".to_string();
    let r = app.launch_with_proxy(true);
    assert_eq!(r.unwrap_err(), LaunchError::InvalidEndpoint(ValidationError::InvalidPort));
    assert_eq!(app.status, "端口号无效（1-65535）");
}

#[test]
fn launch_without_executable() {
    let mut app = app_with_processes();
    app.selected_index = Some(0);
    assert_eq!(app.selected_executable(), None);
    assert_eq!(app.plan_launch(true).unwrap_err(), LaunchError::NoExecutablePath);
    app.selected_index = Some(1);
    assert_eq!(app.selected_executable(), Some("/usr/bin/beta".to_string()));
    let r = app.launch_with_proxy(false);
    assert_eq!(r.unwrap_err(), LaunchError::NoExecutablePath);
    assert_eq!(app.status, "所选进程没有可执行文件路径，无法重启为代理模式");
}

#[test]
fn launch_plan_contents() {
    let mut app = app_with_processes();
    app.selected_index = Some(2);
    app.protocol = ProxyProtocol::Socks5;
    app.args = "  --config config.toml  --debug ".to_string();
    let before = app.status.clone();
    let plan = app.launch_with_proxy(true).unwrap();
    assert_eq!(app.status, before);
    assert_eq!(plan.program, "/opt/zeta/bin/zeta");
    assert_eq!(plan.process_name, "zeta");
    assert_eq!(plan.proxy_url, "socks5://127.0.0.1:7890");
    assert_eq!(plan.args, vec!["--config", "config.toml", "--debug"]);
    assert_eq!(plan.env.len(), 8);
    assert_eq!(plan.env, proxy_env_vars("socks5://127.0.0.1:7890"));
}

#[test]
fn proxy_env_has_all_variables() {
    let env = proxy_env_vars("http://h:1");
    let expected: Vec<(String, String)> = [
        ("HTTP_PROXY", "http://h:1"),
        ("HTTPS_PROXY", "http://h:1"),
        ("ALL_PROXY", "http://h:1"),
        ("http_proxy", "http://h:1"),
        ("https_proxy", "http://h:1"),
        ("all_proxy", "http://h:1"),
        ("NO_PROXY", ""),
        ("no_proxy", ""),
    ]
    .iter()
    .map(|(k, v)| (k.to_string(), v.to_string()))
    .collect();
    assert_eq!(env, expected);
}

#[test]
fn finish_launch_reports() {
    let mut app = app_with_processes();
    app.selected_index = Some(2);
    let plan = app.plan_launch(true).unwrap();
    assert_eq!(app.finish_launch(&plan, Ok(1234)), Ok(1234));
    assert_eq!(
        app.status,
        "已启动 [zeta] pid=1234，代理=http://127.0.0.1:7890。注意：仅新启动进程会继承代理环境变量。"
    );
    let r = app.finish_launch(&plan, Err("denied".to_string()));
    assert_eq!(r, Err(LaunchError::SpawnFailed("denied".to_string())));
    assert_eq!(app.status, "启动失败: denied");
}

#[test]
fn add_profile_appends_trimmed() {
    let mut app = ProxyLauncherApp::new(vec![profile("old", "1.1.1.1", "1", ProxyProtocol::Http)]);
    app.profile_name = "  办公室代理 ".to_string();
    app.ip = " 10.10.10.1".to_string();
    app.port = "8080 ".to_string();
    app.protocol = ProxyProtocol::Socks4;
    assert_eq!(app.save_new_profile(), Ok(()));
    assert_eq!(app.profiles.len(), 2);
    assert_eq!(app.profiles[0].name, "old");
    let p = &app.profiles[1];
    assert_eq!(p.name, "办公室代理");
    assert_eq!(p.ip, "10.10.10.1");
    assert_eq!(p.port, "8080");
    assert_eq!(p.protocol, ProxyProtocol::Socks4);
    assert_eq!(app.selected_profile_index, Some(1));
}

#[test]
fn add_profile_with_empty_name() {
    let mut app = ProxyLauncherApp::new(Vec::new());
    app.profile_name = " \t ".to_string();
    assert_eq!(app.save_new_profile(), Err(StoreError::NameEmpty));
    assert!(app.profiles.is_empty());
    assert_eq!(app.status, "配置名称不能为空");
}

#[test]
fn update_profile() {
    let mut app = ProxyLauncherApp::new(vec![
        profile("a", "1.1.1.1", "1", ProxyProtocol::Http),
        profile("b", "2.2.2.2", "2", ProxyProtocol::Http),
    ]);
    assert_eq!(app.update_selected_profile(), Err(StoreError::NoSelection));
    assert_eq!(app.status, "请先在下拉框中选择一个配置");
    app.selected_profile_index = Some(1);
    app.profile_name = " c ".to_string();
    assert_eq!(app.update_selected_profile(), Ok(()));
    assert_eq!(app.profiles[0].name, "a");
    assert_eq!(app.profiles[1].name, "c");
    assert_eq!(app.profiles[1].ip, "127.0.0.1");
    assert_eq!(app.profiles[1].port, "7890");
    app.selected_profile_index = Some(5);
    assert_eq!(app.update_selected_profile(), Ok(()));
    assert_eq!(app.profiles.len(), 2);
}

#[test]
fn delete_profile_keeps_order() {
    let mut app = ProxyLauncherApp::new(vec![
        profile("a", "1", "1", ProxyProtocol::Http),
        profile("b", "2", "2", ProxyProtocol::Http),
        profile("c", "3", "3", ProxyProtocol::Http),
    ]);
    assert_eq!(app.delete_selected_profile(), Err(StoreError::NoSelection));
    assert_eq!(app.status, "请先选择要删除的配置");
    app.selected_profile_index = Some(1);
    assert_eq!(app.delete_selected_profile(), Ok(()));
    let names: Vec<&str> = app.profiles.iter().map(|p| p.name.as_str()).collect();
    assert_eq!(names, vec!["a", "c"]);
    assert_eq!(app.selected_profile_index, None);
    app.selected_profile_index = Some(7);
    assert_eq!(app.delete_selected_profile(), Ok(()));
    assert_eq!(app.profiles.len(), 2);
}

#[test]
fn finish_profile_change_messages() {
    let mut app = ProxyLauncherApp::new(Vec::new());
    assert_eq!(app.finish_profile_change(ProfileOp::Add, Ok(())), Ok(()));
    assert_eq!(app.status, "新增配置成功");
    assert_eq!(app.finish_profile_change(ProfileOp::Delete, Ok(())), Ok(()));
    assert_eq!(app.status, "删除配置成功");
    let r = app.finish_profile_change(ProfileOp::Update, Err("disk full".to_string()));
    assert_eq!(r, Err(StoreError::PersistFailed("disk full".to_string())));
    assert_eq!(app.status, "修改配置失败: disk full");
    let r = app.finish_profile_change(ProfileOp::Add, Err("e".to_string()));
    assert_eq!(r, Err(StoreError::PersistFailed("e".to_string())));
    assert_eq!(app.status, "保存配置失败: e");
}

#[test]
fn load_profile_into_form() {
    let mut app = ProxyLauncherApp::new(vec![profile("home", "192.168.1.2", "1080", ProxyProtocol::Socks5)]);
    app.load_selected_profile_to_form();
    assert_eq!(app.status, "请先选择要加载的配置");
    assert_eq!(app.ip, "127.0.0.1");
    app.selected_profile_index = Some(0);
    app.load_selected_profile_to_form();
    assert_eq!(app.profile_name, "home");
    assert_eq!(app.ip, "192.168.1.2");
    assert_eq!(app.port, "1080");
    assert_eq!(app.protocol, ProxyProtocol::Socks5);
    assert_eq!(app.status, "已加载配置到当前输入框");
}

#[test]
fn missing_or_corrupt_config_is_empty() {
    assert!(AppConfig::loaded_or_empty(None).profiles.is_empty());
    let cfg = AppConfig { profiles: vec![profile("x", "1", "2", ProxyProtocol::Http)] };
    let kept = AppConfig::loaded_or_empty(Some(cfg));
    assert_eq!(kept.profiles.len(), 1);
    assert_eq!(kept.profiles[0].name, "x");
    assert!(AppConfig::empty().profiles.is_empty());
}

#[test]
fn launch_error_messages() {
    assert_eq!(LaunchError::NoProcessSelected.message(), "请先选择一个进程");
    assert_eq!(LaunchError::SpawnFailed("x".to_string()).message(), "启动失败: x");
    assert_eq!(
        LaunchError::InvalidEndpoint(ValidationError::EmptyIp).message(),
        "IP 地址不能为空"
    );
}
