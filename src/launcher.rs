//! The launcher's state and its decisions: which process to relaunch, with
//! which arguments and environment, and the changes to the saved profiles.
use vstd::prelude::*;
use crate::endpoint::{validate, validation, ProxyProtocol, ValidationError};
use crate::process::{sort_by_name, sorted_by_name, ProcessInfo};
use crate::profile::{profile_fields, ProxyProfile};
use crate::text::{decimal_text, split_args, trim_text, trimmed, u32_text, views, words};

verus! {

/// Why a launch did not happen.
#[derive(Clone, Debug, PartialEq, Eq)]
pub enum LaunchError {
    /// The endpoint's address or port is unusable.
    InvalidEndpoint(ValidationError),
    /// No process of the current list is selected.
    NoProcessSelected,
    /// The selected process has no executable path, or it is not on disk.
    NoExecutablePath,
    /// The operating system refused to start the process; its message.
    SpawnFailed(String),
}

/// Why a change to the saved profiles did not go through.
#[derive(Clone, Debug, PartialEq, Eq)]
pub enum StoreError {
    /// The profile name is empty once trimmed.
    NameEmpty,
    /// No profile is selected.
    NoSelection,
    /// Writing the profiles failed; the message of that failure.
    PersistFailed(String),
}

/// A change to the saved profiles, each followed by writing them all.
#[derive(Clone, Copy, Debug, PartialEq, Eq, Structural)]
pub enum ProfileOp {
    Add,
    Update,
    Delete,
}

/// Everything needed to start the selected executable behind the proxy.
#[derive(Clone, Debug)]
pub struct LaunchPlan {
    /// The executable to start; its directory is the working directory.
    pub program: String,
    pub args: Vec<String>,
    /// Variables set in the child, on top of the inherited environment.
    pub env: Vec<(String, String)>,
    pub proxy_url: String,
    /// The name of the process that was selected.
    pub process_name: String,
}

/// The state of the launcher: the endpoint form, the process list and its
/// selection, the extra arguments, the saved profiles and the status line.
pub struct ProxyLauncherApp {
    pub ip: String,
    pub port: String,
    pub protocol: ProxyProtocol,
    pub processes: Vec<ProcessInfo>,
    pub selected_index: Option<usize>,
    pub args: String,
    pub status: String,
    pub profiles: Vec<ProxyProfile>,
    pub selected_profile_index: Option<usize>,
    pub profile_name: String,
}

/// The variables set for a child launched behind `url`.
pub open spec fn proxy_env(url: Seq<char>) -> Seq<(Seq<char>, Seq<char>)> {
    seq![
        ("HTTP_PROXY"@, url),
        ("HTTPS_PROXY"@, url),
        ("ALL_PROXY"@, url),
        ("http_proxy"@, url),
        ("https_proxy"@, url),
        ("all_proxy"@, url),
        ("NO_PROXY"@, Seq::<char>::empty()),
        ("no_proxy"@, Seq::<char>::empty()),
    ]
}

/// The views of a list of name and value pairs.
pub open spec fn pair_views(v: Seq<(String, String)>) -> Seq<(Seq<char>, Seq<char>)> {
    v.map_values(|p: (String, String)| (p.0@, p.1@))
}

/// The process that the selection points at, if it is in range.
pub open spec fn selected_process(app: ProxyLauncherApp) -> Option<ProcessInfo> {
    match app.selected_index {
        Some(i) => if i < app.processes@.len() {
            Some(app.processes@[i as int])
        } else {
            None
        },
        None => None,
    }
}

/// A plan that starts `exe` of the process `p`, with the words of `args`,
/// behind `url`.
pub open spec fn plan_for(
    plan: LaunchPlan,
    url: Seq<char>,
    p: ProcessInfo,
    exe: Seq<char>,
    args: Seq<char>,
) -> bool {
    &&& plan.program@ == exe
    &&& views(plan.args@) == words(args)
    &&& pair_views(plan.env@) == proxy_env(url)
    &&& plan.proxy_url@ == url
    &&& plan.process_name@ == p.name@
}

/// What a launch of `app` gives when the selected executable's existence on
/// disk is `exe_exists`: the first failing check, in order, or a plan.
pub open spec fn launch_outcome(plan: Result<LaunchPlan, LaunchError>, app: ProxyLauncherApp, exe_exists: bool) -> bool {
    match validation(app.ip@, app.port@, app.protocol) {
        Err(e) => plan == Err::<LaunchPlan, LaunchError>(LaunchError::InvalidEndpoint(e)),
        Ok(url) => match selected_process(app) {
            None => plan == Err::<LaunchPlan, LaunchError>(LaunchError::NoProcessSelected),
            Some(p) => match p.exe {
                Some(exe) => if exe_exists {
                    plan is Ok && plan_for(plan->Ok_0, url, p, exe@, app.args@)
                } else {
                    plan == Err::<LaunchPlan, LaunchError>(LaunchError::NoExecutablePath)
                },
                None => plan == Err::<LaunchPlan, LaunchError>(LaunchError::NoExecutablePath),
            },
        },
    }
}

/// The endpoint form and the extra arguments are the same in `a` and `b`.
pub open spec fn same_form(a: ProxyLauncherApp, b: ProxyLauncherApp) -> bool {
    &&& a.ip == b.ip
    &&& a.port == b.port
    &&& a.protocol == b.protocol
    &&& a.args == b.args
    &&& a.profile_name == b.profile_name
}

/// The process list and its selection are the same in `a` and `b`.
pub open spec fn same_processes(a: ProxyLauncherApp, b: ProxyLauncherApp) -> bool {
    &&& a.processes == b.processes
    &&& a.selected_index == b.selected_index
}

/// The saved profiles and their selection are the same in `a` and `b`.
pub open spec fn same_profiles(a: ProxyLauncherApp, b: ProxyLauncherApp) -> bool {
    &&& a.profiles == b.profiles
    &&& a.selected_profile_index == b.selected_profile_index
}

/// The profile that the form of `app` describes, trimmed.
pub open spec fn form_profile(app: ProxyLauncherApp) -> (Seq<char>, Seq<char>, Seq<char>, ProxyProtocol) {
    (trimmed(app.profile_name@), trimmed(app.ip@), trimmed(app.port@), app.protocol)
}

/// The message that a launch failure shows.
pub open spec fn launch_error_text(e: LaunchError) -> Seq<char> {
    match e {
        LaunchError::InvalidEndpoint(v) => match v {
            ValidationError::EmptyIp => "IP 地址不能为空"@,
            ValidationError::InvalidPort => "端口号无效（1-65535）"@,
        },
        LaunchError::NoProcessSelected => "请先选择一个进程"@,
        LaunchError::NoExecutablePath => "所选进程没有可执行文件路径，无法重启为代理模式"@,
        LaunchError::SpawnFailed(m) => "启动失败: "@ + m@,
    }
}

/// The status after a successful start of `name` as process `pid`.
pub open spec fn launched_text(name: Seq<char>, pid: u32, url: Seq<char>) -> Seq<char> {
    "已启动 ["@ + name + "] pid="@ + decimal_text(pid as nat) + "，代理="@ + url
        + "。注意：仅新启动进程会继承代理环境变量。"@
}

/// The status after a profile change was written, or failed to be.
pub open spec fn store_text(op: ProfileOp, failure: Option<Seq<char>>) -> Seq<char> {
    match failure {
        None => match op {
            ProfileOp::Add => "新增配置成功"@,
            ProfileOp::Update => "修改配置成功"@,
            ProfileOp::Delete => "删除配置成功"@,
        },
        Some(m) => match op {
            ProfileOp::Add => "保存配置失败: "@ + m,
            ProfileOp::Update => "修改配置失败: "@ + m,
            ProfileOp::Delete => "删除配置失败: "@ + m,
        },
    }
}

impl LaunchError {
    /// The message shown for this error.
    pub fn message(&self) -> (r: String)
        ensures
            r@ == launch_error_text(*self),
    {
        match self {
            LaunchError::InvalidEndpoint(v) => v.message(),
            LaunchError::NoProcessSelected => String::from_str("请先选择一个进程"),
            LaunchError::NoExecutablePath => String::from_str(
                "所选进程没有可执行文件路径，无法重启为代理模式",
            ),
            LaunchError::SpawnFailed(m) => {
                let mut text = String::from_str("启动失败: ");
                text.append(m.as_str());
                text
            },
        }
    }
}

/// The proxy variables for a child launched behind `url`.
pub fn proxy_env_vars(url: &str) -> (r: Vec<(String, String)>)
    ensures
        pair_views(r@) == proxy_env(url@),
{
    let mut env: Vec<(String, String)> = Vec::new();
    env.push((String::from_str("HTTP_PROXY"), url.to_owned()));
    env.push((String::from_str("HTTPS_PROXY"), url.to_owned()));
    env.push((String::from_str("ALL_PROXY"), url.to_owned()));
    env.push((String::from_str("http_proxy"), url.to_owned()));
    env.push((String::from_str("https_proxy"), url.to_owned()));
    env.push((String::from_str("all_proxy"), url.to_owned()));
    env.push((String::from_str("NO_PROXY"), String::new()));
    env.push((String::from_str("no_proxy"), String::new()));
    assert(pair_views(env@) =~= proxy_env(url@));
    env
}

impl ProxyLauncherApp {
    /// The initial state: the default endpoint form, an empty process list
    /// (filled by `refresh_processes`) and the given saved profiles.
    pub fn new(profiles: Vec<ProxyProfile>) -> (r: ProxyLauncherApp)
        ensures
            r.ip@ == "127.0.0.1"@,
            r.port@ == "7890"@,
            r.protocol == ProxyProtocol::Http,
            r.processes@.len() == 0,
            r.selected_index is None,
            r.args@.len() == 0,
            r.status@ == "请选择进程并启动。"@,
            r.profiles == profiles,
            r.selected_profile_index is None,
            r.profile_name@ == "默认配置"@,
    {
        ProxyLauncherApp {
            ip: String::from_str("127.0.0.1"),
            port: String::from_str("7890"),
            protocol: ProxyProtocol::Http,
            processes: Vec::new(),
            selected_index: None,
            args: String::new(),
            status: String::from_str("请选择进程并启动。"),
            profiles,
            selected_profile_index: None,
            profile_name: String::from_str("默认配置"),
        }
    }

    /// Replaces the process list with `snapshot` sorted by name, and drops a
    /// selection that no longer points into the list.
    pub fn refresh_processes(&mut self, snapshot: Vec<ProcessInfo>)
        ensures
            final(self).processes@ == sorted_by_name(snapshot@),
            final(self).selected_index == match old(self).selected_index {
                Some(i) => if i < snapshot@.len() {
                    Some(i)
                } else {
                    None
                },
                None => None,
            },
            same_form(*final(self), *old(self)),
            same_profiles(*final(self), *old(self)),
            final(self).status == old(self).status,
    {
        let sorted = sort_by_name(snapshot);
        self.processes = sorted;
        if let Some(idx) = self.selected_index {
            if idx >= self.processes.len() {
                self.selected_index = None;
            }
        }
    }

    /// The proxy URL of the endpoint form, or the message of what is wrong
    /// with it.
    pub fn current_proxy_url(&self) -> (r: Result<String, String>)
        ensures
            match validation(self.ip@, self.port@, self.protocol) {
                Ok(url) => r is Ok && r->Ok_0@ == url,
                Err(e) => r is Err && r->Err_0@ == launch_error_text(LaunchError::InvalidEndpoint(e)),
            },
    {
        match validate(self.ip.as_str(), self.port.as_str(), self.protocol) {
            Ok(url) => Ok(url),
            Err(e) => Err(e.message()),
        }
    }

    /// The executable path of the selected process, if one is selected.
    pub fn selected_executable(&self) -> (r: Option<String>)
        ensures
            match selected_process(*self) {
                Some(p) => crate::process::opt_text(r) == crate::process::opt_text(p.exe),
                None => r is None,
            },
    {
        match self.selected_index {
            Some(idx) => if idx < self.processes.len() {
                self.processes[idx].executable_path()
            } else {
                None
            },
            None => None,
        }
    }

    /// Decides a launch. The checks run in order and the first that fails
    /// decides: the endpoint, then the selection, then the executable, which
    /// `exe_exists` says is on disk. The arguments are the words of `args`.
    pub fn plan_launch(&self, exe_exists: bool) -> (r: Result<LaunchPlan, LaunchError>)
        ensures
            launch_outcome(r, *self, exe_exists),
    {
        let url = match validate(self.ip.as_str(), self.port.as_str(), self.protocol) {
            Ok(url) => url,
            Err(e) => {
                return Err(LaunchError::InvalidEndpoint(e));
            },
        };
        let idx = match self.selected_index {
            Some(i) => i,
            None => {
                return Err(LaunchError::NoProcessSelected);
            },
        };
        if idx >= self.processes.len() {
            return Err(LaunchError::NoProcessSelected);
        }
        let selected = &self.processes[idx];
        let exe = match &selected.exe {
            Some(exe) => exe,
            None => {
                return Err(LaunchError::NoExecutablePath);
            },
        };
        if !exe_exists {
            return Err(LaunchError::NoExecutablePath);
        }
        let args = split_args(self.args.as_str());
        let env = proxy_env_vars(url.as_str());
        Ok(LaunchPlan {
            program: exe.clone(),
            args,
            env,
            proxy_url: url,
            process_name: selected.name.clone(),
        })
    }

    /// Decides a launch as `plan_launch` does; a refusal becomes the status.
    pub fn launch_with_proxy(&mut self, exe_exists: bool) -> (r: Result<LaunchPlan, LaunchError>)
        ensures
            launch_outcome(r, *old(self), exe_exists),
            r is Err ==> final(self).status@ == launch_error_text(r->Err_0),
            r is Ok ==> final(self).status == old(self).status,
            same_form(*final(self), *old(self)),
            same_processes(*final(self), *old(self)),
            same_profiles(*final(self), *old(self)),
    {
        let r = self.plan_launch(exe_exists);
        if let Err(e) = &r {
            self.status = e.message();
        }
        r
    }

    /// Records how starting `plan`'s process went: its pid, or the
    /// operating system's message.
    pub fn finish_launch(&mut self, plan: &LaunchPlan, spawned: Result<u32, String>) -> (r: Result<u32, LaunchError>)
        ensures
            match spawned {
                Ok(pid) => r == Ok::<u32, LaunchError>(pid) && final(self).status@ == launched_text(
                    plan.process_name@,
                    pid,
                    plan.proxy_url@,
                ),
                Err(m) => r == Err::<u32, LaunchError>(LaunchError::SpawnFailed(m))
                    && final(self).status@ == launch_error_text(LaunchError::SpawnFailed(m)),
            },
            same_form(*final(self), *old(self)),
            same_processes(*final(self), *old(self)),
            same_profiles(*final(self), *old(self)),
    {
        match spawned {
            Ok(pid) => {
                let mut text = String::from_str("已启动 [");
                text.append(plan.process_name.as_str());
                text.append("] pid=");
                let digits = u32_text(pid);
                text.append(digits.as_str());
                text.append("，代理=");
                text.append(plan.proxy_url.as_str());
                text.append("。注意：仅新启动进程会继承代理环境变量。");
                self.status = text;
                Ok(pid)
            },
            Err(m) => {
                let e = LaunchError::SpawnFailed(m);
                self.status = e.message();
                Err(e)
            },
        }
    }
}

impl ProxyLauncherApp {
    /// The profile that the form describes, with its fields trimmed.
    fn profile_from_form(&self) -> (r: ProxyProfile)
        ensures
            profile_fields(r) == form_profile(*self),
    {
        ProxyProfile {
            name: trim_text(self.profile_name.as_str()),
            ip: trim_text(self.ip.as_str()),
            port: trim_text(self.port.as_str()),
            protocol: self.protocol,
        }
    }

    /// Appends the form's profile and selects it; a name that is empty once
    /// trimmed is refused and nothing is added. The caller then writes the
    /// profiles and reports with `finish_profile_change`.
    pub fn save_new_profile(&mut self) -> (r: Result<(), StoreError>)
        ensures
            trimmed(old(self).profile_name@).len() == 0 ==> {
                &&& r == Err::<(), StoreError>(StoreError::NameEmpty)
                &&& final(self).status@ == "配置名称不能为空"@
                &&& same_profiles(*final(self), *old(self))
            },
            trimmed(old(self).profile_name@).len() > 0 ==> {
                &&& r == Ok::<(), StoreError>(())
                &&& final(self).profiles@.len() == old(self).profiles@.len() + 1
                &&& final(self).profiles@.drop_last() == old(self).profiles@
                &&& profile_fields(final(self).profiles@.last()) == form_profile(*old(self))
                &&& final(self).selected_profile_index == Some(old(self).profiles@.len() as usize)
                &&& final(self).status == old(self).status
            },
            same_form(*final(self), *old(self)),
            same_processes(*final(self), *old(self)),
    {
        let name = trim_text(self.profile_name.as_str());
        if name.unicode_len() == 0 {
            self.status = String::from_str("配置名称不能为空");
            return Err(StoreError::NameEmpty);
        }
        let profile = self.profile_from_form();
        let ghost before = self.profiles@;
        self.profiles.push(profile);
        assert(self.profiles@.drop_last() =~= before);
        self.selected_profile_index = Some(self.profiles.len() - 1);
        Ok(())
    }

    /// Overwrites the selected profile with the form's, trimmed. An index
    /// out of range changes nothing, and the profiles are still written.
    pub fn update_selected_profile(&mut self) -> (r: Result<(), StoreError>)
        ensures
            old(self).selected_profile_index is None ==> {
                &&& r == Err::<(), StoreError>(StoreError::NoSelection)
                &&& final(self).status@ == "请先在下拉框中选择一个配置"@
                &&& final(self).profiles == old(self).profiles
            },
            old(self).selected_profile_index is Some ==> {
                let i = old(self).selected_profile_index->0 as int;
                &&& r == Ok::<(), StoreError>(())
                &&& final(self).status == old(self).status
                &&& final(self).profiles@.len() == old(self).profiles@.len()
                &&& forall|j: int|
                    0 <= j < old(self).profiles@.len() && j != i
                        ==> #[trigger] final(self).profiles@[j] == old(self).profiles@[j]
                &&& 0 <= i < old(self).profiles@.len() ==> profile_fields(final(self).profiles@[i])
                    == form_profile(*old(self))
            },
            final(self).selected_profile_index == old(self).selected_profile_index,
            same_form(*final(self), *old(self)),
            same_processes(*final(self), *old(self)),
    {
        let idx = match self.selected_profile_index {
            Some(i) => i,
            None => {
                self.status = String::from_str("请先在下拉框中选择一个配置");
                return Err(StoreError::NoSelection);
            },
        };
        if idx < self.profiles.len() {
            let profile = self.profile_from_form();
            let ghost before = self.profiles@;
            self.profiles.remove(idx);
            self.profiles.insert(idx, profile);
            assert(self.profiles@ =~= before.update(idx as int, profile));
        }
        Ok(())
    }

    /// Removes the selected profile, if its index is in range, and clears the
    /// selection; the profiles are written either way.
    pub fn delete_selected_profile(&mut self) -> (r: Result<(), StoreError>)
        ensures
            old(self).selected_profile_index is None ==> {
                &&& r == Err::<(), StoreError>(StoreError::NoSelection)
                &&& final(self).status@ == "请先选择要删除的配置"@
                &&& same_profiles(*final(self), *old(self))
            },
            old(self).selected_profile_index is Some ==> {
                let i = old(self).selected_profile_index->0 as int;
                &&& r == Ok::<(), StoreError>(())
                &&& final(self).status == old(self).status
                &&& final(self).selected_profile_index is None
                &&& final(self).profiles@ == if i < old(self).profiles@.len() {
                    old(self).profiles@.remove(i)
                } else {
                    old(self).profiles@
                }
            },
            same_form(*final(self), *old(self)),
            same_processes(*final(self), *old(self)),
    {
        let idx = match self.selected_profile_index {
            Some(i) => i,
            None => {
                self.status = String::from_str("请先选择要删除的配置");
                return Err(StoreError::NoSelection);
            },
        };
        if idx < self.profiles.len() {
            self.profiles.remove(idx);
        }
        self.selected_profile_index = None;
        Ok(())
    }

    /// Records whether writing the profiles after `op` succeeded, with the
    /// failure's message if it did not. The profiles in memory stay as `op`
    /// left them either way.
    pub fn finish_profile_change(&mut self, op: ProfileOp, persisted: Result<(), String>) -> (r:
        Result<(), StoreError>)
        ensures
            match persisted {
                Ok(()) => r == Ok::<(), StoreError>(()) && final(self).status@ == store_text(op, None),
                Err(m) => r == Err::<(), StoreError>(StoreError::PersistFailed(m))
                    && final(self).status@ == store_text(op, Some(m@)),
            },
            same_form(*final(self), *old(self)),
            same_processes(*final(self), *old(self)),
            same_profiles(*final(self), *old(self)),
    {
        match persisted {
            Ok(()) => {
                self.status = match op {
                    ProfileOp::Add => String::from_str("新增配置成功"),
                    ProfileOp::Update => String::from_str("修改配置成功"),
                    ProfileOp::Delete => String::from_str("删除配置成功"),
                };
                Ok(())
            },
            Err(m) => {
                let mut text = match op {
                    ProfileOp::Add => String::from_str("保存配置失败: "),
                    ProfileOp::Update => String::from_str("修改配置失败: "),
                    ProfileOp::Delete => String::from_str("删除配置失败: "),
                };
                text.append(m.as_str());
                self.status = text;
                Err(StoreError::PersistFailed(m))
            },
        }
    }

    /// Copies the selected profile into the form. Without a selection only
    /// the status changes; an index out of range changes nothing.
    pub fn load_selected_profile_to_form(&mut self)
        ensures
            old(self).selected_profile_index is None ==> {
                &&& final(self).status@ == "请先选择要加载的配置"@
                &&& same_form(*final(self), *old(self))
            },
            old(self).selected_profile_index is Some ==> {
                let i = old(self).selected_profile_index->0 as int;
                if i < old(self).profiles@.len() {
                    &&& profile_fields(old(self).profiles@[i]) == (
                        final(self).profile_name@,
                        final(self).ip@,
                        final(self).port@,
                        final(self).protocol,
                    )
                    &&& final(self).args == old(self).args
                    &&& final(self).status@ == "已加载配置到当前输入框"@
                } else {
                    same_form(*final(self), *old(self)) && final(self).status == old(self).status
                }
            },
            same_processes(*final(self), *old(self)),
            same_profiles(*final(self), *old(self)),
    {
        let idx = match self.selected_profile_index {
            Some(i) => i,
            None => {
                self.status = String::from_str("请先选择要加载的配置");
                return;
            },
        };
        if idx < self.profiles.len() {
            let profile = &self.profiles[idx];
            let name = profile.name.clone();
            let ip = profile.ip.clone();
            let port = profile.port.clone();
            let protocol = profile.protocol;
            self.profile_name = name;
            self.ip = ip;
            self.port = port;
            self.protocol = protocol;
            self.status = String::from_str("已加载配置到当前输入框");
        }
    }
}

/// Without a selected process, a launch with a usable endpoint is refused as
/// `NoProcessSelected`, whatever the executable.
pub proof fn lemma_launch_needs_selection(
    plan: Result<LaunchPlan, LaunchError>,
    app: ProxyLauncherApp,
    exe_exists: bool,
)
    requires
        launch_outcome(plan, app, exe_exists),
        validation(app.ip@, app.port@, app.protocol) is Ok,
        app.selected_index is None || app.selected_index->0 >= app.processes@.len(),
    ensures
        plan == Err::<LaunchPlan, LaunchError>(LaunchError::NoProcessSelected),
{
}

/// A launch with a usable endpoint and a selected process whose executable
/// is missing from disk, or unknown, is refused as `NoExecutablePath`.
pub proof fn lemma_launch_needs_executable(
    plan: Result<LaunchPlan, LaunchError>,
    app: ProxyLauncherApp,
)
    requires
        launch_outcome(plan, app, false),
        validation(app.ip@, app.port@, app.protocol) is Ok,
        selected_process(app) is Some,
    ensures
        plan == Err::<LaunchPlan, LaunchError>(LaunchError::NoExecutablePath),
{
}

} // verus!
