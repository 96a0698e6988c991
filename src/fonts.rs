//! Fonts able to show CJK text, looked for where Windows keeps them.
use vstd::prelude::*;

verus! {

/// The candidate fonts, in order of preference: a family name and a file.
pub open spec fn cjk_fonts() -> Seq<(Seq<char>, Seq<char>)> {
    seq![
        ("simhei"@, "C:/Windows/Fonts/simhei.ttf"@),
        ("simkai"@, "C:/Windows/Fonts/simkai.ttf"@),
        ("simsun"@, "C:/Windows/Fonts/simsun.ttc"@),
        ("msyh"@, "C:/Windows/Fonts/msyh.ttc"@),
        ("msyhbd"@, "C:/Windows/Fonts/msyhbd.ttc"@),
        ("msyh-ui"@, "C:/Windows/Fonts/msyh.ttc"@),
        ("deng"@, "C:/Windows/Fonts/Deng.ttf"@),
        ("dengb"@, "C:/Windows/Fonts/Dengb.ttf"@),
    ]
}

/// The candidate CJK fonts, each a family name and the path of its file.
pub fn windows_cjk_font_candidates() -> (r: [(&'static str, &'static str); 8])
    ensures
        forall|i: int| 0 <= i < 8 ==> (#[trigger] r@[i].0@, r@[i].1@) == cjk_fonts()[i],
{
    let r = [
        ("simhei", "C:/Windows/Fonts/simhei.ttf"),
        ("simkai", "C:/Windows/Fonts/simkai.ttf"),
        ("simsun", "C:/Windows/Fonts/simsun.ttc"),
        ("msyh", "C:/Windows/Fonts/msyh.ttc"),
        ("msyhbd", "C:/Windows/Fonts/msyhbd.ttc"),
        ("msyh-ui", "C:/Windows/Fonts/msyh.ttc"),
        ("deng", "C:/Windows/Fonts/Deng.ttf"),
        ("dengb", "C:/Windows/Fonts/Dengb.ttf"),
    ];
    r
}

} // verus!
