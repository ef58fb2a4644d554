//! The index of Yunzai plugins the console knows how to install.
use vstd::prelude::*;
use crate::text::str_eq;

verus! {

/// The group a plugin belongs to.
#[derive(Debug, Clone, Copy, PartialEq, Eq, Structural)]
pub enum PluginCategory {
    /// The Yunzai framework itself.
    Framework,
    /// Recommended plugins.
    Featured,
    /// Feature plugins.
    Function,
    /// Plugins for a game.
    Game,
    /// Text-adventure plugins.
    WordGame,
    /// Single-file JS plugins.
    JsPlugin,
}

/// The label shown for each category.
pub open spec fn category_label(c: PluginCategory) -> Seq<char> {
    match c {
        PluginCategory::Framework => "云崽框架"@,
        PluginCategory::Featured => "推荐插件"@,
        PluginCategory::Function => "功能类"@,
        PluginCategory::Game => "游戏 IP 类"@,
        PluginCategory::WordGame => "文游类"@,
        PluginCategory::JsPlugin => "单 JS 类"@,
    }
}

impl PluginCategory {
    pub fn display_name(&self) -> (r: &'static str)
        ensures
            r@ == category_label(*self),
    {
        match self {
            PluginCategory::Framework => "云崽框架",
            PluginCategory::Featured => "推荐插件",
            PluginCategory::Function => "功能类",
            PluginCategory::Game => "游戏 IP 类",
            PluginCategory::WordGame => "文游类",
            PluginCategory::JsPlugin => "单 JS 类",
        }
    }
}

/// One installable plugin.
#[derive(Debug, Clone)]
pub struct PluginInfo {
    pub name: String,
    pub author: String,
    pub repo_url: String,
    pub category: PluginCategory,
    pub description: String,
    pub recommended: bool,
}

/// A plugin's fields, as the index lists them.
pub struct PluginRow {
    pub name: Seq<char>,
    pub author: Seq<char>,
    pub repo_url: Seq<char>,
    pub category: PluginCategory,
    pub description: Seq<char>,
    pub recommended: bool,
}

/// A recommended plugin with a known repository.
pub open spec fn row(
    name: Seq<char>,
    author: Seq<char>,
    repo_url: Seq<char>,
    category: PluginCategory,
    description: Seq<char>,
) -> PluginRow {
    PluginRow { name, author, repo_url, category, description, recommended: true }
}

/// A plugin on the owner's machine whose name and repository are not recorded.
pub open spec fn unrecorded_row(name: Seq<char>) -> PluginRow {
    PluginRow {
        name,
        author: seq![],
        repo_url: seq![],
        category: PluginCategory::Function,
        description: "主人游戏本上已装, 名称与仓库未登记"@,
        recommended: false,
    }
}

/// A row can be cloned only when its repository is known.
pub open spec fn has_repository(r: PluginRow) -> bool {
    r.repo_url.len() > 0
}

/// A plugin entry matches a row.
pub open spec fn plugin_is(p: PluginInfo, r: PluginRow) -> bool {
    &&& p.name@ == r.name
    &&& p.author@ == r.author
    &&& p.repo_url@ == r.repo_url
    &&& p.category == r.category
    &&& p.description@ == r.description
    &&& p.recommended == r.recommended
}

/// The framework and the 23 plugins installed on the owner's machine, in order.
/// Three of the plugins are known only to be there: their rows carry no name
/// of their own and no repository, are not recommended, and cannot be
/// installed.
pub open spec fn owner_plugin_rows() -> Seq<PluginRow> {
    seq![
        row("TRSS-Yunzai (主程序)"@, "时雨星空"@, "https://github.com/TimeRainStarSky/Yunzai.git"@, PluginCategory::Framework, "云崽机器人 v3 主程序"@),
        row("miao-plugin (喵喵插件)"@, "喵喵"@, "https://github.com/yoimiya-kokomi/miao-plugin.git"@, PluginCategory::Featured, "升级插件,提供角色面板查询等功能"@),
        row("xitian-plugin (戏天插件)"@, "戏天"@, "https://gitee.com/XiTianGame/xitian-plugin.git"@, PluginCategory::Featured, "JS 类插件管理功能"@),
        row("guoba-plugin (锅巴插件)"@, "zolay-poi"@, "https://gitee.com/guoba-yunzai/guoba-plugin.git"@, PluginCategory::Featured, "网页端后台管理界面"@),
        row("liangshi-calc (梁氏伤害计算)"@, "liangshi"@, "https://gitee.com/liangshi233/liangshi-calc.git"@, PluginCategory::Featured, "角色伤害计算扩展"@),
        row("Atlas (原神图鉴)"@, "Nwflower"@, "https://gitee.com/Nwflower/atlas.git"@, PluginCategory::Featured, "图鉴查询"@),
        row("yenai-plugin"@, "yenai"@, "https://github.com/yenaijs/yenai-plugin.git"@, PluginCategory::Function, "椰奶插件"@),
        row("StarRail-plugin (星穹铁道)"@, ""@, "https://github.com/yoimiya-kokomi/StarRail-plugin.git"@, PluginCategory::Game, "星穹铁道游戏功能"@),
        row("ZZZ-Plugin (绝区零)"@, ""@, "https://github.com/zzz-plugin/ZZZ-Plugin.git"@, PluginCategory::Game, "绝区零游戏功能"@),
        row("waves-plugin (鸣潮)"@, ""@, "https://github.com/Walker-00/waves-plugin.git"@, PluginCategory::Game, "鸣潮游戏功能"@),
        row("WeGame-plugin (王者/联盟手游)"@, ""@, "https://github.com/Wedaren/WeGame-plugin.git"@, PluginCategory::Game, "王者荣耀 + 英雄联盟手游功能"@),
        row("pixiv-plugin"@, ""@, "https://github.com/Tsuk1ko/pixiv-plugin.git"@, PluginCategory::Function, "Pixiv 图片相关"@),
        row("skland-plugin (森空岛)"@, ""@, "https://github.com/takayama-lily/skland-plugin.git"@, PluginCategory::Function, "森空岛相关"@),
        row("Poke-plugin (宝可梦)"@, ""@, "https://github.com/sanmusen214/Poke-plugin.git"@, PluginCategory::Game, "宝可梦查询"@),
        row("siliconflow-plugin (硅基流动 AI)"@, ""@, "https://github.com/owner/siliconflow-plugin.git"@, PluginCategory::Function, "硅基流动 AI 接口"@),
        row("Speech-statistics-plugin"@, ""@, "https://github.com/owner/Speech-statistics-plugin.git"@, PluginCategory::Function, "群聊发言统计"@),
        row("TaJiDuo-plugin (他她它)"@, ""@, "https://github.com/owner/TaJiDuo-plugin.git"@, PluginCategory::Function, "他她它相关"@),
        row("WeChat-Plugin (微信适配器)"@, ""@, "https://github.com/owner/WeChat-Plugin.git"@, PluginCategory::Function, "微信个人号适配器"@),
        row("TRSS-WeChat-OC-Plugin"@, ""@, "https://github.com/owner/TRSS-WeChat-OC-Plugin.git"@, PluginCategory::Function, "微信 OC 适配器"@),
        row("yuki-plugin"@, ""@, "https://github.com/yhArcadia/yuki-plugin.git"@, PluginCategory::Function, "yuki 插件"@),
        row("yunzai-plugin-deer-pipe"@, ""@, "https://github.com/owner/yunzai-plugin-deer-pipe.git"@, PluginCategory::Function, "deer pipe 插件"@),
        unrecorded_row("未登记插件 1"@),
        unrecorded_row("未登记插件 2"@),
        unrecorded_row("未登记插件 3"@)
    ]
}

/// The name of the main program's entry, which is never installed as a plugin.
pub open spec fn main_program_name() -> Seq<char> {
    "TRSS-Yunzai (主程序)"@
}

fn plugin(name: &str, author: &str, repo_url: &str, category: PluginCategory, description: &str) -> (p: PluginInfo)
    ensures
        plugin_is(p, row(name@, author@, repo_url@, category, description@)),
{
    PluginInfo {
        name: String::from_str(name),
        author: String::from_str(author),
        repo_url: String::from_str(repo_url),
        category,
        description: String::from_str(description),
        recommended: true,
    }
}

fn unrecorded(name: &str) -> (p: PluginInfo)
    ensures
        plugin_is(p, unrecorded_row(name@)),
{
    PluginInfo {
        name: String::from_str(name),
        author: String::new(),
        repo_url: String::new(),
        category: PluginCategory::Function,
        description: String::from_str("主人游戏本上已装, 名称与仓库未登记"),
        recommended: false,
    }
}

/// The plugin index: every entry of `owner_plugin_rows`, in order; the
/// framework and the owner's 23 plugins.
#[verifier::rlimit(50)]
pub fn owner_installed_plugins() -> (v: Vec<PluginInfo>)
    ensures
        v@.len() == 24,
        v@[0].category == PluginCategory::Framework,
        forall|i: int| 1 <= i < v@.len() ==> v@[i].category != PluginCategory::Framework,
        v@.len() == owner_plugin_rows().len(),
        forall|i: int| 0 <= i < v@.len() ==> plugin_is(#[trigger] v@[i], owner_plugin_rows()[i]),
{
    let mut v: Vec<PluginInfo> = Vec::new();
    v.push(plugin("TRSS-Yunzai (主程序)", "时雨星空", "https://github.com/TimeRainStarSky/Yunzai.git", PluginCategory::Framework, "云崽机器人 v3 主程序"));
    v.push(plugin("miao-plugin (喵喵插件)", "喵喵", "https://github.com/yoimiya-kokomi/miao-plugin.git", PluginCategory::Featured, "升级插件,提供角色面板查询等功能"));
    v.push(plugin("xitian-plugin (戏天插件)", "戏天", "https://gitee.com/XiTianGame/xitian-plugin.git", PluginCategory::Featured, "JS 类插件管理功能"));
    v.push(plugin("guoba-plugin (锅巴插件)", "zolay-poi", "https://gitee.com/guoba-yunzai/guoba-plugin.git", PluginCategory::Featured, "网页端后台管理界面"));
    v.push(plugin("liangshi-calc (梁氏伤害计算)", "liangshi", "https://gitee.com/liangshi233/liangshi-calc.git", PluginCategory::Featured, "角色伤害计算扩展"));
    v.push(plugin("Atlas (原神图鉴)", "Nwflower", "https://gitee.com/Nwflower/atlas.git", PluginCategory::Featured, "图鉴查询"));
    v.push(plugin("yenai-plugin", "yenai", "https://github.com/yenaijs/yenai-plugin.git", PluginCategory::Function, "椰奶插件"));
    v.push(plugin("StarRail-plugin (星穹铁道)", "", "https://github.com/yoimiya-kokomi/StarRail-plugin.git", PluginCategory::Game, "星穹铁道游戏功能"));
    v.push(plugin("ZZZ-Plugin (绝区零)", "", "https://github.com/zzz-plugin/ZZZ-Plugin.git", PluginCategory::Game, "绝区零游戏功能"));
    v.push(plugin("waves-plugin (鸣潮)", "", "https://github.com/Walker-00/waves-plugin.git", PluginCategory::Game, "鸣潮游戏功能"));
    v.push(plugin("WeGame-plugin (王者/联盟手游)", "", "https://github.com/Wedaren/WeGame-plugin.git", PluginCategory::Game, "王者荣耀 + 英雄联盟手游功能"));
    v.push(plugin("pixiv-plugin", "", "https://github.com/Tsuk1ko/pixiv-plugin.git", PluginCategory::Function, "Pixiv 图片相关"));
    v.push(plugin("skland-plugin (森空岛)", "", "https://github.com/takayama-lily/skland-plugin.git", PluginCategory::Function, "森空岛相关"));
    v.push(plugin("Poke-plugin (宝可梦)", "", "https://github.com/sanmusen214/Poke-plugin.git", PluginCategory::Game, "宝可梦查询"));
    v.push(plugin("siliconflow-plugin (硅基流动 AI)", "", "https://github.com/owner/siliconflow-plugin.git", PluginCategory::Function, "硅基流动 AI 接口"));
    v.push(plugin("Speech-statistics-plugin", "", "https://github.com/owner/Speech-statistics-plugin.git", PluginCategory::Function, "群聊发言统计"));
    v.push(plugin("TaJiDuo-plugin (他她它)", "", "https://github.com/owner/TaJiDuo-plugin.git", PluginCategory::Function, "他她它相关"));
    v.push(plugin("WeChat-Plugin (微信适配器)", "", "https://github.com/owner/WeChat-Plugin.git", PluginCategory::Function, "微信个人号适配器"));
    v.push(plugin("TRSS-WeChat-OC-Plugin", "", "https://github.com/owner/TRSS-WeChat-OC-Plugin.git", PluginCategory::Function, "微信 OC 适配器"));
    v.push(plugin("yuki-plugin", "", "https://github.com/yhArcadia/yuki-plugin.git", PluginCategory::Function, "yuki 插件"));
    v.push(plugin("yunzai-plugin-deer-pipe", "", "https://github.com/owner/yunzai-plugin-deer-pipe.git", PluginCategory::Function, "deer pipe 插件"));
    v.push(unrecorded("未登记插件 1"));
    v.push(unrecorded("未登记插件 2"));
    v.push(unrecorded("未登记插件 3"));
    v
}

/// The first index entry whose name is exactly `name`.
pub open spec fn is_first_named(index: Seq<PluginInfo>, name: Seq<char>, i: int) -> bool {
    &&& 0 <= i < index.len()
    &&& index[i].name@ == name
    &&& forall|j: int| 0 <= j < i ==> (#[trigger] index[j]).name@ != name
}

/// `iter().find(|p| p.name == name)`, as a position.
pub fn find_plugin(index: &Vec<PluginInfo>, name: &str) -> (r: Option<usize>)
    ensures
        match r {
            Some(i) => is_first_named(index@, name@, i as int),
            None => forall|j: int| 0 <= j < index@.len() ==> (#[trigger] index@[j]).name@ != name@,
        },
{
    let n = index.len();
    let mut i: usize = 0;
    while i < n
        invariant
            n == index@.len(),
            i <= n,
            forall|j: int| 0 <= j < i ==> (#[trigger] index@[j]).name@ != name@,
        decreases n - i,
    {
        if str_eq(index[i].name.as_str(), name) {
            return Some(i);
        }
        i = i + 1;
    }
    None
}

} // verus!

verus! {

/// No two entries of the index share a name, so a lookup by name finds the
/// entry of that name.
pub proof fn law_index_names_distinct()
    ensures
        forall|i: int, j: int|
            0 <= i < j < owner_plugin_rows().len() ==> owner_plugin_rows()[i].name != owner_plugin_rows()[j].name,
{
    reveal_strlit("TRSS-Yunzai (主程序)");
    reveal_strlit("miao-plugin (喵喵插件)");
    reveal_strlit("xitian-plugin (戏天插件)");
    reveal_strlit("guoba-plugin (锅巴插件)");
    reveal_strlit("yenai-plugin");
    reveal_strlit("StarRail-plugin (星穹铁道)");
    reveal_strlit("ZZZ-Plugin (绝区零)");
    reveal_strlit("waves-plugin (鸣潮)");
    reveal_strlit("WeGame-plugin (王者/联盟手游)");
    reveal_strlit("pixiv-plugin");
    reveal_strlit("skland-plugin (森空岛)");
    reveal_strlit("Poke-plugin (宝可梦)");
    reveal_strlit("siliconflow-plugin (硅基流动 AI)");
    reveal_strlit("Speech-statistics-plugin");
    reveal_strlit("TaJiDuo-plugin (他她它)");
    reveal_strlit("WeChat-Plugin (微信适配器)");
    reveal_strlit("TRSS-WeChat-OC-Plugin");
    reveal_strlit("yuki-plugin");
    reveal_strlit("yunzai-plugin-deer-pipe");
    reveal_strlit("liangshi-calc (梁氏伤害计算)");
    reveal_strlit("Atlas (原神图鉴)");
    reveal_strlit("未登记插件 1");
    reveal_strlit("未登记插件 2");
    reveal_strlit("未登记插件 3");
    let rows = owner_plugin_rows();
    assert forall|i: int, j: int| 0 <= i < j < rows.len() implies rows[i].name != rows[j].name by {
        assert(rows[i].name.len() != rows[j].name.len() || rows[i].name[0] != rows[j].name[0]
            || rows[i].name[1] != rows[j].name[1] || rows[i].name[5] != rows[j].name[5]
            || rows[i].name[6] != rows[j].name[6]);
    }
}

} // verus!
