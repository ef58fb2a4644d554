//! First-run checks: what an installation needs to be complete, the QQ
//! version to recommend, and how NapCat is unpacked into place.
use vstd::prelude::*;
use crate::host::{CommandSpec, CommandOutcome, CommandView, OutcomeView, strings_view};
use crate::text::{concat2, concat3, decimal, decimal_string};

verus! {

/// One line of the installation check.
#[derive(Debug, Clone)]
pub struct CheckItem {
    pub name: String,
    pub ok: bool,
    pub detail: String,
}

/// The result of the installation check.
#[derive(Debug, Clone)]
pub struct SetupVerification {
    pub install_root: String,
    pub all_ok: bool,
    pub checks: Vec<CheckItem>,
}

/// A check line as plain values: name, outcome, detail.
pub open spec fn item_view(c: CheckItem) -> (Seq<char>, bool, Seq<char>) {
    (c.name@, c.ok, c.detail@)
}

/// `check_command_exists`: the line for a command looked up on `PATH`.
pub open spec fn command_check_spec(name: Seq<char>, label: Seq<char>, found: bool) -> (Seq<char>, bool, Seq<char>) {
    (
        label + " (PATH)"@,
        found,
        if found { "已找到"@ } else { "未在 PATH 中找到 "@ + name + " 命令"@ },
    )
}

/// The line for a command, given whether a lookup on `PATH` found it.
pub fn check_command_exists(name: &str, label: &str, found: bool) -> (c: CheckItem)
    ensures
        item_view(c) == command_check_spec(name@, label@, found),
{
    CheckItem {
        name: concat2(label, " (PATH)"),
        ok: found,
        detail: if found { String::from_str("已找到") } else { concat3("未在 PATH 中找到 ", name, " 命令") },
    }
}

/// The file names a `PATH` lookup of `cmd` tries in each directory, in order:
/// the bare name, then on Windows also `.exe`, `.cmd` and `.bat`.
pub open spec fn command_file_names_spec(cmd: Seq<char>, windows: bool) -> Seq<Seq<char>> {
    if windows {
        seq![cmd, cmd + ".exe"@, cmd + ".cmd"@, cmd + ".bat"@]
    } else {
        seq![cmd]
    }
}

pub fn command_file_names(cmd: &str, windows: bool) -> (r: Vec<String>)
    ensures
        strings_view(r@) == command_file_names_spec(cmd@, windows),
{
    let mut r: Vec<String> = Vec::new();
    r.push(String::from_str(cmd));
    if windows {
        r.push(concat2(cmd, ".exe"));
        r.push(concat2(cmd, ".cmd"));
        r.push(concat2(cmd, ".bat"));
    }
    assert(strings_view(r@) =~= command_file_names_spec(cmd@, windows));
    r
}

/// `which`'s choice among the lookup results, where `hits[d][c]` says whether
/// candidate `c` (in `command_file_names` order) is a file in the `d`-th
/// directory of `PATH`: the first directory holding any candidate, and in it
/// the first candidate.
pub open spec fn is_first_hit(hits: Seq<Vec<bool>>, d: int, c: int) -> bool {
    &&& 0 <= d < hits.len()
    &&& 0 <= c < hits[d]@.len()
    &&& hits[d]@[c]
    &&& forall|e: int, f: int| 0 <= e < d && 0 <= f < hits[e]@.len() ==> !(#[trigger] hits[e]@[f])
    &&& forall|f: int| 0 <= f < c ==> !(#[trigger] hits[d]@[f])
}

pub open spec fn no_hit(hits: Seq<Vec<bool>>) -> bool {
    forall|e: int, f: int| 0 <= e < hits.len() && 0 <= f < hits[e]@.len() ==> !(#[trigger] hits[e]@[f])
}

/// The directory and candidate `which` returns, or `None` when no candidate
/// is a file in any directory.
pub fn first_on_path(hits: &Vec<Vec<bool>>) -> (r: Option<(usize, usize)>)
    ensures
        match r {
            Some((d, c)) => is_first_hit(hits@, d as int, c as int),
            None => no_hit(hits@),
        },
{
    let n = hits.len();
    let mut d: usize = 0;
    while d < n
        invariant
            n == hits@.len(),
            d <= n,
            forall|e: int, f: int| 0 <= e < d && 0 <= f < hits@[e]@.len() ==> !(#[trigger] hits@[e]@[f]),
        decreases n - d,
    {
        let m = hits[d].len();
        let mut c: usize = 0;
        while c < m
            invariant
                n == hits@.len(),
                d < n,
                m == hits@[d as int]@.len(),
                c <= m,
                forall|e: int, f: int| 0 <= e < d && 0 <= f < hits@[e]@.len() ==> !(#[trigger] hits@[e]@[f]),
                forall|f: int| 0 <= f < c ==> !(#[trigger] hits@[d as int]@[f]),
            decreases m - c,
        {
            if hits[d][c] {
                return Some((d, c));
            }
            c = c + 1;
        }
        proof {
            assert forall|e: int, f: int| 0 <= e < d + 1 && 0 <= f < hits@[e]@.len() implies !(#[trigger] hits@[e]@[f]) by {
                if e == d {
                    assert(!hits@[d as int]@[f]);
                }
            }
        }
        d = d + 1;
    }
    None
}

/// What the installation check found on disk and on `PATH`.
pub struct SetupFacts {
    pub node_on_path: bool,
    pub git_on_path: bool,
    pub redis_server_on_path: bool,
    pub redis_cli_on_path: bool,
    /// `Yunzai-Bot/app.js` exists under the root.
    pub yunzai_app_js: bool,
    /// `Yunzai-Bot/node_modules` exists.
    pub yunzai_node_modules: bool,
    /// `NapCat/NapCatWinBootMain.exe` exists.
    pub napcat_boot_exe: bool,
    /// `NapCat/launcher.bat` exists.
    pub napcat_launcher: bool,
    /// `NapCat/config/webui.json` exists.
    pub napcat_webui_config: bool,
    /// The number of directories in `Yunzai-Bot/plugins` (0 when it is missing or unreadable).
    pub plugin_dirs: u64,
    /// `Yunzai-Bot/plugins/miao-plugin` exists.
    pub miao_plugin: bool,
}

/// The lines of the installation check, in order.
pub open spec fn setup_checks_spec(root: Seq<char>, f: SetupFacts) -> Seq<(Seq<char>, bool, Seq<char>)> {
    seq![
        command_check_spec("node"@, "Node.js"@, f.node_on_path),
        command_check_spec("git"@, "Git"@, f.git_on_path),
        command_check_spec("redis-server"@, "Redis"@, f.redis_server_on_path),
        command_check_spec("redis-cli"@, "Redis CLI"@, f.redis_cli_on_path),
        ("Yunzai 主程序"@, f.yunzai_app_js, root + "/Yunzai-Bot/app.js"@),
        ("Yunzai node_modules"@, f.yunzai_node_modules, root + "/Yunzai-Bot/node_modules/"@),
        ("NapCat 主程序"@, f.napcat_boot_exe || f.napcat_launcher, root + "/NapCat/"@),
        ("NapCat WebUI 配置"@, f.napcat_webui_config, "NapCat/config/webui.json"@),
        (
            "Yunzai 插件目录 ("@ + decimal(f.plugin_dirs as nat) + " 个插件)"@,
            f.plugin_dirs >= 3,
            root + "/Yunzai-Bot/plugins/ ("@ + decimal(f.plugin_dirs as nat) + ")"@,
        ),
        ("miao-plugin (推荐)"@, f.miao_plugin, "Yunzai-Bot/plugins/miao-plugin"@),
    ]
}

fn item(name: String, ok: bool, detail: String) -> (c: CheckItem)
    ensures
        item_view(c) == (name@, ok, detail@),
{
    CheckItem { name, ok, detail }
}

/// `verify_setup`: the check lines for an installation root, and whether all of them passed.
pub fn verify_setup(install_root: &str, facts: &SetupFacts) -> (v: SetupVerification)
    ensures
        v.install_root@ == install_root@,
        v.checks@.map_values(|c: CheckItem| item_view(c)) == setup_checks_spec(install_root@, *facts),
        v.all_ok == (forall|i: int| 0 <= i < v.checks@.len() ==> (#[trigger] v.checks@[i]).ok),
        lines_follow_facts(v.checks@, *facts),
        v.all_ok == all_facts_hold(*facts),
{
    let mut checks: Vec<CheckItem> = Vec::new();
    checks.push(check_command_exists("node", "Node.js", facts.node_on_path));
    checks.push(check_command_exists("git", "Git", facts.git_on_path));
    checks.push(check_command_exists("redis-server", "Redis", facts.redis_server_on_path));
    checks.push(check_command_exists("redis-cli", "Redis CLI", facts.redis_cli_on_path));
    checks.push(item(
        String::from_str("Yunzai 主程序"),
        facts.yunzai_app_js,
        concat2(install_root, "/Yunzai-Bot/app.js"),
    ));
    checks.push(item(
        String::from_str("Yunzai node_modules"),
        facts.yunzai_node_modules,
        concat2(install_root, "/Yunzai-Bot/node_modules/"),
    ));
    checks.push(item(
        String::from_str("NapCat 主程序"),
        facts.napcat_boot_exe || facts.napcat_launcher,
        concat2(install_root, "/NapCat/"),
    ));
    checks.push(item(
        String::from_str("NapCat WebUI 配置"),
        facts.napcat_webui_config,
        String::from_str("NapCat/config/webui.json"),
    ));
    let count = decimal_string(facts.plugin_dirs);
    let mut plugin_name = String::from_str("Yunzai 插件目录 (");
    plugin_name.append(count.as_str());
    plugin_name.append(" 个插件)");
    let mut plugin_detail = concat2(install_root, "/Yunzai-Bot/plugins/ (");
    plugin_detail.append(count.as_str());
    plugin_detail.append(")");
    checks.push(item(plugin_name, facts.plugin_dirs >= 3, plugin_detail));
    checks.push(item(
        String::from_str("miao-plugin (推荐)"),
        facts.miao_plugin,
        String::from_str("Yunzai-Bot/plugins/miao-plugin"),
    ));
    assert(checks@.map_values(|c: CheckItem| item_view(c)) =~= setup_checks_spec(install_root@, *facts));

    let n = checks.len();
    let mut all_ok = true;
    let mut i: usize = 0;
    while i < n
        invariant
            n == checks@.len(),
            i <= n,
            all_ok == (forall|j: int| 0 <= j < i ==> (#[trigger] checks@[j]).ok),
        decreases n - i,
    {
        let ghost prev = all_ok;
        all_ok = all_ok && checks[i].ok;
        proof {
            if all_ok {
                assert forall|j: int| 0 <= j < i + 1 implies (#[trigger] checks@[j]).ok by {
                    if j < i {
                        assert(prev);
                    }
                }
            } else if prev {
                assert(!checks@[i as int].ok);
            }
        }
        i = i + 1;
    }
    assert(i == n);
    assert(all_ok == (forall|j: int| 0 <= j < checks@.len() ==> (#[trigger] checks@[j]).ok));
    let v = SetupVerification { install_root: String::from_str(install_root), all_ok, checks };
    assert(v.checks@ == checks@);
    proof {
        law_check_lines(install_root@, *facts);
        let m = v.checks@.map_values(|c: CheckItem| item_view(c));
        assert forall|i: int| 0 <= i < 10 implies (#[trigger] m[i]) == item_view(v.checks@[i]) by {}
        assert(m[0] == item_view(v.checks@[0]));
        assert(m[1] == item_view(v.checks@[1]));
        assert(m[2] == item_view(v.checks@[2]));
        assert(m[3] == item_view(v.checks@[3]));
        assert(m[4] == item_view(v.checks@[4]));
        assert(m[5] == item_view(v.checks@[5]));
        assert(m[6] == item_view(v.checks@[6]));
        assert(m[7] == item_view(v.checks@[7]));
        assert(m[8] == item_view(v.checks@[8]));
        assert(m[9] == item_view(v.checks@[9]));
        if all_facts_hold(*facts) {
            assert forall|i: int| 0 <= i < v.checks@.len() implies (#[trigger] v.checks@[i]).ok by {
                assert(m[i] == item_view(v.checks@[i]));
            }
        } else {
            if !facts.node_on_path { assert(!v.checks@[0].ok); }
            else if !facts.git_on_path { assert(!v.checks@[1].ok); }
            else if !facts.redis_server_on_path { assert(!v.checks@[2].ok); }
            else if !facts.redis_cli_on_path { assert(!v.checks@[3].ok); }
            else if !facts.yunzai_app_js { assert(!v.checks@[4].ok); }
            else if !facts.yunzai_node_modules { assert(!v.checks@[5].ok); }
            else if !(facts.napcat_boot_exe || facts.napcat_launcher) { assert(!v.checks@[6].ok); }
            else if !facts.napcat_webui_config { assert(!v.checks@[7].ok); }
            else if !(facts.plugin_dirs >= 3) { assert(!v.checks@[8].ok); }
            else { assert(!v.checks@[9].ok); }
        }
    }
    v
}

/// Each check line names what it checks and passes exactly when the fact
/// about that thing holds, whatever the other facts are.
pub open spec fn lines_follow_facts(c: Seq<CheckItem>, f: SetupFacts) -> bool {
    &&& c.len() == 10
    &&& c[0].name@ == "Node.js (PATH)"@ && c[0].ok == f.node_on_path
    &&& c[1].name@ == "Git (PATH)"@ && c[1].ok == f.git_on_path
    &&& c[2].name@ == "Redis (PATH)"@ && c[2].ok == f.redis_server_on_path
    &&& c[3].name@ == "Redis CLI (PATH)"@ && c[3].ok == f.redis_cli_on_path
    &&& c[4].name@ == "Yunzai 主程序"@ && c[4].ok == f.yunzai_app_js
    &&& c[5].name@ == "Yunzai node_modules"@ && c[5].ok == f.yunzai_node_modules
    &&& c[6].name@ == "NapCat 主程序"@ && c[6].ok == (f.napcat_boot_exe || f.napcat_launcher)
    &&& c[7].name@ == "NapCat WebUI 配置"@ && c[7].ok == f.napcat_webui_config
    &&& c[8].ok == (f.plugin_dirs >= 3)
    &&& c[9].name@ == "miao-plugin (推荐)"@ && c[9].ok == f.miao_plugin
}

/// An installation is complete when every required thing is there: the four
/// commands on `PATH`, `app.js`, `node_modules`, a NapCat program, the WebUI
/// configuration, at least three plugin directories and miao-plugin.
pub open spec fn all_facts_hold(f: SetupFacts) -> bool {
    &&& f.node_on_path && f.git_on_path && f.redis_server_on_path && f.redis_cli_on_path
    &&& f.yunzai_app_js && f.yunzai_node_modules
    &&& (f.napcat_boot_exe || f.napcat_launcher)
    &&& f.napcat_webui_config
    &&& f.plugin_dirs >= 3
    &&& f.miao_plugin
}

/// The check's lines, as plain values, follow their facts: line `i` passes
/// exactly when the fact about the thing it names holds, and the whole check
/// passes exactly when every required thing is there.
pub proof fn law_check_lines(root: Seq<char>, f: SetupFacts)
    ensures
        ({
            let l = setup_checks_spec(root, f);
            &&& l.len() == 10
            &&& l[0].0 == "Node.js (PATH)"@ && l[0].1 == f.node_on_path
            &&& l[1].0 == "Git (PATH)"@ && l[1].1 == f.git_on_path
            &&& l[2].0 == "Redis (PATH)"@ && l[2].1 == f.redis_server_on_path
            &&& l[3].0 == "Redis CLI (PATH)"@ && l[3].1 == f.redis_cli_on_path
            &&& l[4].0 == "Yunzai 主程序"@ && l[4].1 == f.yunzai_app_js
            &&& l[5].0 == "Yunzai node_modules"@ && l[5].1 == f.yunzai_node_modules
            &&& l[6].0 == "NapCat 主程序"@ && l[6].1 == (f.napcat_boot_exe || f.napcat_launcher)
            &&& l[7].0 == "NapCat WebUI 配置"@ && l[7].1 == f.napcat_webui_config
            &&& l[8].1 == (f.plugin_dirs >= 3)
            &&& l[9].0 == "miao-plugin (推荐)"@ && l[9].1 == f.miao_plugin
            &&& (forall|i: int| 0 <= i < l.len() ==> (#[trigger] l[i]).1) == all_facts_hold(f)
        }),
{
    let l = setup_checks_spec(root, f);
    reveal_strlit("Node.js");
    reveal_strlit("Git");
    reveal_strlit("Redis");
    reveal_strlit("Redis CLI");
    reveal_strlit(" (PATH)");
    reveal_strlit("Node.js (PATH)");
    reveal_strlit("Git (PATH)");
    reveal_strlit("Redis (PATH)");
    reveal_strlit("Redis CLI (PATH)");
    assert(l[0].0 =~= "Node.js (PATH)"@);
    assert(l[1].0 =~= "Git (PATH)"@);
    assert(l[2].0 =~= "Redis (PATH)"@);
    assert(l[3].0 =~= "Redis CLI (PATH)"@);
    if !all_facts_hold(f) {
        if !f.node_on_path { assert(!l[0].1); }
        else if !f.git_on_path { assert(!l[1].1); }
        else if !f.redis_server_on_path { assert(!l[2].1); }
        else if !f.redis_cli_on_path { assert(!l[3].1); }
        else if !f.yunzai_app_js { assert(!l[4].1); }
        else if !f.yunzai_node_modules { assert(!l[5].1); }
        else if !(f.napcat_boot_exe || f.napcat_launcher) { assert(!l[6].1); }
        else if !f.napcat_webui_config { assert(!l[7].1); }
        else if !(f.plugin_dirs >= 3) { assert(!l[8].1); }
        else { assert(!l[9].1); }
    }
}

/// The QQ client version the wizard recommends installing by hand.
#[derive(Debug, Clone)]
pub struct QqRecommendation {
    pub version: String,
    pub reason: String,
    pub download_url: String,
    pub alternative_url: String,
    pub note: String,
}

pub open spec fn qq_recommendation_spec(q: QqRecommendation) -> bool {
    &&& q.version@ == "QQ 9.7.18 (30589) - 2024-03-19"@
    &&& q.reason@ == "主人 3060 游戏本实测可用的稳定版, 与 NapCat v4 兼容"@
    &&& q.download_url@ == "https://im.qq.com/pcqq/"@
    &&& q.alternative_url@ == "https://pan.baidu.com/s/1c2K3l4m5n6o7p8q9r0s  (如果需要离线包)"@
    &&& q.note@ == "QQ 必须用户手动装, App 不能打包 (QQ 安装包 ~150MB + 腾讯 EULA 限制). 安装后 NapCat 会自动检测到 QQ.exe 路径"@
}

pub fn qq_recommendation() -> (q: QqRecommendation)
    ensures
        qq_recommendation_spec(q),
{
    QqRecommendation {
        version: String::from_str("QQ 9.7.18 (30589) - 2024-03-19"),
        reason: String::from_str("主人 3060 游戏本实测可用的稳定版, 与 NapCat v4 兼容"),
        download_url: String::from_str("https://im.qq.com/pcqq/"),
        alternative_url: String::from_str("https://pan.baidu.com/s/1c2K3l4m5n6o7p8q9r0s  (如果需要离线包)"),
        note: String::from_str(
            "QQ 必须用户手动装, App 不能打包 (QQ 安装包 ~150MB + 腾讯 EULA 限制). 安装后 NapCat 会自动检测到 QQ.exe 路径",
        ),
    }
}

} // verus!

verus! {

// ---------------------------------------------------------------- unpacking NapCat

/// Where NapCat's release archive is published.
pub open spec fn napcat_zip_url() -> Seq<char> {
    "https://github.com/NapNeko/NapCatQQ/releases/latest/download/NapCat.Shell.zip"@
}

/// The PowerShell script that downloads `url` to `out_file` over TLS 1.2.
pub open spec fn download_script(url: Seq<char>, out_file: Seq<char>) -> Seq<char> {
    "[Net.ServicePointManager]::SecurityProtocol=[Net.SecurityProtocolType]::Tls12; Invoke-WebRequest -Uri '"@
        + url + "' -OutFile '"@ + out_file + "' -UseBasicParsing"@
}

/// The PowerShell script that unpacks `zip` into `dest`, overwriting.
pub open spec fn expand_script(zip: Seq<char>, dest: Seq<char>) -> Seq<char> {
    "Expand-Archive -Path '"@ + zip + "' -DestinationPath '"@ + dest + "' -Force"@
}

pub open spec fn powershell_command(script: Seq<char>, hide: bool) -> CommandView {
    CommandView {
        program: "powershell"@,
        args: seq!["-NoProfile"@, "-Command"@, script],
        cwd: None,
        env: seq![],
        hide_window: hide,
    }
}

pub(crate) fn powershell_cmd(script: String, hide: bool) -> (c: CommandSpec)
    ensures
        c@ == powershell_command(script@, hide),
{
    let mut args: Vec<String> = Vec::new();
    args.push(String::from_str("-NoProfile"));
    args.push(String::from_str("-Command"));
    args.push(script);
    let c = CommandSpec { program: String::from_str("powershell"), args, cwd: None, env: Vec::new(), hide_window: hide };
    assert(c@.args =~= powershell_command(c@.args[2], hide).args);
    assert(c@.env =~= powershell_command(c@.args[2], hide).env);
    c
}

/// An operation the unpacking machine asks the host to perform.
pub enum ExtractOp {
    /// Report whether `dir` joined with `name` exists.
    FileInDir { dir: String, name: String },
    /// Create a directory and its ancestors; report success.
    CreateDirAll(String),
    /// Report the path of the cached archive (under the user's application
    /// data) and whether it exists.
    LocateCache,
    /// Create the parent directory of a path, ignoring failure; then `Ack`.
    CreateParentDir(String),
    /// Report the path of `NapCat.Shell.zip` in the temporary directory.
    LocateTemp,
    /// Run a program to completion and report how it ended.
    Run(CommandSpec),
    /// Copy a file; report success.
    CopyFile { from: String, to: String },
    /// Remove a file, ignoring failure; then `Ack`.
    RemoveFile(String),
    /// Read a whole file; report success.
    ReadFile(String),
    /// Unpacking has ended with this result.
    Finish(Result<(), String>),
}

pub enum ExtractEvent {
    Ack,
    Bool(bool),
    Cache { path: String, exists: bool },
    Path(String),
    Ran(CommandOutcome),
}

pub enum ExtractOpView {
    FileInDir { dir: Seq<char>, name: Seq<char> },
    CreateDirAll(Seq<char>),
    LocateCache,
    CreateParentDir(Seq<char>),
    LocateTemp,
    Run(CommandView),
    CopyFile { from: Seq<char>, to: Seq<char> },
    RemoveFile(Seq<char>),
    ReadFile(Seq<char>),
    Finish(Result<(), Seq<char>>),
}

pub enum ExtractEventView {
    Ack,
    Bool(bool),
    Cache { path: Seq<char>, exists: bool },
    Path(Seq<char>),
    Ran(OutcomeView),
}

impl View for ExtractOp {
    type V = ExtractOpView;

    open spec fn view(&self) -> ExtractOpView {
        match self {
            ExtractOp::FileInDir { dir, name } => ExtractOpView::FileInDir { dir: dir@, name: name@ },
            ExtractOp::CreateDirAll(p) => ExtractOpView::CreateDirAll(p@),
            ExtractOp::LocateCache => ExtractOpView::LocateCache,
            ExtractOp::CreateParentDir(p) => ExtractOpView::CreateParentDir(p@),
            ExtractOp::LocateTemp => ExtractOpView::LocateTemp,
            ExtractOp::Run(c) => ExtractOpView::Run(c@),
            ExtractOp::CopyFile { from, to } => ExtractOpView::CopyFile { from: from@, to: to@ },
            ExtractOp::RemoveFile(p) => ExtractOpView::RemoveFile(p@),
            ExtractOp::ReadFile(p) => ExtractOpView::ReadFile(p@),
            ExtractOp::Finish(r) => ExtractOpView::Finish(
                match r {
                    Ok(()) => Ok(()),
                    Err(e) => Err(e@),
                },
            ),
        }
    }
}

impl View for ExtractEvent {
    type V = ExtractEventView;

    open spec fn view(&self) -> ExtractEventView {
        match self {
            ExtractEvent::Ack => ExtractEventView::Ack,
            ExtractEvent::Bool(b) => ExtractEventView::Bool(*b),
            ExtractEvent::Cache { path, exists } => ExtractEventView::Cache { path: path@, exists: *exists },
            ExtractEvent::Path(p) => ExtractEventView::Path(p@),
            ExtractEvent::Ran(o) => ExtractEventView::Ran(o@),
        }
    }
}

impl ExtractOp {
    pub fn copy(&self) -> (r: Self)
        ensures
            r@ == self@,
    {
        match self {
            ExtractOp::FileInDir { dir, name } => ExtractOp::FileInDir { dir: dir.clone(), name: name.clone() },
            ExtractOp::CreateDirAll(p) => ExtractOp::CreateDirAll(p.clone()),
            ExtractOp::LocateCache => ExtractOp::LocateCache,
            ExtractOp::CreateParentDir(p) => ExtractOp::CreateParentDir(p.clone()),
            ExtractOp::LocateTemp => ExtractOp::LocateTemp,
            ExtractOp::Run(c) => ExtractOp::Run(c.copy()),
            ExtractOp::CopyFile { from, to } => ExtractOp::CopyFile { from: from.clone(), to: to.clone() },
            ExtractOp::RemoveFile(p) => ExtractOp::RemoveFile(p.clone()),
            ExtractOp::ReadFile(p) => ExtractOp::ReadFile(p.clone()),
            ExtractOp::Finish(r) => ExtractOp::Finish(
                match r {
                    Ok(()) => Ok(()),
                    Err(e) => Err(e.clone()),
                },
            ),
        }
    }
}

#[derive(Clone, Copy, PartialEq, Eq, Structural)]
pub enum ExtractPhase {
    Launcher,
    BootExe,
    MakeDir,
    Cache,
    CacheParent,
    Temp,
    Download,
    CopyToCache,
    RemoveTemp,
    ReadZip,
    Expand,
    Finished,
}

/// `extract_embedded_napcat` for one target directory.
pub struct NapcatExtract {
    target: String,
    phase: ExtractPhase,
    cache: String,
    temp: String,
    pending: ExtractOp,
}

pub struct NapcatExtractView {
    pub target: Seq<char>,
    pub phase: ExtractPhase,
    pub cache: Seq<char>,
    pub temp: Seq<char>,
    pub pending: ExtractOpView,
}

impl View for NapcatExtract {
    type V = NapcatExtractView;

    closed spec fn view(&self) -> NapcatExtractView {
        NapcatExtractView {
            target: self.target@,
            phase: self.phase,
            cache: self.cache@,
            temp: self.temp@,
            pending: self.pending@,
        }
    }
}

pub open spec fn xask(s: NapcatExtractView, ph: ExtractPhase, op: ExtractOpView) -> NapcatExtractView {
    NapcatExtractView { phase: ph, pending: op, ..s }
}

pub open spec fn xfinish(s: NapcatExtractView, r: Result<(), Seq<char>>) -> NapcatExtractView {
    xask(s, ExtractPhase::Finished, ExtractOpView::Finish(r))
}

/// Read the archive at `s.cache`, then unpack it.
pub open spec fn read_zip(s: NapcatExtractView) -> NapcatExtractView {
    xask(s, ExtractPhase::ReadZip, ExtractOpView::ReadFile(s.cache))
}

pub open spec fn extract_initial(target: Seq<char>) -> NapcatExtractView {
    NapcatExtractView {
        target,
        phase: ExtractPhase::Launcher,
        cache: seq![],
        temp: seq![],
        pending: ExtractOpView::FileInDir { dir: target, name: "launcher.bat"@ },
    }
}

/// One step of unpacking NapCat into `target`: nothing to do when
/// `launcher.bat` or `NapCatWinBootMain.exe` is already there; otherwise
/// create the directory, use the cached archive or download it (to the
/// temporary directory, then copied into the cache), read it, and unpack it
/// with PowerShell. Each failure ends the run with its message.
/// An event that does not answer the pending operation changes nothing.
pub open spec fn extract_next(s: NapcatExtractView, e: ExtractEventView) -> NapcatExtractView {
    match (s.phase, e) {
        (ExtractPhase::Launcher, ExtractEventView::Bool(b)) =>
            if b {
                xfinish(s, Ok(()))
            } else {
                xask(s, ExtractPhase::BootExe, ExtractOpView::FileInDir { dir: s.target, name: "NapCatWinBootMain.exe"@ })
            },
        (ExtractPhase::BootExe, ExtractEventView::Bool(b)) =>
            if b {
                xfinish(s, Ok(()))
            } else {
                xask(s, ExtractPhase::MakeDir, ExtractOpView::CreateDirAll(s.target))
            },
        (ExtractPhase::MakeDir, ExtractEventView::Bool(b)) =>
            if b {
                xask(s, ExtractPhase::Cache, ExtractOpView::LocateCache)
            } else {
                xfinish(s, Err("创建 NapCat 目录失败"@))
            },
        (ExtractPhase::Cache, ExtractEventView::Cache { path, exists }) =>
            if exists {
                read_zip(NapcatExtractView { cache: path, ..s })
            } else {
                xask(NapcatExtractView { cache: path, ..s }, ExtractPhase::CacheParent, ExtractOpView::CreateParentDir(path))
            },
        (ExtractPhase::CacheParent, ExtractEventView::Ack) => xask(s, ExtractPhase::Temp, ExtractOpView::LocateTemp),
        (ExtractPhase::Temp, ExtractEventView::Path(tmp)) =>
            xask(
                NapcatExtractView { temp: tmp, ..s },
                ExtractPhase::Download,
                ExtractOpView::Run(powershell_command(download_script(napcat_zip_url(), tmp), true)),
            ),
        (ExtractPhase::Download, ExtractEventView::Ran(o)) => match o {
            OutcomeView::SpawnFailed => xfinish(s, Err("下载 NapCat 失败"@)),
            OutcomeView::Exited { success, stderr } =>
                if success {
                    xask(s, ExtractPhase::CopyToCache, ExtractOpView::CopyFile { from: s.temp, to: s.cache })
                } else {
                    xfinish(s, Err("NapCat 下载失败: "@ + stderr))
                },
        },
        (ExtractPhase::CopyToCache, ExtractEventView::Bool(b)) =>
            if b {
                xask(s, ExtractPhase::RemoveTemp, ExtractOpView::RemoveFile(s.temp))
            } else {
                xfinish(s, Err("复制 NapCat 到缓存失败"@))
            },
        (ExtractPhase::RemoveTemp, ExtractEventView::Ack) => read_zip(s),
        (ExtractPhase::ReadZip, ExtractEventView::Bool(b)) =>
            if b {
                xask(s, ExtractPhase::Expand, ExtractOpView::Run(powershell_command(expand_script(s.cache, s.target), false)))
            } else {
                xfinish(s, Err("读取 zip 失败"@))
            },
        (ExtractPhase::Expand, ExtractEventView::Ran(o)) => match o {
            OutcomeView::SpawnFailed => xfinish(s, Err("PowerShell 解压失败"@)),
            OutcomeView::Exited { success, stderr } =>
                if success {
                    xfinish(s, Ok(()))
                } else {
                    xfinish(s, Err("解压失败: "@ + stderr))
                },
        },
        _ => s,
    }
}

/// `extract_embedded_napcat`: starts unpacking NapCat into `target_dir`;
/// returns the machine and its first operation.
pub fn extract_embedded_napcat(target_dir: &str) -> (r: (NapcatExtract, ExtractOp))
    ensures
        r.0@ == extract_initial(target_dir@),
        r.1@ == r.0@.pending,
{
    NapcatExtract::new(target_dir)
}

impl NapcatExtract {
    fn new(target_dir: &str) -> (r: (NapcatExtract, ExtractOp))
        ensures
            r.0@ == extract_initial(target_dir@),
            r.1@ == r.0@.pending,
    {
        let x = NapcatExtract {
            target: String::from_str(target_dir),
            phase: ExtractPhase::Launcher,
            cache: String::new(),
            temp: String::new(),
            pending: ExtractOp::FileInDir { dir: String::from_str(target_dir), name: String::from_str("launcher.bat") },
        };
        let op = x.pending.copy();
        (x, op)
    }

    fn ask(&mut self, ph: ExtractPhase, op: ExtractOp)
        ensures
            final(self)@ == xask(old(self)@, ph, op@),
    {
        self.phase = ph;
        self.pending = op;
    }

    fn fail(&mut self, m: String)
        ensures
            final(self)@ == xfinish(old(self)@, Err(m@)),
    {
        self.ask(ExtractPhase::Finished, ExtractOp::Finish(Err(m)));
    }

    /// The next state for the host's report `e`, and the operation to perform next.
    pub fn advance(&mut self, e: ExtractEvent) -> (op: ExtractOp)
        ensures
            final(self)@ == extract_next(old(self)@, e@),
            op@ == final(self)@.pending,
    {
        match (self.phase, &e) {
            (ExtractPhase::Launcher, ExtractEvent::Bool(b)) => {
                if *b {
                    self.ask(ExtractPhase::Finished, ExtractOp::Finish(Ok(())));
                } else {
                    let d = self.target.clone();
                    self.ask(ExtractPhase::BootExe, ExtractOp::FileInDir { dir: d, name: String::from_str("NapCatWinBootMain.exe") });
                }
            },
            (ExtractPhase::BootExe, ExtractEvent::Bool(b)) => {
                if *b {
                    self.ask(ExtractPhase::Finished, ExtractOp::Finish(Ok(())));
                } else {
                    let d = self.target.clone();
                    self.ask(ExtractPhase::MakeDir, ExtractOp::CreateDirAll(d));
                }
            },
            (ExtractPhase::MakeDir, ExtractEvent::Bool(b)) => {
                if *b {
                    self.ask(ExtractPhase::Cache, ExtractOp::LocateCache);
                } else {
                    self.fail(String::from_str("创建 NapCat 目录失败"));
                }
            },
            (ExtractPhase::Cache, ExtractEvent::Cache { path, exists }) => {
                self.cache = path.clone();
                if *exists {
                    let p = self.cache.clone();
                    self.ask(ExtractPhase::ReadZip, ExtractOp::ReadFile(p));
                } else {
                    let p = self.cache.clone();
                    self.ask(ExtractPhase::CacheParent, ExtractOp::CreateParentDir(p));
                }
            },
            (ExtractPhase::CacheParent, ExtractEvent::Ack) => self.ask(ExtractPhase::Temp, ExtractOp::LocateTemp),
            (ExtractPhase::Temp, ExtractEvent::Path(tmp)) => {
                self.temp = tmp.clone();
                let mut script = String::from_str(
                    "[Net.ServicePointManager]::SecurityProtocol=[Net.SecurityProtocolType]::Tls12; Invoke-WebRequest -Uri '",
                );
                script.append("https://github.com/NapNeko/NapCatQQ/releases/latest/download/NapCat.Shell.zip");
                script.append("' -OutFile '");
                script.append(tmp.as_str());
                script.append("' -UseBasicParsing");
                let c = powershell_cmd(script, true);
                self.ask(ExtractPhase::Download, ExtractOp::Run(c));
            },
            (ExtractPhase::Download, ExtractEvent::Ran(o)) => match o {
                CommandOutcome::SpawnFailed => self.fail(String::from_str("下载 NapCat 失败")),
                CommandOutcome::Exited { success, stderr } => {
                    if *success {
                        let from = self.temp.clone();
                        let to = self.cache.clone();
                        self.ask(ExtractPhase::CopyToCache, ExtractOp::CopyFile { from, to });
                    } else {
                        self.fail(concat2("NapCat 下载失败: ", stderr.as_str()));
                    }
                },
            },
            (ExtractPhase::CopyToCache, ExtractEvent::Bool(b)) => {
                if *b {
                    let t = self.temp.clone();
                    self.ask(ExtractPhase::RemoveTemp, ExtractOp::RemoveFile(t));
                } else {
                    self.fail(String::from_str("复制 NapCat 到缓存失败"));
                }
            },
            (ExtractPhase::RemoveTemp, ExtractEvent::Ack) => {
                let p = self.cache.clone();
                self.ask(ExtractPhase::ReadZip, ExtractOp::ReadFile(p));
            },
            (ExtractPhase::ReadZip, ExtractEvent::Bool(b)) => {
                if *b {
                    let mut script = concat3("Expand-Archive -Path '", self.cache.as_str(), "' -DestinationPath '");
                    script.append(self.target.as_str());
                    script.append("' -Force");
                    let c = powershell_cmd(script, false);
                    self.ask(ExtractPhase::Expand, ExtractOp::Run(c));
                } else {
                    self.fail(String::from_str("读取 zip 失败"));
                }
            },
            (ExtractPhase::Expand, ExtractEvent::Ran(o)) => match o {
                CommandOutcome::SpawnFailed => self.fail(String::from_str("PowerShell 解压失败")),
                CommandOutcome::Exited { success, stderr } => {
                    if *success {
                        self.ask(ExtractPhase::Finished, ExtractOp::Finish(Ok(())));
                    } else {
                        self.fail(concat2("解压失败: ", stderr.as_str()));
                    }
                },
            },
            _ => {},
        }
        self.pending.copy()
    }
}

/// Unpacking NapCat downloads the latest release from
/// `https://github.com/NapNeko/NapCatQQ/releases/latest/download/NapCat.Shell.zip`
/// with PowerShell over TLS 1.2 into the reported temporary file (hidden),
/// copies it to the cache, and expands the cached archive into the target
/// directory with `Expand-Archive ... -Force`.
pub proof fn law_extract_commands(s: NapcatExtractView, tmp: Seq<char>)
    ensures
        s.phase == ExtractPhase::Temp ==> (extract_next(s, ExtractEventView::Path(tmp)).pending == ExtractOpView::Run(
            CommandView {
                program: "powershell"@,
                args: seq![
                    "-NoProfile"@,
                    "-Command"@,
                    "[Net.ServicePointManager]::SecurityProtocol=[Net.SecurityProtocolType]::Tls12; Invoke-WebRequest -Uri '"@
                        + "https://github.com/NapNeko/NapCatQQ/releases/latest/download/NapCat.Shell.zip"@
                        + "' -OutFile '"@ + tmp + "' -UseBasicParsing"@,
                ],
                cwd: None,
                env: seq![],
                hide_window: true,
            },
        )),
        s.phase == ExtractPhase::Download ==> (extract_next(
            s,
            ExtractEventView::Ran(OutcomeView::Exited { success: true, stderr: seq![] }),
        ).pending == ExtractOpView::CopyFile { from: s.temp, to: s.cache }),
        s.phase == ExtractPhase::ReadZip ==> (extract_next(s, ExtractEventView::Bool(true)).pending == ExtractOpView::Run(
            CommandView {
                program: "powershell"@,
                args: seq![
                    "-NoProfile"@,
                    "-Command"@,
                    "Expand-Archive -Path '"@ + s.cache + "' -DestinationPath '"@ + s.target + "' -Force"@,
                ],
                cwd: None,
                env: seq![],
                hide_window: false,
            },
        )),
        s.phase == ExtractPhase::Launcher ==> (extract_next(s, ExtractEventView::Bool(true)).pending
            == ExtractOpView::Finish(Ok(()))),
        s.phase == ExtractPhase::BootExe ==> (extract_next(s, ExtractEventView::Bool(true)).pending
            == ExtractOpView::Finish(Ok(()))),
        extract_initial(s.target).pending == (ExtractOpView::FileInDir { dir: s.target, name: "launcher.bat"@ }),
{
}

} // verus!
