//! The first-run wizard as a state machine: seven base steps (dependencies,
//! Redis, Yunzai, NapCat, QQ, npm, NapCat's WebUI) and one step per selected
//! plugin. The host performs each operation the machine asks for and reports
//! the outcome; every decision, status and message is made here.
use vstd::prelude::*;
use crate::host::{CommandSpec, CommandView, CommandOutcome, OutcomeView, strings_view, copy_strings};
use crate::task::{
    SetupOp, SetupEvent, SetupOpView, SetupEventView, Task, TaskView, TaskPhase, task_next, clone_start,
    npm_start, result_view,
};
use crate::plugin_index::{
    PluginRow, PluginInfo, owner_plugin_rows, owner_installed_plugins, find_plugin, plugin_is, main_program_name,
    is_first_named, law_index_names_distinct, has_repository, PluginCategory,
};
use crate::bootstrap::{qq_recommendation, qq_recommendation_spec};
use crate::config::AppPaths;
use crate::text::{concat2, concat3, decimal, push_decimal, chars_of, string_from_chars, str_eq};

verus! {

/// The state of one wizard step.
#[derive(Debug, Clone, Copy, PartialEq, Eq, Structural)]
pub enum StepStatus {
    Pending,
    Running,
    Completed,
    Failed,
    Skipped,
}

/// One wizard step as the front end shows it.
pub struct SetupStep {
    pub id: String,
    pub name: String,
    pub status: StepStatus,
    /// How far the step is, in percent.
    pub progress_percent: u8,
    pub message: String,
}

/// The whole wizard as the front end shows it.
pub struct SetupProgress {
    pub current_step: usize,
    pub total_steps: usize,
    pub steps: Vec<SetupStep>,
    pub overall_status: StepStatus,
    pub error_message: Option<String>,
}

pub struct StepView {
    pub id: Seq<char>,
    pub name: Seq<char>,
    pub status: StepStatus,
    pub progress_percent: u8,
    pub message: Seq<char>,
}

pub struct ProgressView {
    pub current_step: usize,
    pub total_steps: usize,
    pub steps: Seq<StepView>,
    pub overall_status: StepStatus,
    pub error_message: Option<Seq<char>>,
}

impl View for SetupStep {
    type V = StepView;

    open spec fn view(&self) -> StepView {
        StepView {
            id: self.id@,
            name: self.name@,
            status: self.status,
            progress_percent: self.progress_percent,
            message: self.message@,
        }
    }
}

impl View for SetupProgress {
    type V = ProgressView;

    open spec fn view(&self) -> ProgressView {
        ProgressView {
            current_step: self.current_step,
            total_steps: self.total_steps,
            steps: self.steps@.map_values(|s: SetupStep| s@),
            overall_status: self.overall_status,
            error_message: match self.error_message {
                Some(m) => Some(m@),
                None => None,
            },
        }
    }
}

// ---------------------------------------------------------------- texts

pub open spec fn node_missing_text() -> Seq<char> {
    "Node.js 未安装。请先下载安装 Node.js 20 LTS: https://nodejs.org"@
}

pub open spec fn git_missing_text() -> Seq<char> {
    "Git 未安装。请先下载安装 Git: https://git-scm.com"@
}

pub open spec fn redis_hint_text() -> Seq<char> {
    "请打开 https://github.com/tporadowski/redis/releases 下载 Redis for Windows ZIP,解压到任意目录"@
}

pub open spec fn yunzai_repo_url() -> Seq<char> {
    "https://github.com/TimeRainStarSky/Yunzai.git"@
}

/// The QQ step's message, built from the recommendation.
pub open spec fn qq_text(url: Seq<char>, version: Seq<char>, reason: Seq<char>) -> Seq<char> {
    "⚠ 请手动安装 QQ: "@ + url + " (推荐: "@ + version + " - "@ + reason + ")"@
}

/// `node --version` / `git --version`, run only to see whether the program starts.
pub open spec fn probe_command(program: Seq<char>) -> CommandView {
    CommandView { program, args: seq!["--version"@], cwd: None, env: seq![], hide_window: false }
}

/// The characters `sanitize_dir_name` replaces with `_`.
pub open spec fn unsafe_dir_char(c: char) -> bool {
    c == '/' || c == '\\' || c == ':' || c == '*' || c == '?' || c == '"' || c == '<' || c == '>'
        || c == '|' || c == ' '
}

pub open spec fn sanitize_spec(name: Seq<char>) -> Seq<char> {
    name.map_values(|c: char| if unsafe_dir_char(c) { '_' } else { c })
}

/// A plugin's directory name: every unsafe character becomes `_`.
pub fn sanitize_dir_name(name: &str) -> (r: String)
    ensures
        r@ == sanitize_spec(name@),
{
    let v = chars_of(name);
    let mut out: Vec<char> = Vec::new();
    let n = v.len();
    let mut i: usize = 0;
    while i < n
        invariant
            n == v@.len(),
            v@ == name@,
            i <= n,
            out@ == sanitize_spec(v@.take(i as int)),
        decreases n - i,
    {
        let c = v[i];
        let d = if c == '/' || c == '\\' || c == ':' || c == '*' || c == '?' || c == '"' || c == '<'
            || c == '>' || c == '|' || c == ' ' {
            '_'
        } else {
            c
        };
        out.push(d);
        proof {
            assert(v@.take(i + 1) =~= v@.take(i as int).push(c));
            assert(sanitize_spec(v@.take(i + 1)) =~= sanitize_spec(v@.take(i as int)).push(d));
        }
        i = i + 1;
    }
    assert(v@.take(n as int) =~= v@);
    string_from_chars(out)
}

/// A sanitized name keeps its length, holds no unsafe character, and is its
/// own sanitization.
pub proof fn law_sanitize(name: Seq<char>)
    ensures
        sanitize_spec(name).len() == name.len(),
        forall|i: int| 0 <= i < name.len() ==> !unsafe_dir_char(#[trigger] sanitize_spec(name)[i]),
        sanitize_spec(sanitize_spec(name)) == sanitize_spec(name),
{
    assert(sanitize_spec(sanitize_spec(name)) =~= sanitize_spec(name));
}

/// `CREATE_NO_WINDOW`, the Windows process-creation flag that hides the console window.
pub fn create_no_window() -> (r: u32)
    ensures
        r == 0x0800_0000u32,
{
    0x0800_0000
}

/// Where a plugin is installed under an installation root.
pub open spec fn plugin_dir_spec(root: Seq<char>, plugin_name: Seq<char>) -> Seq<char> {
    root + "/Yunzai-Bot/plugins/"@ + sanitize_spec(plugin_name)
}

pub fn plugin_dir(root: &str, plugin_name: &str) -> (r: String)
    ensures
        r@ == plugin_dir_spec(root@, plugin_name@),
{
    let s = sanitize_dir_name(plugin_name);
    concat3(root, "/Yunzai-Bot/plugins/", s.as_str())
}

/// The first row named `name` at or after `i`, or -1.
pub open spec fn row_index_from(rows: Seq<PluginRow>, name: Seq<char>, i: int) -> int
    decreases rows.len() - i,
{
    if i < 0 || i >= rows.len() {
        -1
    } else if rows[i].name == name {
        i
    } else {
        row_index_from(rows, name, i + 1)
    }
}

pub open spec fn row_index(name: Seq<char>) -> int {
    row_index_from(owner_plugin_rows(), name, 0)
}

proof fn lemma_row_index_found(rows: Seq<PluginRow>, name: Seq<char>, i: int, j: int)
    requires
        0 <= j <= i < rows.len(),
        rows[i].name == name,
        forall|k: int| j <= k < i ==> rows[k].name != name,
    ensures
        row_index_from(rows, name, j) == i,
    decreases i - j,
{
    if j < i {
        lemma_row_index_found(rows, name, i, j + 1);
    }
}

proof fn lemma_row_index_missing(rows: Seq<PluginRow>, name: Seq<char>, j: int)
    requires
        0 <= j <= rows.len(),
        forall|k: int| j <= k < rows.len() ==> rows[k].name != name,
    ensures
        row_index_from(rows, name, j) == -1,
    decreases rows.len() - j,
{
    if j < rows.len() {
        lemma_row_index_missing(rows, name, j + 1);
    }
}

/// Looking up the name of any index entry finds that entry.
pub proof fn law_lookup_finds_each_entry(i: int)
    requires
        0 <= i < owner_plugin_rows().len(),
    ensures
        row_index(owner_plugin_rows()[i].name) == i,
{
    let rows = owner_plugin_rows();
    law_index_names_distinct();
    assert forall|k: int| 0 <= k < i implies rows[k].name != rows[i].name by {}
    lemma_row_index_found(rows, rows[i].name, i, 0);
}

/// Looks a plugin up in the index by exact name.
pub fn lookup_plugin(name: &str) -> (r: Option<PluginInfo>)
    ensures
        row_index(name@) < 0 ==> r is None,
        row_index(name@) >= 0 ==> r is Some && plugin_is(r->0, owner_plugin_rows()[row_index(name@)]),
{
    let mut index = owner_installed_plugins();
    match find_plugin(&index, name) {
        Some(i) => {
            proof {
                let rows = owner_plugin_rows();
                assert forall|k: int| 0 <= k < i implies rows[k].name != name@ by {
                    assert(plugin_is(index@[k], rows[k]));
                }
                assert(plugin_is(index@[i as int], rows[i as int]));
                lemma_row_index_found(rows, name@, i as int, 0);
            }
            Some(index.swap_remove(i))
        },
        None => {
            proof {
                let rows = owner_plugin_rows();
                assert forall|k: int| 0 <= k < rows.len() implies rows[k].name != name@ by {
                    assert(plugin_is(index@[k], rows[k]));
                }
                lemma_row_index_missing(rows, name@, 0);
            }
            None
        },
    }
}

// ---------------------------------------------------------------- the machine

/// Which answer the wizard is waiting for.
#[derive(Clone, Copy, PartialEq, Eq, Structural)]
pub enum SetupPhase {
    /// The first progress report was sent.
    Init,
    DepsRunning,
    NodeProbe,
    GitProbe,
    DepsDone,
    RedisRunning,
    RedisDone,
    YunzaiRunning,
    YunzaiClone,
    YunzaiCloned,
    NapcatRunning,
    NapcatExtract,
    NapcatDone,
    QqRunning,
    QqDone,
    NpmRunning,
    YunzaiNpm,
    NpmDone,
    WebuiRunning,
    Webui,
    WebuiDone,
    PluginAdded,
    PluginClone { main: bool },
    PluginNpm,
    PluginDone,
    AllDone,
    Finished,
}

/// A wizard run.
pub struct SetupRun {
    install_dir: String,
    plugins: Vec<String>,
    progress: SetupProgress,
    phase: SetupPhase,
    node_ok: bool,
    cursor: usize,
    task: Task,
    task_step: usize,
    pending: SetupOp,
}

pub struct SetupRunView {
    pub install_dir: Seq<char>,
    pub plugins: Seq<Seq<char>>,
    pub progress: ProgressView,
    pub phase: SetupPhase,
    pub node_ok: bool,
    pub cursor: usize,
    pub task: TaskView,
    pub task_step: usize,
    pub pending: SetupOpView,
}

impl View for SetupRun {
    type V = SetupRunView;

    closed spec fn view(&self) -> SetupRunView {
        SetupRunView {
            install_dir: self.install_dir@,
            plugins: strings_view(self.plugins@),
            progress: self.progress@,
            phase: self.phase,
            node_ok: self.node_ok,
            cursor: self.cursor,
            task: self.task@,
            task_step: self.task_step,
            pending: self.pending@,
        }
    }
}

pub open spec fn step_view(id: Seq<char>, name: Seq<char>) -> StepView {
    StepView { id, name, status: StepStatus::Pending, progress_percent: 0, message: seq![] }
}

/// The seven base steps, all pending.
pub open spec fn base_steps() -> Seq<StepView> {
    seq![
        step_view("deps"@, "检测系统依赖 (Node.js / Git / Redis)"@),
        step_view("redis_install"@, "安装 Redis"@),
        step_view("yunzai_clone"@, "下载 Yunzai 主程序 (TRSS-Yunzai)"@),
        step_view("napcat_clone"@, "下载 NapCat 协议端"@),
        step_view("qq_install"@, "下载 QQ 客户端"@),
        step_view("yunzai_npm"@, "安装 Yunzai npm 依赖"@),
        step_view("napcat_setup"@, "配置 NapCat WebUI token"@),
    ]
}

/// The state the wizard starts in: the base steps pending, seven steps plus one
/// per plugin announced, the first report about to be sent.
pub open spec fn setup_initial(install_dir: Seq<char>, plugins: Seq<Seq<char>>) -> SetupRunView {
    SetupRunView {
        install_dir,
        plugins,
        progress: ProgressView {
            current_step: 0,
            total_steps: (7 + plugins.len()) as usize,
            steps: base_steps(),
            overall_status: StepStatus::Running,
            error_message: None,
        },
        phase: SetupPhase::Init,
        node_ok: false,
        cursor: 0,
        task: TaskView {
            url: seq![],
            target: seq![],
            phase: TaskPhase::Done,
            message: seq![],
            result: Ok(()),
            pending: SetupOpView::Emit,
        },
        task_step: 0,
        pending: SetupOpView::Emit,
    }
}

pub open spec fn set_status(p: ProgressView, i: int, st: StepStatus) -> ProgressView {
    ProgressView { steps: p.steps.update(i, StepView { status: st, ..p.steps[i] }), ..p }
}

pub open spec fn set_message(p: ProgressView, i: int, m: Seq<char>) -> ProgressView {
    ProgressView { steps: p.steps.update(i, StepView { message: m, ..p.steps[i] }), ..p }
}

pub open spec fn with_progress(s: SetupRunView, p: ProgressView) -> SetupRunView {
    SetupRunView { progress: p, ..s }
}

pub open spec fn ask(s: SetupRunView, ph: SetupPhase, op: SetupOpView) -> SetupRunView {
    SetupRunView { phase: ph, pending: op, ..s }
}

pub open spec fn finish_with(s: SetupRunView, r: Result<(), Seq<char>>) -> SetupRunView {
    ask(s, SetupPhase::Finished, SetupOpView::Finish(r))
}

/// Mark step `i` running and report.
pub open spec fn running(s: SetupRunView, i: int, ph: SetupPhase) -> SetupRunView {
    ask(with_progress(s, set_status(s.progress, i, StepStatus::Running)), ph, SetupOpView::Emit)
}

/// Mark step `i` with a final status and message, and report.
pub open spec fn settle(s: SetupRunView, i: int, st: StepStatus, m: Seq<char>, ph: SetupPhase) -> SetupRunView {
    ask(with_progress(s, set_status(set_message(s.progress, i, m), i, st)), ph, SetupOpView::Emit)
}

/// Mark step `i` completed (its message unchanged) and report.
pub open spec fn complete(s: SetupRunView, i: int, ph: SetupPhase) -> SetupRunView {
    ask(with_progress(s, set_status(s.progress, i, StepStatus::Completed)), ph, SetupOpView::Emit)
}

/// Start a clone or npm task for step `i`; the step shows the task's message.
pub open spec fn start_task(s: SetupRunView, t: TaskView, i: usize, ph: SetupPhase) -> SetupRunView {
    SetupRunView {
        task: t,
        task_step: i,
        progress: set_message(s.progress, i as int, t.message),
        phase: ph,
        pending: t.pending,
        ..s
    }
}

/// Feed an event to the running task; the step shows the task's message.
pub open spec fn task_stepped(s: SetupRunView, e: SetupEventView) -> SetupRunView {
    let t = task_next(s.task, e);
    SetupRunView {
        task: t,
        progress: set_message(s.progress, s.task_step as int, t.message),
        pending: if t.phase == TaskPhase::Done { s.pending } else { t.pending },
        ..s
    }
}

/// The step announced for the plugin at `cursor`.
pub open spec fn plugin_step(cursor: usize, name: Seq<char>) -> StepView {
    StepView {
        id: "plugin_"@ + decimal(cursor as nat),
        name: "下载插件: "@ + name,
        status: StepStatus::Running,
        progress_percent: 0,
        message: seq![],
    }
}

/// After the base steps and after each plugin: announce the next plugin, or
/// mark the whole run completed.
pub open spec fn next_plugin(s: SetupRunView) -> SetupRunView {
    if s.cursor < s.plugins.len() {
        ask(
            with_progress(
                s,
                ProgressView {
                    steps: s.progress.steps.push(plugin_step(s.cursor, s.plugins[s.cursor as int])),
                    ..s.progress
                },
            ),
            SetupPhase::PluginAdded,
            SetupOpView::Emit,
        )
    } else {
        ask(
            with_progress(s, ProgressView { overall_status: StepStatus::Completed, ..s.progress }),
            SetupPhase::AllDone,
            SetupOpView::Emit,
        )
    }
}

/// A freshly announced plugin: an unknown name, or a plugin whose
/// repository is not recorded, completes at once; any other is cloned into
/// its directory under `Yunzai-Bot/plugins`.
pub open spec fn plugin_added(s: SetupRunView) -> SetupRunView {
    let idx = (s.progress.steps.len() - 1) as usize;
    let k = row_index(s.plugins[s.cursor as int]);
    if k < 0 || !has_repository(owner_plugin_rows()[k]) {
        complete(s, idx as int, SetupPhase::PluginDone)
    } else {
        let r = owner_plugin_rows()[k];
        start_task(
            s,
            clone_start(r.repo_url, plugin_dir_spec(s.install_dir, r.name)),
            idx,
            SetupPhase::PluginClone { main: r.name == main_program_name() },
        )
    }
}

/// One step of the wizard: the state after the host reports `e` for the
/// pending operation, whose `pending` field is the next operation.
///
/// The order is the dependency check (both `node` and `git` must start),
/// the Redis hint, cloning Yunzai, unpacking NapCat (a failure is recorded and
/// the run goes on), the QQ hint (skipped), Yunzai's npm install, the WebUI
/// configuration, then each selected plugin (cloned, then npm-installed unless
/// it is the main program; its failures are swallowed). A failure of any other
/// step ends the run with its message and leaves the overall status running.
/// An event that does not answer the pending operation changes nothing.
pub open spec fn setup_next(s: SetupRunView, e: SetupEventView) -> SetupRunView {
    let dir = s.install_dir;
    match (s.phase, e) {
        (SetupPhase::Init, SetupEventView::Ack) => running(s, 0, SetupPhase::DepsRunning),
        (SetupPhase::DepsRunning, SetupEventView::Ack) =>
            ask(s, SetupPhase::NodeProbe, SetupOpView::Run(probe_command("node"@))),
        (SetupPhase::NodeProbe, SetupEventView::Ran(o)) =>
            SetupRunView {
                node_ok: o is Exited,
                ..ask(s, SetupPhase::GitProbe, SetupOpView::Run(probe_command("git"@)))
            },
        (SetupPhase::GitProbe, SetupEventView::Ran(o)) => {
            let s1 = with_progress(s, set_message(s.progress, 0, "检测 Git..."@));
            if !s.node_ok {
                finish_with(s1, Err(node_missing_text()))
            } else if o is SpawnFailed {
                finish_with(s1, Err(git_missing_text()))
            } else {
                complete(s1, 0, SetupPhase::DepsDone)
            }
        },
        (SetupPhase::DepsDone, SetupEventView::Ack) => running(s, 1, SetupPhase::RedisRunning),
        (SetupPhase::RedisRunning, SetupEventView::Ack) =>
            settle(s, 1, StepStatus::Completed, redis_hint_text(), SetupPhase::RedisDone),
        (SetupPhase::RedisDone, SetupEventView::Ack) => running(s, 2, SetupPhase::YunzaiRunning),
        (SetupPhase::YunzaiRunning, SetupEventView::Ack) =>
            start_task(s, clone_start(yunzai_repo_url(), dir + "/Yunzai-Bot"@), 2, SetupPhase::YunzaiClone),
        (SetupPhase::YunzaiClone, _) => {
            let s1 = task_stepped(s, e);
            if s1.task.phase != TaskPhase::Done {
                s1
            } else {
                match s1.task.result {
                    Err(x) => finish_with(s1, Err(x)),
                    Ok(()) => complete(s1, 2, SetupPhase::YunzaiCloned),
                }
            }
        },
        (SetupPhase::YunzaiCloned, SetupEventView::Ack) => running(s, 3, SetupPhase::NapcatRunning),
        (SetupPhase::NapcatRunning, SetupEventView::Ack) =>
            ask(s, SetupPhase::NapcatExtract, SetupOpView::ExtractNapcat(dir + "/NapCat"@)),
        (SetupPhase::NapcatExtract, SetupEventView::Extracted(r)) => match r {
            Ok(()) => settle(s, 3, StepStatus::Completed, "✓ NapCat 已释放到: "@ + dir + "/NapCat"@, SetupPhase::NapcatDone),
            Err(x) => settle(s, 3, StepStatus::Failed, "⚠ NapCat 释放失败: "@ + x + " (可手动重试)"@, SetupPhase::NapcatDone),
        },
        (SetupPhase::NapcatDone, SetupEventView::Ack) => running(s, 4, SetupPhase::QqRunning),
        (SetupPhase::QqRunning, SetupEventView::Ack) =>
            settle(
                s,
                4,
                StepStatus::Skipped,
                qq_text(
                    "https://im.qq.com/pcqq/"@,
                    "QQ 9.7.18 (30589) - 2024-03-19"@,
                    "主人 3060 游戏本实测可用的稳定版, 与 NapCat v4 兼容"@,
                ),
                SetupPhase::QqDone,
            ),
        (SetupPhase::QqDone, SetupEventView::Ack) => running(s, 5, SetupPhase::NpmRunning),
        (SetupPhase::NpmRunning, SetupEventView::Ack) =>
            start_task(s, npm_start(dir + "/Yunzai-Bot"@), 5, SetupPhase::YunzaiNpm),
        (SetupPhase::YunzaiNpm, _) => {
            let s1 = task_stepped(s, e);
            if s1.task.phase != TaskPhase::Done {
                s1
            } else {
                match s1.task.result {
                    Err(x) => finish_with(s1, Err(x)),
                    Ok(()) => complete(s1, 5, SetupPhase::NpmDone),
                }
            }
        },
        (SetupPhase::NpmDone, SetupEventView::Ack) => running(s, 6, SetupPhase::WebuiRunning),
        (SetupPhase::WebuiRunning, SetupEventView::Ack) =>
            ask(
                with_progress(s, set_message(s.progress, 6, "配置 NapCat WebUI token..."@)),
                SetupPhase::Webui,
                SetupOpView::WriteWebuiConfig(dir + "/NapCat"@),
            ),
        (SetupPhase::Webui, SetupEventView::WebuiWritten(r)) => match r {
            Ok(path) => settle(s, 6, StepStatus::Completed, "✓ WebUI token 已写入: "@ + path, SetupPhase::WebuiDone),
            Err(x) => finish_with(s, Err(x)),
        },
        (SetupPhase::WebuiDone, SetupEventView::Ack) => next_plugin(s),
        (SetupPhase::PluginAdded, SetupEventView::Ack) => plugin_added(s),
        (SetupPhase::PluginClone { main }, _) => {
            let s1 = task_stepped(s, e);
            if s1.task.phase != TaskPhase::Done {
                s1
            } else if s1.task.result is Ok && !main {
                start_task(s1, npm_start(s1.task.target), s1.task_step, SetupPhase::PluginNpm)
            } else {
                complete(s1, s1.task_step as int, SetupPhase::PluginDone)
            }
        },
        (SetupPhase::PluginNpm, _) => {
            let s1 = task_stepped(s, e);
            if s1.task.phase != TaskPhase::Done {
                s1
            } else {
                complete(s1, s1.task_step as int, SetupPhase::PluginDone)
            }
        },
        (SetupPhase::PluginDone, SetupEventView::Ack) =>
            next_plugin(SetupRunView { cursor: (s.cursor + 1) as usize, ..s }),
        (SetupPhase::AllDone, SetupEventView::Ack) => finish_with(s, Ok(())),
        _ => s,
    }
}

/// The shape every reachable wizard state has.
pub open spec fn setup_wf(s: SetupRunView) -> bool {
    &&& s.progress.steps.len() >= 7
    &&& s.task_step < s.progress.steps.len()
    &&& s.cursor <= s.plugins.len()
    &&& s.progress.total_steps == 7 + s.plugins.len()
    &&& (s.phase is PluginAdded || s.phase is PluginClone || s.phase is PluginNpm || s.phase is PluginDone)
        ==> s.cursor < s.plugins.len()
}

/// Every step of the wizard keeps it well formed: at least the seven base
/// steps, a valid step for the running task, a plugin cursor within the
/// selection, and the announced total of seven steps plus one per plugin.
pub proof fn lemma_setup_next_wf(s: SetupRunView, e: SetupEventView)
    requires
        setup_wf(s),
    ensures
        setup_wf(setup_next(s, e)),
{
}

/// `run_full_setup`: the wizard installs into the configured Yunzai
/// directory; returns the run and its first operation.
pub fn run_full_setup(paths: &AppPaths, selected_plugins: &Vec<String>) -> (r: (SetupRun, SetupOp))
    requires
        selected_plugins@.len() <= usize::MAX - 7,
    ensures
        r.0@ == setup_initial(paths.yunzai_dir@, strings_view(selected_plugins@)),
        setup_wf(r.0@),
        setup_inv(r.0@),
        setup_shape(r.0@),
        r.1@ == r.0@.pending,
{
    SetupRun::new(paths.yunzai_dir.as_str(), selected_plugins)
}

impl SetupRun {
    /// The wizard's progress as the front end shows it.
    pub fn progress(&self) -> (p: &SetupProgress)
        ensures
            p@ == self@.progress,
    {
        &self.progress
    }

    /// `run_full_setup`'s start for an installation directory and the
    /// selected plugin names: the state and the first operation (report the progress).
    pub fn new(install_dir: &str, selected_plugins: &Vec<String>) -> (r: (SetupRun, SetupOp))
        requires
            selected_plugins@.len() <= usize::MAX - 7,
        ensures
            r.0@ == setup_initial(install_dir@, strings_view(selected_plugins@)),
            setup_wf(r.0@),
            setup_inv(r.0@),
            setup_shape(r.0@),
            r.1@ == r.0@.pending,
    {
        let mut steps: Vec<SetupStep> = Vec::new();
        steps.push(new_step("deps", "检测系统依赖 (Node.js / Git / Redis)"));
        steps.push(new_step("redis_install", "安装 Redis"));
        steps.push(new_step("yunzai_clone", "下载 Yunzai 主程序 (TRSS-Yunzai)"));
        steps.push(new_step("napcat_clone", "下载 NapCat 协议端"));
        steps.push(new_step("qq_install", "下载 QQ 客户端"));
        steps.push(new_step("yunzai_npm", "安装 Yunzai npm 依赖"));
        steps.push(new_step("napcat_setup", "配置 NapCat WebUI token"));
        let progress = SetupProgress {
            current_step: 0,
            total_steps: 7 + selected_plugins.len(),
            steps,
            overall_status: StepStatus::Running,
            error_message: None,
        };
        assert(progress@.steps =~= base_steps());
        let run = SetupRun {
            install_dir: String::from_str(install_dir),
            plugins: copy_strings(selected_plugins),
            progress,
            phase: SetupPhase::Init,
            node_ok: false,
            cursor: 0,
            task: Task {
                url: String::new(),
                target: String::new(),
                phase: TaskPhase::Done,
                message: String::new(),
                result: Ok(()),
                pending: SetupOp::Emit,
            },
            task_step: 0,
            pending: SetupOp::Emit,
        };
        proof {
            law_setup_initial(install_dir@, strings_view(selected_plugins@));
            law_setup_shape_initial(install_dir@, strings_view(selected_plugins@));
        }
        (run, SetupOp::Emit)
    }

    fn set_status(&mut self, i: usize, st: StepStatus)
        requires
            i < old(self)@.progress.steps.len(),
        ensures
            final(self)@ == with_progress(old(self)@, set_status(old(self)@.progress, i as int, st)),
    {
        self.progress.steps[i].status = st;
        proof {
            assert(self@.progress.steps =~= set_status(old(self)@.progress, i as int, st).steps);
        }
    }

    fn set_message(&mut self, i: usize, m: String)
        requires
            i < old(self)@.progress.steps.len(),
        ensures
            final(self)@ == with_progress(old(self)@, set_message(old(self)@.progress, i as int, m@)),
    {
        self.progress.steps[i].message = m;
        proof {
            assert(self@.progress.steps =~= set_message(old(self)@.progress, i as int, m@).steps);
        }
    }

    fn ask(&mut self, ph: SetupPhase, op: SetupOp)
        requires
            setup_wf(SetupRunView { phase: ph, ..old(self)@ }),
        ensures
            final(self)@ == ask(old(self)@, ph, op@),
    {
        self.pending = op;
        self.phase = ph;
    }

    fn start_task(&mut self, t: Task, i: usize, ph: SetupPhase)
        requires
            i < old(self)@.progress.steps.len(),
            setup_wf(SetupRunView { phase: ph, ..old(self)@ }),
        ensures
            final(self)@ == start_task(old(self)@, t@, i, ph),
    {
        let m = t.message.clone();
        let op = t.pending.copy();
        self.set_message(i, m);
        self.task = t;
        self.task_step = i;
        self.ask(ph, op);
    }

    fn step_task(&mut self, e: &SetupEvent)
        requires
            setup_wf(old(self)@),
        ensures
            final(self)@ == task_stepped(old(self)@, e@),
    {
        self.task.advance(e);
        let m = self.task.message.clone();
        let i = self.task_step;
        self.set_message(i, m);
        if self.task.phase != TaskPhase::Done {
            self.pending = self.task.pending.copy();
        }
    }

    fn next_plugin(&mut self)
        requires
            setup_wf(old(self)@),
            !(old(self)@.phase is PluginAdded || old(self)@.phase is PluginClone || old(self)@.phase is PluginNpm
                || old(self)@.phase is PluginDone),
        ensures
            final(self)@ == next_plugin(old(self)@),
    {
        if self.cursor < self.plugins.len() {
            let mut id = String::from_str("plugin_");
            push_decimal(&mut id, self.cursor as u64);
            let name = concat2("下载插件: ", self.plugins[self.cursor].as_str());
            let step = SetupStep {
                id,
                name,
                status: StepStatus::Running,
                progress_percent: 0,
                message: String::new(),
            };
            proof {
                assert(step@ == plugin_step(self@.cursor, self@.plugins[self@.cursor as int]));
            }
            self.progress.steps.push(step);
            proof {
                assert(self@.progress.steps =~= old(self)@.progress.steps.push(
                    plugin_step(old(self)@.cursor, old(self)@.plugins[old(self)@.cursor as int]),
                ));
            }
            self.ask(SetupPhase::PluginAdded, SetupOp::Emit);
        } else {
            self.progress.overall_status = StepStatus::Completed;
            self.ask(SetupPhase::AllDone, SetupOp::Emit);
        }
    }

    fn plugin_added(&mut self)
        requires
            setup_wf(old(self)@),
            old(self)@.phase is PluginAdded,
        ensures
            final(self)@ == plugin_added(old(self)@),
    {
        let idx = self.progress.steps.len() - 1;
        match lookup_plugin(self.plugins[self.cursor].as_str()) {
            None => {
                self.set_status(idx, StepStatus::Completed);
                self.ask(SetupPhase::PluginDone, SetupOp::Emit);
            },
            Some(p) => {
                if chars_of(p.repo_url.as_str()).len() == 0 {
                    self.set_status(idx, StepStatus::Completed);
                    self.ask(SetupPhase::PluginDone, SetupOp::Emit);
                } else {
                    let main = str_eq(p.name.as_str(), "TRSS-Yunzai (主程序)");
                    let target = plugin_dir(self.install_dir.as_str(), p.name.as_str());
                    let t = Task::start_clone(p.repo_url, target);
                    self.start_task(t, idx, SetupPhase::PluginClone { main });
                }
            },
        }
    }

    /// The next state for the host's report `e`, and the operation to perform next.
    #[verifier::rlimit(100)]
    #[verifier::spinoff_prover]
    pub fn advance(&mut self, e: SetupEvent) -> (op: SetupOp)
        requires
            setup_wf(old(self)@),
        ensures
            final(self)@ == setup_next(old(self)@, e@),
            setup_wf(final(self)@),
            setup_inv(old(self)@) ==> setup_inv(final(self)@),
            setup_inv(old(self)@) && setup_shape(old(self)@) ==> setup_shape(final(self)@)
                && steps_advance(old(self)@.progress, final(self)@.progress),
            op@ == final(self)@.pending,
    {
        proof {
            lemma_setup_next_wf(self@, e@);
            if setup_inv(self@) {
                law_setup_inv_preserved(self@, e@);
                if setup_shape(self@) {
                    law_setup_shape_preserved(self@, e@);
                }
            }
        }
        match (self.phase, &e) {
            (SetupPhase::Init, SetupEvent::Ack) => {
                self.set_status(0, StepStatus::Running);
                self.ask(SetupPhase::DepsRunning, SetupOp::Emit);
            },
            (SetupPhase::DepsRunning, SetupEvent::Ack) => {
                self.ask(SetupPhase::NodeProbe, SetupOp::Run(probe_cmd("node")));
            },
            (SetupPhase::NodeProbe, SetupEvent::Ran(o)) => {
                self.node_ok = match o {
                    CommandOutcome::SpawnFailed => false,
                    CommandOutcome::Exited { .. } => true,
                };
                self.ask(SetupPhase::GitProbe, SetupOp::Run(probe_cmd("git")));
            },
            (SetupPhase::GitProbe, SetupEvent::Ran(o)) => {
                self.set_message(0, String::from_str("检测 Git..."));
                if !self.node_ok {
                    self.ask(SetupPhase::Finished, SetupOp::Finish(Err(String::from_str(
                        "Node.js 未安装。请先下载安装 Node.js 20 LTS: https://nodejs.org",
                    ))));
                } else if let CommandOutcome::SpawnFailed = o {
                    self.ask(SetupPhase::Finished, SetupOp::Finish(Err(String::from_str(
                        "Git 未安装。请先下载安装 Git: https://git-scm.com",
                    ))));
                } else {
                    self.set_status(0, StepStatus::Completed);
                    self.ask(SetupPhase::DepsDone, SetupOp::Emit);
                }
            },
            (SetupPhase::DepsDone, SetupEvent::Ack) => {
                self.set_status(1, StepStatus::Running);
                self.ask(SetupPhase::RedisRunning, SetupOp::Emit);
            },
            (SetupPhase::RedisRunning, SetupEvent::Ack) => {
                self.set_message(1, String::from_str(
                    "请打开 https://github.com/tporadowski/redis/releases 下载 Redis for Windows ZIP,解压到任意目录",
                ));
                self.set_status(1, StepStatus::Completed);
                self.ask(SetupPhase::RedisDone, SetupOp::Emit);
            },
            (SetupPhase::RedisDone, SetupEvent::Ack) => {
                self.set_status(2, StepStatus::Running);
                self.ask(SetupPhase::YunzaiRunning, SetupOp::Emit);
            },
            (SetupPhase::YunzaiRunning, SetupEvent::Ack) => {
                let target = concat2(self.install_dir.as_str(), "/Yunzai-Bot");
                let t = Task::start_clone(String::from_str("https://github.com/TimeRainStarSky/Yunzai.git"), target);
                self.start_task(t, 2, SetupPhase::YunzaiClone);
            },
            (SetupPhase::YunzaiClone, _) => {
                self.step_task(&e);
                if self.task.phase == TaskPhase::Done {
                    match &self.task.result {
                        Err(x) => {
                            let x = x.clone();
                            self.ask(SetupPhase::Finished, SetupOp::Finish(Err(x)));
                        },
                        Ok(()) => {
                            self.set_status(2, StepStatus::Completed);
                            self.ask(SetupPhase::YunzaiCloned, SetupOp::Emit);
                        },
                    }
                }
            },
            (SetupPhase::YunzaiCloned, SetupEvent::Ack) => {
                self.set_status(3, StepStatus::Running);
                self.ask(SetupPhase::NapcatRunning, SetupOp::Emit);
            },
            (SetupPhase::NapcatRunning, SetupEvent::Ack) => {
                let d = concat2(self.install_dir.as_str(), "/NapCat");
                self.ask(SetupPhase::NapcatExtract, SetupOp::ExtractNapcat(d));
            },
            (SetupPhase::NapcatExtract, SetupEvent::Extracted(r)) => {
                match r {
                    Ok(()) => {
                        let m = concat3("✓ NapCat 已释放到: ", self.install_dir.as_str(), "/NapCat");
                        self.set_message(3, m);
                        self.set_status(3, StepStatus::Completed);
                    },
                    Err(x) => {
                        let m = concat3("⚠ NapCat 释放失败: ", x.as_str(), " (可手动重试)");
                        self.set_message(3, m);
                        self.set_status(3, StepStatus::Failed);
                    },
                }
                self.ask(SetupPhase::NapcatDone, SetupOp::Emit);
            },
            (SetupPhase::NapcatDone, SetupEvent::Ack) => {
                self.set_status(4, StepStatus::Running);
                self.ask(SetupPhase::QqRunning, SetupOp::Emit);
            },
            (SetupPhase::QqRunning, SetupEvent::Ack) => {
                let q = qq_recommendation();
                let mut m = concat3("⚠ 请手动安装 QQ: ", q.download_url.as_str(), " (推荐: ");
                m.append(q.version.as_str());
                m.append(" - ");
                m.append(q.reason.as_str());
                m.append(")");
                self.set_message(4, m);
                self.set_status(4, StepStatus::Skipped);
                self.ask(SetupPhase::QqDone, SetupOp::Emit);
            },
            (SetupPhase::QqDone, SetupEvent::Ack) => {
                self.set_status(5, StepStatus::Running);
                self.ask(SetupPhase::NpmRunning, SetupOp::Emit);
            },
            (SetupPhase::NpmRunning, SetupEvent::Ack) => {
                let d = concat2(self.install_dir.as_str(), "/Yunzai-Bot");
                let t = Task::start_npm(d);
                self.start_task(t, 5, SetupPhase::YunzaiNpm);
            },
            (SetupPhase::YunzaiNpm, _) => {
                self.step_task(&e);
                if self.task.phase == TaskPhase::Done {
                    match &self.task.result {
                        Err(x) => {
                            let x = x.clone();
                            self.ask(SetupPhase::Finished, SetupOp::Finish(Err(x)));
                        },
                        Ok(()) => {
                            self.set_status(5, StepStatus::Completed);
                            self.ask(SetupPhase::NpmDone, SetupOp::Emit);
                        },
                    }
                }
            },
            (SetupPhase::NpmDone, SetupEvent::Ack) => {
                self.set_status(6, StepStatus::Running);
                self.ask(SetupPhase::WebuiRunning, SetupOp::Emit);
            },
            (SetupPhase::WebuiRunning, SetupEvent::Ack) => {
                self.set_message(6, String::from_str("配置 NapCat WebUI token..."));
                let d = concat2(self.install_dir.as_str(), "/NapCat");
                self.ask(SetupPhase::Webui, SetupOp::WriteWebuiConfig(d));
            },
            (SetupPhase::Webui, SetupEvent::WebuiWritten(r)) => {
                match r {
                    Ok(path) => {
                        let m = concat2("✓ WebUI token 已写入: ", path.as_str());
                        self.set_message(6, m);
                        self.set_status(6, StepStatus::Completed);
                        self.ask(SetupPhase::WebuiDone, SetupOp::Emit);
                    },
                    Err(x) => {
                        let x = x.clone();
                        self.ask(SetupPhase::Finished, SetupOp::Finish(Err(x)));
                    },
                }
            },
            (SetupPhase::WebuiDone, SetupEvent::Ack) => {
                self.next_plugin();
            },
            (SetupPhase::PluginAdded, SetupEvent::Ack) => {
                self.plugin_added();
            },
            (SetupPhase::PluginClone { main }, _) => {
                self.step_task(&e);
                if self.task.phase == TaskPhase::Done {
                    let i = self.task_step;
                    if self.task.result.is_ok() && !main {
                        let d = self.task.target.clone();
                        let t = Task::start_npm(d);
                        self.start_task(t, i, SetupPhase::PluginNpm);
                    } else {
                        self.set_status(i, StepStatus::Completed);
                        self.ask(SetupPhase::PluginDone, SetupOp::Emit);
                    }
                }
            },
            (SetupPhase::PluginNpm, _) => {
                self.step_task(&e);
                if self.task.phase == TaskPhase::Done {
                    let i = self.task_step;
                    self.set_status(i, StepStatus::Completed);
                    self.ask(SetupPhase::PluginDone, SetupOp::Emit);
                }
            },
            (SetupPhase::PluginDone, SetupEvent::Ack) => {
                self.phase = SetupPhase::WebuiDone;
                self.cursor = self.cursor + 1;
                self.next_plugin();
            },
            (SetupPhase::AllDone, SetupEvent::Ack) => {
                self.ask(SetupPhase::Finished, SetupOp::Finish(Ok(())));
            },
            _ => {},
        }
        self.pending.copy()
    }
}

fn new_step(id: &str, name: &str) -> (s: SetupStep)
    ensures
        s@ == step_view(id@, name@),
{
    SetupStep {
        id: String::from_str(id),
        name: String::from_str(name),
        status: StepStatus::Pending,
        progress_percent: 0,
        message: String::new(),
    }
}

fn probe_cmd(program: &str) -> (c: CommandSpec)
    ensures
        c@ == probe_command(program@),
{
    let mut args: Vec<String> = Vec::new();
    args.push(String::from_str("--version"));
    let c = CommandSpec { program: String::from_str(program), args, cwd: None, env: Vec::new(), hide_window: false };
    assert(c@.args =~= probe_command(program@).args);
    assert(c@.env =~= probe_command(program@).env);
    c
}

} // verus!

verus! {

// ---------------------------------------------------------------- one plugin

/// Which answer a single-plugin installation is waiting for.
#[derive(Clone, Copy, PartialEq, Eq, Structural)]
pub enum InstallPhase {
    /// The step was reported; the clone starts next.
    Announced,
    Cloning,
    Installing,
    /// The completed step was reported.
    Completed,
    Finished,
}

/// `install_single_plugin`: clone one plugin of the index and run its npm
/// install, reporting a single step (`Emit` sends the plugin's name and the step).
pub struct PluginInstall {
    plugin_name: String,
    step: SetupStep,
    phase: InstallPhase,
    task: Task,
    pending: SetupOp,
}

pub struct PluginInstallView {
    pub plugin_name: Seq<char>,
    pub step: StepView,
    pub phase: InstallPhase,
    pub task: TaskView,
    pub pending: SetupOpView,
}

impl View for PluginInstall {
    type V = PluginInstallView;

    closed spec fn view(&self) -> PluginInstallView {
        PluginInstallView {
            plugin_name: self.plugin_name@,
            step: self.step@,
            phase: self.phase,
            task: self.task@,
            pending: self.pending@,
        }
    }
}

/// How a single-plugin installation starts: an unknown name fails with
/// `未知插件: <name>`; the main program succeeds at once (it is already
/// installed); a plugin whose repository is not recorded fails with
/// `插件未登记仓库: <name>`; any other plugin is announced as a running step
/// at 50 %, whose message names the clone.
pub open spec fn install_initial(name: Seq<char>, root: Seq<char>, s: PluginInstallView) -> bool {
    let k = row_index(name);
    &&& s.plugin_name == name
    &&& if k < 0 {
        s.phase == InstallPhase::Finished && s.pending == SetupOpView::Finish(Err("未知插件: "@ + name))
    } else if owner_plugin_rows()[k].name == main_program_name() {
        s.phase == InstallPhase::Finished && s.pending == SetupOpView::Finish(Ok(()))
    } else if !has_repository(owner_plugin_rows()[k]) {
        s.phase == InstallPhase::Finished && s.pending == SetupOpView::Finish(Err("插件未登记仓库: "@ + name))
    } else {
        let r = owner_plugin_rows()[k];
        let t = clone_start(r.repo_url, plugin_dir_spec(root, r.name));
        &&& s.phase == InstallPhase::Announced
        &&& s.task == t
        &&& s.step == StepView {
            id: "plugin_"@ + name,
            name: "下载插件: "@ + name,
            status: StepStatus::Running,
            progress_percent: 50,
            message: t.message,
        }
        &&& s.pending == SetupOpView::Emit
    }
}

pub open spec fn install_task_stepped(s: PluginInstallView, e: SetupEventView) -> PluginInstallView {
    let t = task_next(s.task, e);
    PluginInstallView {
        task: t,
        step: StepView { message: t.message, ..s.step },
        pending: if t.phase == TaskPhase::Done { s.pending } else { t.pending },
        ..s
    }
}

/// One step of a single-plugin installation: clone, then npm install in the
/// plugin directory; a failure of either ends the installation with its
/// message (without another report); success marks the step completed,
/// reports it, and ends with success.
pub open spec fn install_next(s: PluginInstallView, e: SetupEventView) -> PluginInstallView {
    match (s.phase, e) {
        (InstallPhase::Announced, SetupEventView::Ack) =>
            PluginInstallView { phase: InstallPhase::Cloning, pending: s.task.pending, ..s },
        (InstallPhase::Cloning, _) => {
            let s1 = install_task_stepped(s, e);
            if s1.task.phase != TaskPhase::Done {
                s1
            } else {
                match s1.task.result {
                    Err(x) => PluginInstallView {
                        phase: InstallPhase::Finished,
                        pending: SetupOpView::Finish(Err(x)),
                        ..s1
                    },
                    Ok(()) => {
                        let t = npm_start(s1.task.target);
                        PluginInstallView {
                            task: t,
                            step: StepView { message: t.message, ..s1.step },
                            phase: InstallPhase::Installing,
                            pending: t.pending,
                            ..s1
                        }
                    },
                }
            }
        },
        (InstallPhase::Installing, _) => {
            let s1 = install_task_stepped(s, e);
            if s1.task.phase != TaskPhase::Done {
                s1
            } else {
                match s1.task.result {
                    Err(x) => PluginInstallView {
                        phase: InstallPhase::Finished,
                        pending: SetupOpView::Finish(Err(x)),
                        ..s1
                    },
                    Ok(()) => PluginInstallView {
                        step: StepView { status: StepStatus::Completed, ..s1.step },
                        phase: InstallPhase::Completed,
                        pending: SetupOpView::Emit,
                        ..s1
                    },
                }
            }
        },
        (InstallPhase::Completed, SetupEventView::Ack) =>
            PluginInstallView { phase: InstallPhase::Finished, pending: SetupOpView::Finish(Ok(())), ..s },
        _ => s,
    }
}

impl PluginInstall {
    /// The plugin being installed.
    pub fn plugin_name(&self) -> (r: &String)
        ensures
            r@ == self@.plugin_name,
    {
        &self.plugin_name
    }

    /// The step as it is reported.
    pub fn step(&self) -> (r: &SetupStep)
        ensures
            r@ == self@.step,
    {
        &self.step
    }

    fn new(plugin_name: &str, install_root: &str) -> (r: (PluginInstall, SetupOp))
        ensures
            install_initial(plugin_name@, install_root@, r.0@),
            r.1@ == r.0@.pending,
    {
        let idle = Task {
            url: String::new(),
            target: String::new(),
            phase: TaskPhase::Done,
            message: String::new(),
            result: Ok(()),
            pending: SetupOp::Emit,
        };
        let empty_step = SetupStep {
            id: String::new(),
            name: String::new(),
            status: StepStatus::Pending,
            progress_percent: 0,
            message: String::new(),
        };
        match lookup_plugin(plugin_name) {
            None => {
                let m = concat2("未知插件: ", plugin_name);
                let r = PluginInstall {
                    plugin_name: String::from_str(plugin_name),
                    step: empty_step,
                    phase: InstallPhase::Finished,
                    task: idle,
                    pending: SetupOp::Finish(Err(m)),
                };
                let op = r.pending.copy();
                (r, op)
            },
            Some(p) => {
                if str_eq(p.name.as_str(), "TRSS-Yunzai (主程序)") {
                    let r = PluginInstall {
                        plugin_name: String::from_str(plugin_name),
                        step: empty_step,
                        phase: InstallPhase::Finished,
                        task: idle,
                        pending: SetupOp::Finish(Ok(())),
                    };
                    (r, SetupOp::Finish(Ok(())))
                } else if chars_of(p.repo_url.as_str()).len() == 0 {
                    let m = concat2("插件未登记仓库: ", plugin_name);
                    let r = PluginInstall {
                        plugin_name: String::from_str(plugin_name),
                        step: empty_step,
                        phase: InstallPhase::Finished,
                        task: idle,
                        pending: SetupOp::Finish(Err(m)),
                    };
                    let op = r.pending.copy();
                    (r, op)
                } else {
                    let target = plugin_dir(install_root, p.name.as_str());
                    let t = Task::start_clone(p.repo_url, target);
                    let step = SetupStep {
                        id: concat2("plugin_", plugin_name),
                        name: concat2("下载插件: ", plugin_name),
                        status: StepStatus::Running,
                        progress_percent: 50,
                        message: t.message.clone(),
                    };
                    let r = PluginInstall {
                        plugin_name: String::from_str(plugin_name),
                        step,
                        phase: InstallPhase::Announced,
                        task: t,
                        pending: SetupOp::Emit,
                    };
                    (r, SetupOp::Emit)
                }
            },
        }
    }

    fn step_task(&mut self, e: &SetupEvent)
        ensures
            final(self)@ == install_task_stepped(old(self)@, e@),
    {
        self.task.advance(e);
        self.step.message = self.task.message.clone();
        if self.task.phase != TaskPhase::Done {
            self.pending = self.task.pending.copy();
        }
    }

    fn end(&mut self, r: Result<(), String>)
        ensures
            final(self)@ == (PluginInstallView {
                phase: InstallPhase::Finished,
                pending: SetupOpView::Finish(crate::task::result_view(r)),
                ..old(self)@
            }),
    {
        self.phase = InstallPhase::Finished;
        self.pending = SetupOp::Finish(r);
    }

    /// The next state for the host's report `e`, and the operation to perform next.
    pub fn advance(&mut self, e: SetupEvent) -> (op: SetupOp)
        ensures
            final(self)@ == install_next(old(self)@, e@),
            op@ == final(self)@.pending,
    {
        match (self.phase, &e) {
            (InstallPhase::Announced, SetupEvent::Ack) => {
                self.phase = InstallPhase::Cloning;
                self.pending = self.task.pending.copy();
            },
            (InstallPhase::Cloning, _) => {
                self.step_task(&e);
                if self.task.phase == TaskPhase::Done {
                    match &self.task.result {
                        Err(x) => {
                            let x = x.clone();
                            self.end(Err(x));
                        },
                        Ok(()) => {
                            let t = Task::start_npm(self.task.target.clone());
                            self.step.message = t.message.clone();
                            self.pending = t.pending.copy();
                            self.task = t;
                            self.phase = InstallPhase::Installing;
                        },
                    }
                }
            },
            (InstallPhase::Installing, _) => {
                self.step_task(&e);
                if self.task.phase == TaskPhase::Done {
                    match &self.task.result {
                        Err(x) => {
                            let x = x.clone();
                            self.end(Err(x));
                        },
                        Ok(()) => {
                            self.step.status = StepStatus::Completed;
                            self.phase = InstallPhase::Completed;
                            self.pending = SetupOp::Emit;
                        },
                    }
                }
            },
            (InstallPhase::Completed, SetupEvent::Ack) => {
                self.end(Ok(()));
            },
            _ => {},
        }
        self.pending.copy()
    }
}

/// `install_single_plugin`: starts installing `plugin_name` under
/// `install_root`; returns the machine and its first operation.
pub fn install_single_plugin(plugin_name: &str, install_root: &str) -> (r: (PluginInstall, SetupOp))
    ensures
        install_initial(plugin_name@, install_root@, r.0@),
        r.1@ == r.0@.pending,
{
    PluginInstall::new(plugin_name, install_root)
}

/// A directory name that denotes one entry strictly inside its parent: not
/// empty, and not made of dots alone (`.` is the parent itself, `..` its
/// parent, and Windows reads further dots-only names the same way).
pub open spec fn single_dir_name(n: Seq<char>) -> bool {
    n.len() > 0 && exists|i: int| 0 <= i < n.len() && n[i] != '.'
}

/// The directory removing `plugin_name` may delete: the plugin's own
/// directory under `Yunzai-Bot/plugins`, or the refusal of a name whose
/// sanitized form would denote the plugins directory or one above it.
pub open spec fn removal_target_spec(root: Seq<char>, plugin_name: Seq<char>) -> Result<Seq<char>, Seq<char>> {
    if single_dir_name(sanitize_spec(plugin_name)) {
        Ok(plugin_dir_spec(root, plugin_name))
    } else {
        Err("插件名无效: "@ + plugin_name)
    }
}

/// The directory to delete for `remove_single_plugin`, or why nothing may be
/// deleted. The host deletes only a directory this returns.
pub fn plugin_removal_target(install_root: &str, plugin_name: &str) -> (r: Result<String, String>)
    ensures
        match (r, removal_target_spec(install_root@, plugin_name@)) {
            (Ok(t), Ok(u)) => t@ == u,
            (Err(m), Err(u)) => m@ == u,
            _ => false,
        },
{
    let dir = sanitize_dir_name(plugin_name);
    let v = chars_of(dir.as_str());
    let n = v.len();
    let mut i: usize = 0;
    let mut found = false;
    while i < n && !found
        invariant
            n == v@.len(),
            v@ == sanitize_spec(plugin_name@),
            i <= n,
            found ==> i > 0 && v@[i - 1] != '.',
            !found ==> forall|j: int| 0 <= j < i ==> v@[j] == '.',
        decreases n - i,
    {
        if v[i] != '.' {
            found = true;
        }
        i = i + 1;
    }
    proof {
        if !found {
            assert(!single_dir_name(v@));
        } else {
            assert(v@[i - 1] != '.');
        }
    }
    if found {
        Ok(concat3(install_root, "/Yunzai-Bot/plugins/", dir.as_str()))
    } else {
        Err(concat2("插件名无效: ", plugin_name))
    }
}

/// The result of removing a plugin: a name that does not denote one plugin
/// directory gives `插件名无效: <name>`, a missing directory
/// `插件不存在: <dir>`, a failed removal `删除插件目录失败`.
pub open spec fn removal_verdict(root: Seq<char>, plugin_name: Seq<char>, exists: bool, removed: bool) -> Result<(), Seq<char>> {
    match removal_target_spec(root, plugin_name) {
        Err(m) => Err(m),
        Ok(t) => if !exists {
            Err("插件不存在: "@ + t)
        } else if !removed {
            Err("删除插件目录失败"@)
        } else {
            Ok(())
        },
    }
}

/// `remove_single_plugin`'s result, given whether the directory of
/// `plugin_removal_target` existed and whether removing it succeeded.
pub fn remove_single_plugin(install_root: &str, plugin_name: &str, exists: bool, removed: bool) -> (r: Result<(), String>)
    ensures
        crate::task::result_view(r) == removal_verdict(install_root@, plugin_name@, exists, removed),
{
    match plugin_removal_target(install_root, plugin_name) {
        Err(m) => Err(m),
        Ok(target) => {
            if !exists {
                Err(concat2("插件不存在: ", target.as_str()))
            } else if !removed {
                Err(String::from_str("删除插件目录失败"))
            } else {
                Ok(())
            }
        },
    }
}

/// Removal deletes at most one plugin's own directory: the target is
/// `<root>/Yunzai-Bot/plugins/<c>` where `c` is one non-empty path component
/// (no `/` or `\\`) that is not made of dots alone.
pub proof fn law_removal_stays_inside_plugins(root: Seq<char>, plugin_name: Seq<char>)
    ensures
        removal_target_spec(root, plugin_name) matches Ok(t) ==> ({
            let c = sanitize_spec(plugin_name);
            &&& t == root + "/Yunzai-Bot/plugins/"@ + c
            &&& c.len() > 0
            &&& forall|i: int| 0 <= i < c.len() ==> c[i] != '/' && c[i] != '\\'
            &&& exists|i: int| 0 <= i < c.len() && c[i] != '.'
        }),
        sanitize_spec(plugin_name).len() == 0 ==> removal_target_spec(root, plugin_name) is Err,
{
    law_sanitize(plugin_name);
    let c = sanitize_spec(plugin_name);
    assert forall|i: int| 0 <= i < c.len() implies c[i] != '/' && c[i] != '\\' by {
        assert(!unsafe_dir_char(c[i]));
    }
}

/// Once a removal succeeded the directory is gone, and removing the same
/// plugin again is refused with `插件不存在: <dir>`.
pub proof fn law_remove_twice(root: Seq<char>, plugin_name: Seq<char>, removed_again: bool)
    requires
        removal_verdict(root, plugin_name, true, true) is Ok,
    ensures
        removal_verdict(root, plugin_name, false, removed_again)
            == Err::<(), Seq<char>>("插件不存在: "@ + plugin_dir_spec(root, plugin_name)),
{
}

} // verus!

verus! {

// ---------------------------------------------------------------- laws

/// The order in which a run passes through its phases.
pub open spec fn rank(ph: SetupPhase) -> int {
    match ph {
        SetupPhase::Init => 0,
        SetupPhase::DepsRunning => 1,
        SetupPhase::NodeProbe => 2,
        SetupPhase::GitProbe => 3,
        SetupPhase::DepsDone => 4,
        SetupPhase::RedisRunning => 5,
        SetupPhase::RedisDone => 6,
        SetupPhase::YunzaiRunning => 7,
        SetupPhase::YunzaiClone => 8,
        SetupPhase::YunzaiCloned => 9,
        SetupPhase::NapcatRunning => 10,
        SetupPhase::NapcatExtract => 11,
        SetupPhase::NapcatDone => 12,
        SetupPhase::QqRunning => 13,
        SetupPhase::QqDone => 14,
        SetupPhase::NpmRunning => 15,
        SetupPhase::YunzaiNpm => 16,
        SetupPhase::NpmDone => 17,
        SetupPhase::WebuiRunning => 18,
        SetupPhase::Webui => 19,
        SetupPhase::WebuiDone => 20,
        SetupPhase::PluginAdded => 21,
        SetupPhase::PluginClone { .. } => 21,
        SetupPhase::PluginNpm => 21,
        SetupPhase::PluginDone => 21,
        SetupPhase::AllDone => 22,
        SetupPhase::Finished => 23,
    }
}

pub open spec fn in_plugin(ph: SetupPhase) -> bool {
    ph is PluginAdded || ph is PluginClone || ph is PluginNpm || ph is PluginDone
}

/// The base steps a run has passed are settled: dependencies, Redis, Yunzai,
/// npm and the WebUI completed, NapCat completed or failed, QQ skipped.
pub open spec fn base_settled_upto(p: ProgressView, r: int) -> bool {
    &&& r >= 4 ==> p.steps[0].status == StepStatus::Completed
    &&& r >= 6 ==> p.steps[1].status == StepStatus::Completed
    &&& r >= 9 ==> p.steps[2].status == StepStatus::Completed
    &&& r >= 12 ==> (p.steps[3].status == StepStatus::Completed || p.steps[3].status == StepStatus::Failed)
    &&& r >= 14 ==> p.steps[4].status == StepStatus::Skipped
    &&& r >= 17 ==> p.steps[5].status == StepStatus::Completed
    &&& r >= 20 ==> p.steps[6].status == StepStatus::Completed
}

/// The plugin steps before `n` are completed.
pub open spec fn plugins_completed(p: ProgressView, n: int) -> bool {
    forall|k: int| 7 <= k < 7 + n ==> (#[trigger] p.steps[k]).status == StepStatus::Completed
}

/// What a successful run leaves: every base step settled, one completed step
/// per selected plugin, and the whole run completed.
pub open spec fn setup_succeeded(s: SetupRunView) -> bool {
    &&& base_settled_upto(s.progress, 22)
    &&& s.progress.steps.len() == 7 + s.plugins.len()
    &&& plugins_completed(s.progress, s.plugins.len() as int)
    &&& s.progress.overall_status == StepStatus::Completed
}

/// The progress of every reachable wizard state.
pub open spec fn setup_inv(s: SetupRunView) -> bool {
    &&& setup_wf(s)
    &&& !(s.task.pending is Finish)
    &&& !(s.phase is Finished) ==> {
        &&& base_settled_upto(s.progress, rank(s.phase))
        &&& rank(s.phase) < 21 ==> s.cursor == 0 && s.progress.steps.len() == 7
        &&& in_plugin(s.phase) ==> s.progress.steps.len() == 8 + s.cursor
        &&& (s.phase is PluginClone || s.phase is PluginNpm) ==> s.task_step == 7 + s.cursor
        &&& s.phase is AllDone ==> {
            &&& s.progress.steps.len() == 7 + s.cursor
            &&& s.cursor == s.plugins.len()
            &&& s.progress.overall_status == StepStatus::Completed
        }
        &&& plugins_completed(s.progress, s.cursor as int)
        &&& s.phase is PluginDone ==> s.progress.steps[7 + s.cursor].status == StepStatus::Completed
        &&& !(s.phase is AllDone) ==> s.progress.overall_status == StepStatus::Running
        &&& s.pending is Finish ==> false
    }
    &&& s.phase is Finished ==> match s.pending {
        SetupOpView::Finish(Ok(())) => setup_succeeded(s),
        SetupOpView::Finish(Err(_)) => s.progress.overall_status == StepStatus::Running,
        _ => false,
    }
}

/// A new run satisfies the invariant.
pub proof fn law_setup_initial(install_dir: Seq<char>, plugins: Seq<Seq<char>>)
    requires
        plugins.len() <= usize::MAX - 7,
    ensures
        setup_inv(setup_initial(install_dir, plugins)),
{
}

/// Every step keeps the invariant: base steps are settled in order, plugin
/// steps are appended one per selected plugin and completed, and the overall
/// status stays running until every step is done.
#[verifier::rlimit(50)]
pub proof fn law_setup_inv_preserved(s: SetupRunView, e: SetupEventView)
    requires
        setup_inv(s),
    ensures
        setup_inv(setup_next(s, e)),
{
    lemma_setup_next_wf(s, e);
    match s.phase {
        SetupPhase::YunzaiClone | SetupPhase::YunzaiNpm => {
            lemma_message_keeps_statuses(s.progress, s.task_step as int, task_next(s.task, e).message);
        },
        SetupPhase::PluginClone { .. } | SetupPhase::PluginNpm => {
            lemma_message_keeps_statuses(s.progress, s.task_step as int, task_next(s.task, e).message);
            let s1 = task_stepped(s, e);
            lemma_message_keeps_statuses(s1.progress, s1.task_step as int, npm_start(s1.task.target).message);
            lemma_status_keeps(s1.progress, s1.task_step as int, StepStatus::Completed);
        },
        SetupPhase::PluginAdded => {
            if e is Ack {
                let idx = s.progress.steps.len() - 1;
                let k = row_index(s.plugins[s.cursor as int]);
                lemma_row_index_bounds(owner_plugin_rows(), s.plugins[s.cursor as int], 0);
                lemma_status_keeps(s.progress, idx, StepStatus::Completed);
                if k >= 0 {
                    let r = owner_plugin_rows()[k];
                    lemma_message_keeps_statuses(
                        s.progress,
                        idx,
                        clone_start(r.repo_url, plugin_dir_spec(s.install_dir, r.name)).message,
                    );
                }
            }
        },
        _ => {},
    }
}

proof fn lemma_message_keeps_statuses(p: ProgressView, i: int, m: Seq<char>)
    requires
        0 <= i < p.steps.len(),
    ensures
        set_message(p, i, m).steps.len() == p.steps.len(),
        set_message(p, i, m).overall_status == p.overall_status,
        forall|k: int| 0 <= k < p.steps.len() ==> (#[trigger] set_message(p, i, m).steps[k]).status == p.steps[k].status,
        forall|n: int| 7 + n <= p.steps.len() ==> (#[trigger] plugins_completed(set_message(p, i, m), n) <==> plugins_completed(p, n)),
        forall|r: int| p.steps.len() >= 7 ==> (#[trigger] base_settled_upto(set_message(p, i, m), r) <==> base_settled_upto(p, r)),
{
    let q = set_message(p, i, m);
    assert forall|n: int| 7 + n <= p.steps.len() implies (#[trigger] plugins_completed(q, n) <==> plugins_completed(p, n)) by {
        if plugins_completed(p, n) {
            assert forall|k: int| 7 <= k < 7 + n implies (#[trigger] q.steps[k]).status == StepStatus::Completed by {
                assert(p.steps[k].status == StepStatus::Completed);
            }
        }
        if plugins_completed(q, n) {
            assert forall|k: int| 7 <= k < 7 + n implies (#[trigger] p.steps[k]).status == StepStatus::Completed by {
                assert(q.steps[k].status == StepStatus::Completed);
            }
        }
    }
}

proof fn lemma_status_keeps(p: ProgressView, i: int, st: StepStatus)
    requires
        7 <= i < p.steps.len(),
    ensures
        set_status(p, i, st).steps.len() == p.steps.len(),
        set_status(p, i, st).steps[i].status == st,
        forall|n: int| 7 + n <= i ==> (#[trigger] plugins_completed(set_status(p, i, st), n) <==> plugins_completed(p, n)),
        forall|r: int| (#[trigger] base_settled_upto(set_status(p, i, st), r) <==> base_settled_upto(p, r)),
{
    let q = set_status(p, i, st);
    assert forall|n: int| 7 + n <= i implies (#[trigger] plugins_completed(q, n) <==> plugins_completed(p, n)) by {
        if plugins_completed(p, n) {
            assert forall|k: int| 7 <= k < 7 + n implies (#[trigger] q.steps[k]).status == StepStatus::Completed by {
                assert(p.steps[k].status == StepStatus::Completed);
            }
        }
        if plugins_completed(q, n) {
            assert forall|k: int| 7 <= k < 7 + n implies (#[trigger] p.steps[k]).status == StepStatus::Completed by {
                assert(q.steps[k].status == StepStatus::Completed);
            }
        }
    }
}

proof fn lemma_row_index_bounds(rows: Seq<PluginRow>, name: Seq<char>, i: int)
    requires
        0 <= i,
    ensures
        -1 <= row_index_from(rows, name, i) < rows.len(),
    decreases rows.len() - i,
{
    if i < rows.len() && rows[i].name != name {
        lemma_row_index_bounds(rows, name, i + 1);
    }
}

/// A run ends successfully only with every base step settled, exactly one
/// completed step per selected plugin and the run marked completed; a run
/// that ends with an error leaves the overall status running.
pub proof fn law_setup_outcome(s: SetupRunView, e: SetupEventView)
    requires
        setup_inv(s),
    ensures
        setup_next(s, e).pending == SetupOpView::Finish(Ok(())) ==> setup_succeeded(setup_next(s, e)),
        setup_next(s, e).pending matches SetupOpView::Finish(Err(_))
            ==> setup_next(s, e).progress.overall_status == StepStatus::Running,
{
    law_setup_inv_preserved(s, e);
}

} // verus!

verus! {

// ---------------------------------------------------------------- the reported steps

pub open spec fn settled(st: StepStatus) -> bool {
    st == StepStatus::Completed || st == StepStatus::Failed || st == StepStatus::Skipped
}

/// Steps run strictly in index order: every step before a started step is settled.
pub open spec fn steps_in_order(p: ProgressView) -> bool {
    forall|i: int, j: int|
        0 <= i < j < p.steps.len() && (#[trigger] p.steps[j]).status != StepStatus::Pending
            ==> settled((#[trigger] p.steps[i]).status)
}

/// The steps carry the fixed base ids and names, then `plugin_<i>` /
/// `下载插件: <name>` for the `i`-th selected plugin.
pub open spec fn steps_named(s: SetupRunView) -> bool {
    &&& 7 <= s.progress.steps.len() <= 7 + s.plugins.len()
    &&& forall|k: int| 0 <= k < 7 ==> (#[trigger] s.progress.steps[k]).id == base_steps()[k].id
        && s.progress.steps[k].name == base_steps()[k].name
    &&& forall|k: int| 7 <= k < s.progress.steps.len() ==> (#[trigger] s.progress.steps[k]).id
        == "plugin_"@ + decimal((k - 7) as nat) && s.progress.steps[k].name == "下载插件: "@ + s.plugins[k - 7]
}

/// The base steps a run has not reached yet are pending.
pub open spec fn base_pending_from(p: ProgressView, r: int) -> bool {
    &&& r < 1 ==> p.steps[0].status == StepStatus::Pending
    &&& r < 5 ==> p.steps[1].status == StepStatus::Pending
    &&& r < 7 ==> p.steps[2].status == StepStatus::Pending
    &&& r < 10 ==> p.steps[3].status == StepStatus::Pending
    &&& r < 13 ==> p.steps[4].status == StepStatus::Pending
    &&& r < 15 ==> p.steps[5].status == StepStatus::Pending
    &&& r < 18 ==> p.steps[6].status == StepStatus::Pending
}

/// The base step a run is working on is shown running.
pub open spec fn base_running_at(p: ProgressView, r: int) -> bool {
    &&& 1 <= r <= 3 ==> p.steps[0].status == StepStatus::Running
    &&& r == 5 ==> p.steps[1].status == StepStatus::Running
    &&& 7 <= r <= 8 ==> p.steps[2].status == StepStatus::Running
    &&& 10 <= r <= 11 ==> p.steps[3].status == StepStatus::Running
    &&& r == 13 ==> p.steps[4].status == StepStatus::Running
    &&& 15 <= r <= 16 ==> p.steps[5].status == StepStatus::Running
    &&& 18 <= r <= 19 ==> p.steps[6].status == StepStatus::Running
}

/// What every report of a reachable wizard state shows.
pub open spec fn setup_shape(s: SetupRunView) -> bool {
    &&& steps_named(s)
    &&& steps_in_order(s.progress)
    &&& !(s.phase is Finished) ==> base_pending_from(s.progress, rank(s.phase)) && base_running_at(s.progress, rank(s.phase))
    &&& (s.phase is PluginAdded || s.phase is PluginClone || s.phase is PluginNpm)
        ==> s.progress.steps[7 + s.cursor].status == StepStatus::Running
}

/// How one report may differ from the one before: steps are only added, and
/// added running; a pending step stays pending or starts running; a running
/// step never returns to pending; a settled step keeps its status.
pub open spec fn steps_advance(p: ProgressView, q: ProgressView) -> bool {
    &&& p.steps.len() <= q.steps.len()
    &&& forall|k: int| 0 <= k < p.steps.len() && settled(p.steps[k].status)
        ==> (#[trigger] q.steps[k]).status == p.steps[k].status
    &&& forall|k: int| 0 <= k < p.steps.len() && p.steps[k].status == StepStatus::Pending
        ==> (#[trigger] q.steps[k]).status == StepStatus::Pending || q.steps[k].status == StepStatus::Running
    &&& forall|k: int| 0 <= k < p.steps.len() && p.steps[k].status == StepStatus::Running
        ==> (#[trigger] q.steps[k]).status != StepStatus::Pending
    &&& forall|k: int| p.steps.len() <= k < q.steps.len() ==> (#[trigger] q.steps[k]).status == StepStatus::Running
}

/// A change that keeps every status, followed by an allowed change, is an allowed change.
proof fn lemma_advance_after_message(p: ProgressView, q: ProgressView, r: ProgressView)
    requires
        q.steps.len() == p.steps.len(),
        forall|k: int| 0 <= k < p.steps.len() ==> (#[trigger] q.steps[k]).status == p.steps[k].status,
        steps_advance(q, r),
    ensures
        steps_advance(p, r),
{
    assert forall|k: int| 0 <= k < p.steps.len() && settled(p.steps[k].status)
        implies (#[trigger] r.steps[k]).status == p.steps[k].status by {
        assert(q.steps[k].status == p.steps[k].status);
    }
    assert forall|k: int| 0 <= k < p.steps.len() && p.steps[k].status == StepStatus::Pending
        implies (#[trigger] r.steps[k]).status == StepStatus::Pending || r.steps[k].status == StepStatus::Running by {
        assert(q.steps[k].status == p.steps[k].status);
    }
    assert forall|k: int| 0 <= k < p.steps.len() && p.steps[k].status == StepStatus::Running
        implies (#[trigger] r.steps[k]).status != StepStatus::Pending by {
        assert(q.steps[k].status == p.steps[k].status);
    }
}

/// A message change keeps every id, name and status.
proof fn lemma_message_shape(s: SetupRunView, i: int, m: Seq<char>)
    requires
        0 <= i < s.progress.steps.len(),
    ensures
        ({
            let q = set_message(s.progress, i, m);
            &&& q.steps.len() == s.progress.steps.len()
            &&& forall|k: int| 0 <= k < q.steps.len() ==> (#[trigger] q.steps[k]).id == s.progress.steps[k].id
                && q.steps[k].name == s.progress.steps[k].name && q.steps[k].status == s.progress.steps[k].status
            &&& steps_in_order(q) == steps_in_order(s.progress)
            &&& steps_advance(s.progress, q)
            &&& steps_named(with_progress(s, q)) == steps_named(s)
        }),
{
    let p = s.progress;
    let q = set_message(p, i, m);
    assert forall|k: int| 0 <= k < q.steps.len() implies (#[trigger] q.steps[k]).id == p.steps[k].id
        && q.steps[k].name == p.steps[k].name && q.steps[k].status == p.steps[k].status by {}
    if steps_in_order(p) {
        assert forall|a: int, b: int| 0 <= a < b < q.steps.len() && (#[trigger] q.steps[b]).status != StepStatus::Pending
            implies settled((#[trigger] q.steps[a]).status) by {
            assert(q.steps[b].status == p.steps[b].status);
            assert(q.steps[a].status == p.steps[a].status);
            assert(settled(p.steps[a].status));
        }
    }
    if steps_in_order(q) {
        assert forall|a: int, b: int| 0 <= a < b < p.steps.len() && (#[trigger] p.steps[b]).status != StepStatus::Pending
            implies settled((#[trigger] p.steps[a]).status) by {
            assert(q.steps[b].status == p.steps[b].status);
            assert(q.steps[a].status == p.steps[a].status);
            assert(settled(q.steps[a].status));
        }
    }
    let t = with_progress(s, q);
    if steps_named(s) {
        assert forall|k: int| 0 <= k < 7 implies (#[trigger] t.progress.steps[k]).id == base_steps()[k].id
            && t.progress.steps[k].name == base_steps()[k].name by {
            assert(p.steps[k].id == base_steps()[k].id);
        }
        assert forall|k: int| 7 <= k < t.progress.steps.len() implies (#[trigger] t.progress.steps[k]).id
            == "plugin_"@ + decimal((k - 7) as nat) && t.progress.steps[k].name == "下载插件: "@ + t.plugins[k - 7] by {
            assert(p.steps[k].id == "plugin_"@ + decimal((k - 7) as nat));
        }
    }
    if steps_named(t) {
        assert forall|k: int| 0 <= k < 7 implies (#[trigger] p.steps[k]).id == base_steps()[k].id
            && p.steps[k].name == base_steps()[k].name by {
            assert(t.progress.steps[k].id == base_steps()[k].id);
        }
        assert forall|k: int| 7 <= k < p.steps.len() implies (#[trigger] p.steps[k]).id
            == "plugin_"@ + decimal((k - 7) as nat) && p.steps[k].name == "下载插件: "@ + s.plugins[k - 7] by {
            assert(t.progress.steps[k].id == "plugin_"@ + decimal((k - 7) as nat));
        }
    }
}

/// A status change keeps every id and name.
proof fn lemma_status_named(s: SetupRunView, i: int, st: StepStatus)
    requires
        0 <= i < s.progress.steps.len(),
        steps_named(s),
    ensures
        steps_named(with_progress(s, set_status(s.progress, i, st))),
{
    let p = s.progress;
    let t = with_progress(s, set_status(p, i, st));
    assert forall|k: int| 0 <= k < 7 implies (#[trigger] t.progress.steps[k]).id == base_steps()[k].id
        && t.progress.steps[k].name == base_steps()[k].name by {
        assert(p.steps[k].id == base_steps()[k].id);
    }
    assert forall|k: int| 7 <= k < t.progress.steps.len() implies (#[trigger] t.progress.steps[k]).id
        == "plugin_"@ + decimal((k - 7) as nat) && t.progress.steps[k].name == "下载插件: "@ + t.plugins[k - 7] by {
        assert(p.steps[k].id == "plugin_"@ + decimal((k - 7) as nat));
    }
}

/// Starting step `i` when everything before it is settled and everything after it pending.
proof fn lemma_start_order(p: ProgressView, i: int)
    requires
        0 <= i < p.steps.len(),
        steps_in_order(p),
        p.steps[i].status == StepStatus::Pending,
        forall|h: int| 0 <= h < i ==> settled(#[trigger] p.steps[h].status),
        forall|j: int| i < j < p.steps.len() ==> (#[trigger] p.steps[j]).status == StepStatus::Pending,
    ensures
        steps_in_order(set_status(p, i, StepStatus::Running)),
        steps_advance(p, set_status(p, i, StepStatus::Running)),
{
    let q = set_status(p, i, StepStatus::Running);
    assert forall|a: int, b: int| 0 <= a < b < q.steps.len() && (#[trigger] q.steps[b]).status != StepStatus::Pending
        implies settled((#[trigger] q.steps[a]).status) by {
        if b != i {
            assert(b < i);
            assert(p.steps[b].status != StepStatus::Pending);
        }
    }
}

/// Settling a running step.
proof fn lemma_settle_order(p: ProgressView, i: int, st: StepStatus)
    requires
        0 <= i < p.steps.len(),
        steps_in_order(p),
        p.steps[i].status == StepStatus::Running,
        settled(st),
    ensures
        steps_in_order(set_status(p, i, st)),
        steps_advance(p, set_status(p, i, st)),
{
    let q = set_status(p, i, st);
    assert forall|a: int, b: int| 0 <= a < b < q.steps.len() && (#[trigger] q.steps[b]).status != StepStatus::Pending
        implies settled((#[trigger] q.steps[a]).status) by {
        assert(p.steps[b].status != StepStatus::Pending);
        if a != i {
            assert(settled(p.steps[a].status));
        }
    }
}


/// Statuses agree except possibly at `i`.
pub open spec fn same_status_except(p: ProgressView, q: ProgressView, i: int) -> bool {
    &&& q.steps.len() == p.steps.len()
    &&& forall|k: int| 0 <= k < p.steps.len() && k != i ==> (#[trigger] q.steps[k]).status == p.steps[k].status
}

proof fn lemma_running(s: SetupRunView, i: int, ph: SetupPhase)
    requires
        0 <= i < s.progress.steps.len(),
        steps_named(s),
        steps_in_order(s.progress),
        s.progress.steps[i].status == StepStatus::Pending,
        forall|h: int| 0 <= h < i ==> settled(#[trigger] s.progress.steps[h].status),
        forall|j: int| i < j < s.progress.steps.len() ==> (#[trigger] s.progress.steps[j]).status == StepStatus::Pending,
    ensures
        ({
            let t = running(s, i, ph);
            &&& steps_named(t)
            &&& steps_in_order(t.progress)
            &&& steps_advance(s.progress, t.progress)
            &&& same_status_except(s.progress, t.progress, i)
            &&& t.progress.steps[i].status == StepStatus::Running
        }),
{
    lemma_start_order(s.progress, i);
    lemma_status_named(s, i, StepStatus::Running);
}

proof fn lemma_settle(s: SetupRunView, i: int, st: StepStatus, m: Seq<char>, ph: SetupPhase)
    requires
        0 <= i < s.progress.steps.len(),
        steps_named(s),
        steps_in_order(s.progress),
        s.progress.steps[i].status == StepStatus::Running,
        settled(st),
    ensures
        ({
            let t = settle(s, i, st, m, ph);
            &&& steps_named(t)
            &&& steps_in_order(t.progress)
            &&& steps_advance(s.progress, t.progress)
            &&& same_status_except(s.progress, t.progress, i)
            &&& t.progress.steps[i].status == st
        }),
{
    lemma_message_shape(s, i, m);
    let s1 = with_progress(s, set_message(s.progress, i, m));
    lemma_settle_order(s1.progress, i, st);
    lemma_status_named(s1, i, st);
    lemma_advance_after_message(s.progress, s1.progress, set_status(s1.progress, i, st));
}

proof fn lemma_complete(s: SetupRunView, i: int, ph: SetupPhase)
    requires
        0 <= i < s.progress.steps.len(),
        steps_named(s),
        steps_in_order(s.progress),
        s.progress.steps[i].status == StepStatus::Running,
    ensures
        ({
            let t = complete(s, i, ph);
            &&& steps_named(t)
            &&& steps_in_order(t.progress)
            &&& steps_advance(s.progress, t.progress)
            &&& same_status_except(s.progress, t.progress, i)
            &&& t.progress.steps[i].status == StepStatus::Completed
        }),
{
    lemma_settle_order(s.progress, i, StepStatus::Completed);
    lemma_status_named(s, i, StepStatus::Completed);
}

/// A message change keeps the shape, whatever else changes outside the steps.
proof fn lemma_message_only(s: SetupRunView, t: SetupRunView, i: int, m: Seq<char>)
    requires
        0 <= i < s.progress.steps.len(),
        t.progress == set_message(s.progress, i, m),
        t.plugins == s.plugins,
        steps_named(s),
        steps_in_order(s.progress),
    ensures
        steps_named(t),
        steps_in_order(t.progress),
        steps_advance(s.progress, t.progress),
        same_status_except(s.progress, t.progress, -1),
{
    lemma_message_shape(s, i, m);
    assert(steps_named(with_progress(s, t.progress)));
}

proof fn lemma_push_plugin(s: SetupRunView)
    requires
        steps_named(s),
        steps_in_order(s.progress),
        s.cursor < s.plugins.len(),
        s.progress.steps.len() == 7 + s.cursor,
        forall|h: int| 0 <= h < s.progress.steps.len() ==> settled(#[trigger] s.progress.steps[h].status),
    ensures
        ({
            let t = next_plugin(s);
            &&& steps_named(t)
            &&& steps_in_order(t.progress)
            &&& steps_advance(s.progress, t.progress)
            &&& t.progress.steps.len() == s.progress.steps.len() + 1
            &&& t.progress.steps[7 + s.cursor].status == StepStatus::Running
        }),
{
    let t = next_plugin(s);
    let p = s.progress;
    let q = t.progress;
    assert(q.steps == p.steps.push(plugin_step(s.cursor, s.plugins[s.cursor as int])));
    assert forall|a: int, b: int| 0 <= a < b < q.steps.len() && (#[trigger] q.steps[b]).status != StepStatus::Pending
        implies settled((#[trigger] q.steps[a]).status) by {
        assert(q.steps[a] == p.steps[a]);
    }
    assert forall|k: int| 0 <= k < 7 implies (#[trigger] q.steps[k]).id == base_steps()[k].id
        && q.steps[k].name == base_steps()[k].name by {
        assert(q.steps[k] == p.steps[k]);
    }
    assert forall|k: int| 7 <= k < q.steps.len() implies (#[trigger] q.steps[k]).id
        == "plugin_"@ + decimal((k - 7) as nat) && q.steps[k].name == "下载插件: "@ + t.plugins[k - 7] by {
        if k < p.steps.len() {
            assert(q.steps[k] == p.steps[k]);
        }
    }
}

/// Every step of the wizard keeps what its reports show: the fixed base ids
/// and names, one `plugin_<i>` / `下载插件: <name>` step per selected plugin
/// reached, steps started strictly in index order, each shown running before
/// it is settled, and settled steps never changing again.
#[verifier::rlimit(100)]
#[verifier::spinoff_prover]
pub proof fn law_setup_shape_preserved(s: SetupRunView, e: SetupEventView)
    requires
        setup_inv(s),
        setup_shape(s),
    ensures
        setup_shape(setup_next(s, e)),
        steps_advance(s.progress, setup_next(s, e).progress),
{
    lemma_setup_next_wf(s, e);
    law_setup_inv_preserved(s, e);
    let p = s.progress;
    match (s.phase, e) {
        (SetupPhase::Init, SetupEventView::Ack) => lemma_running(s, 0, SetupPhase::DepsRunning),
        (SetupPhase::GitProbe, SetupEventView::Ran(_)) => {
            let s1 = with_progress(s, set_message(s.progress, 0, "检测 Git..."@));
            lemma_message_only(s, s1, 0, "检测 Git..."@);
            if s.node_ok && !(e->Ran_0 is SpawnFailed) {
                lemma_complete(s1, 0, SetupPhase::DepsDone);
                lemma_advance_after_message(p, s1.progress, setup_next(s, e).progress);
            }
        },
        (SetupPhase::DepsDone, SetupEventView::Ack) => lemma_running(s, 1, SetupPhase::RedisRunning),
        (SetupPhase::RedisRunning, SetupEventView::Ack) =>
            lemma_settle(s, 1, StepStatus::Completed, redis_hint_text(), SetupPhase::RedisDone),
        (SetupPhase::RedisDone, SetupEventView::Ack) => lemma_running(s, 2, SetupPhase::YunzaiRunning),
        (SetupPhase::YunzaiRunning, SetupEventView::Ack) => {
            let t = clone_start(yunzai_repo_url(), s.install_dir + "/Yunzai-Bot"@);
            lemma_message_only(s, setup_next(s, e), 2, t.message);
        },
        (SetupPhase::YunzaiClone, _) | (SetupPhase::YunzaiNpm, _) => {
            let s1 = task_stepped(s, e);
            lemma_message_only(s, s1, s.task_step as int, s1.task.message);
            let i: int = if s.phase is YunzaiClone { 2 } else { 5 };
            if s1.task.phase == TaskPhase::Done && s1.task.result is Ok {
                lemma_complete(s1, i, setup_next(s, e).phase);
                lemma_advance_after_message(p, s1.progress, setup_next(s, e).progress);
            }
        },
        (SetupPhase::YunzaiCloned, SetupEventView::Ack) => lemma_running(s, 3, SetupPhase::NapcatRunning),
        (SetupPhase::NapcatExtract, SetupEventView::Extracted(r)) => match r {
            Ok(()) => lemma_settle(s, 3, StepStatus::Completed, "✓ NapCat 已释放到: "@ + s.install_dir + "/NapCat"@, SetupPhase::NapcatDone),
            Err(x) => lemma_settle(s, 3, StepStatus::Failed, "⚠ NapCat 释放失败: "@ + x + " (可手动重试)"@, SetupPhase::NapcatDone),
        },
        (SetupPhase::NapcatDone, SetupEventView::Ack) => lemma_running(s, 4, SetupPhase::QqRunning),
        (SetupPhase::QqRunning, SetupEventView::Ack) =>
            lemma_settle(
                s,
                4,
                StepStatus::Skipped,
                qq_text(
                    "https://im.qq.com/pcqq/"@,
                    "QQ 9.7.18 (30589) - 2024-03-19"@,
                    "主人 3060 游戏本实测可用的稳定版, 与 NapCat v4 兼容"@,
                ),
                SetupPhase::QqDone,
            ),
        (SetupPhase::QqDone, SetupEventView::Ack) => lemma_running(s, 5, SetupPhase::NpmRunning),
        (SetupPhase::NpmRunning, SetupEventView::Ack) => {
            let t = npm_start(s.install_dir + "/Yunzai-Bot"@);
            lemma_message_only(s, setup_next(s, e), 5, t.message);
        },
        (SetupPhase::NpmDone, SetupEventView::Ack) => lemma_running(s, 6, SetupPhase::WebuiRunning),
        (SetupPhase::WebuiRunning, SetupEventView::Ack) =>
            lemma_message_only(s, setup_next(s, e), 6, "配置 NapCat WebUI token..."@),
        (SetupPhase::Webui, SetupEventView::WebuiWritten(r)) => match r {
            Ok(path) => lemma_settle(s, 6, StepStatus::Completed, "✓ WebUI token 已写入: "@ + path, SetupPhase::WebuiDone),
            Err(_) => {},
        },
        (SetupPhase::WebuiDone, SetupEventView::Ack) => {
            if s.cursor < s.plugins.len() {
                lemma_push_plugin(s);
            }
        },
        (SetupPhase::PluginAdded, SetupEventView::Ack) => {
            let idx = s.progress.steps.len() - 1;
            let k = row_index(s.plugins[s.cursor as int]);
            lemma_row_index_bounds(owner_plugin_rows(), s.plugins[s.cursor as int], 0);
            if k < 0 || !has_repository(owner_plugin_rows()[k]) {
                lemma_complete(s, idx, SetupPhase::PluginDone);
            } else {
                let r = owner_plugin_rows()[k];
                lemma_message_only(s, setup_next(s, e), idx, clone_start(r.repo_url, plugin_dir_spec(s.install_dir, r.name)).message);
            }
        },
        (SetupPhase::PluginClone { .. }, _) | (SetupPhase::PluginNpm, _) => {
            let s1 = task_stepped(s, e);
            lemma_message_only(s, s1, s.task_step as int, s1.task.message);
            if s1.task.phase == TaskPhase::Done {
                let t = setup_next(s, e);
                if t.phase is PluginNpm {
                    lemma_message_only(s1, t, s1.task_step as int, npm_start(s1.task.target).message);
                    lemma_advance_after_message(p, s1.progress, t.progress);
                } else {
                    lemma_complete(s1, s1.task_step as int, SetupPhase::PluginDone);
                    lemma_advance_after_message(p, s1.progress, t.progress);
                }
            }
        },
        (SetupPhase::PluginDone, SetupEventView::Ack) => {
            let s1 = SetupRunView { cursor: (s.cursor + 1) as usize, ..s };
            assert forall|h: int| 0 <= h < s1.progress.steps.len() implies settled(#[trigger] s1.progress.steps[h].status) by {
                if h >= 7 && h < 7 + s.cursor {
                    assert(p.steps[h].status == StepStatus::Completed);
                }
            }
            if s1.cursor < s1.plugins.len() {
                lemma_push_plugin(s1);
            }
        },
        _ => {},
    }
}

/// A new run's report shows the seven base steps, all pending.
pub proof fn law_setup_shape_initial(install_dir: Seq<char>, plugins: Seq<Seq<char>>)
    requires
        plugins.len() <= usize::MAX - 7,
    ensures
        setup_shape(setup_initial(install_dir, plugins)),
{
    let s = setup_initial(install_dir, plugins);
    assert forall|k: int| 0 <= k < 7 implies (#[trigger] s.progress.steps[k]).id == base_steps()[k].id
        && s.progress.steps[k].name == base_steps()[k].name by {}
    assert forall|a: int, b: int| 0 <= a < b < s.progress.steps.len() && (#[trigger] s.progress.steps[b]).status != StepStatus::Pending
        implies settled((#[trigger] s.progress.steps[a]).status) by {
        assert(s.progress.steps[b].status == StepStatus::Pending);
    }
}

/// The report a successful run ends with announces and holds exactly seven
/// base steps and one completed `plugin_<i>` / `下载插件: <name>` step per
/// selected plugin, in selection order.
pub proof fn law_setup_success_report(s: SetupRunView, e: SetupEventView)
    requires
        setup_inv(s),
        setup_shape(s),
        setup_next(s, e).pending == SetupOpView::Finish(Ok(())),
    ensures
        ({
            let t = setup_next(s, e);
            &&& t.progress.total_steps == 7 + s.plugins.len()
            &&& t.progress.steps.len() == 7 + s.plugins.len()
            &&& forall|k: int| 0 <= k < 7 ==> (#[trigger] t.progress.steps[k]).id == base_steps()[k].id
            &&& forall|i: int| 0 <= i < s.plugins.len() ==> {
                &&& (#[trigger] t.progress.steps[7 + i]).id == "plugin_"@ + decimal(i as nat)
                &&& t.progress.steps[7 + i].name == "下载插件: "@ + s.plugins[i]
                &&& t.progress.steps[7 + i].status == StepStatus::Completed
            }
        }),
{
    law_setup_outcome(s, e);
    law_setup_shape_preserved(s, e);
    let t = setup_next(s, e);
    assert forall|i: int| 0 <= i < s.plugins.len() implies {
        &&& (#[trigger] t.progress.steps[7 + i]).id == "plugin_"@ + decimal(i as nat)
        &&& t.progress.steps[7 + i].name == "下载插件: "@ + s.plugins[i]
        &&& t.progress.steps[7 + i].status == StepStatus::Completed
    } by {
        assert(t.progress.steps[7 + i].id == "plugin_"@ + decimal(((7 + i) - 7) as nat));
        assert(t.progress.steps[7 + i].status == StepStatus::Completed);
    }
}

/// The wizard after the host has reported `es`, in order, from the start.
pub open spec fn setup_after(install_dir: Seq<char>, plugins: Seq<Seq<char>>, es: Seq<SetupEventView>) -> SetupRunView
    decreases es.len(),
{
    if es.len() == 0 {
        setup_initial(install_dir, plugins)
    } else {
        setup_next(setup_after(install_dir, plugins, es.drop_last()), es.last())
    }
}

proof fn lemma_reports_step(prev: SetupRunView, e: SetupEventView, k: nat)
    requires
        setup_inv(prev),
        setup_shape(prev),
        prev.plugins.len() == k,
    ensures
        ({
            let s = setup_next(prev, e);
            &&& setup_inv(s)
            &&& setup_shape(s)
            &&& s.progress.total_steps == 7 + k
            &&& steps_advance(prev.progress, s.progress)
            &&& s.pending == SetupOpView::Finish(Ok(())) ==> setup_succeeded(s)
        }),
{
    law_setup_inv_preserved(prev, e);
    law_setup_shape_preserved(prev, e);
    law_setup_outcome(prev, e);
}

/// Whatever the host reports, every state a run reaches (and so every
/// progress report it sends) announces 7 + k steps and shows the fixed base
/// steps and the `plugin_<i>` / `下载插件: <name>` steps in order, started
/// strictly in index order; from one report to the next, steps are only added
/// (running), a pending step only starts running, a running step never
/// returns to pending, and a settled step keeps its status. A run that ends
/// successfully shows one completed step per selected plugin.
#[verifier::rlimit(100)]
#[verifier::spinoff_prover]
pub proof fn law_setup_reports(install_dir: Seq<char>, plugins: Seq<Seq<char>>, es: Seq<SetupEventView>)
    requires
        plugins.len() <= usize::MAX - 7,
    ensures
        ({
            let s = setup_after(install_dir, plugins, es);
            &&& setup_inv(s)
            &&& setup_shape(s)
            &&& s.progress.total_steps == 7 + plugins.len()
            &&& es.len() > 0 ==> steps_advance(setup_after(install_dir, plugins, es.drop_last()).progress, s.progress)
            &&& s.pending == SetupOpView::Finish(Ok(())) ==> setup_succeeded(s)
        }),
    decreases es.len(),
{
    if es.len() == 0 {
        law_setup_initial(install_dir, plugins);
        law_setup_shape_initial(install_dir, plugins);
    } else {
        let prev = setup_after(install_dir, plugins, es.drop_last());
        law_setup_reports(install_dir, plugins, es.drop_last());
        lemma_reports_step(prev, es.last(), plugins.len());
        assert(setup_after(install_dir, plugins, es) == setup_next(prev, es.last()));
    }
}

/// The operations that touch NapCat name `<install dir>/NapCat`.
pub open spec fn napcat_ops_in_place(s: SetupRunView) -> bool {
    &&& s.pending matches SetupOpView::ExtractNapcat(d) ==> d == s.install_dir + "/NapCat"@
    &&& s.pending matches SetupOpView::WriteWebuiConfig(d) ==> d == s.install_dir + "/NapCat"@
    &&& !(s.task.pending is ExtractNapcat) && !(s.task.pending is WriteWebuiConfig)
}

#[verifier::rlimit(100)]
#[verifier::spinoff_prover]
proof fn lemma_napcat_ops_step(s: SetupRunView, e: SetupEventView)
    requires
        napcat_ops_in_place(s),
    ensures
        setup_next(s, e).install_dir == s.install_dir,
        setup_next(s, e).plugins == s.plugins,
        napcat_ops_in_place(setup_next(s, e)),
{
    let t = setup_next(s, e);
    match s.phase {
        SetupPhase::YunzaiClone | SetupPhase::YunzaiNpm | SetupPhase::PluginNpm => {
            let t1 = task_next(s.task, e);
            assert(!(t1.pending is ExtractNapcat) && !(t1.pending is WriteWebuiConfig));
        },
        SetupPhase::PluginClone { .. } => {
            let t1 = task_next(s.task, e);
            assert(!(t1.pending is ExtractNapcat) && !(t1.pending is WriteWebuiConfig));
        },
        SetupPhase::PluginAdded => {},
        SetupPhase::NapcatRunning => {},
        SetupPhase::WebuiRunning => {},
        _ => {},
    }
}

/// NapCat is unpacked into `<install dir>/NapCat`, and its WebUI
/// configuration is written below that same directory, whatever the host
/// reports: in every state a run reaches, a pending `ExtractNapcat` or
/// `WriteWebuiConfig` names `<install dir>/NapCat`, and the installation
/// directory never changes.
pub proof fn law_setup_napcat_dir(install_dir: Seq<char>, plugins: Seq<Seq<char>>, es: Seq<SetupEventView>)
    ensures
        setup_after(install_dir, plugins, es).install_dir == install_dir,
        setup_after(install_dir, plugins, es).pending matches SetupOpView::ExtractNapcat(d)
            ==> d == install_dir + "/NapCat"@,
        setup_after(install_dir, plugins, es).pending matches SetupOpView::WriteWebuiConfig(d)
            ==> d == install_dir + "/NapCat"@,
        napcat_ops_in_place(setup_after(install_dir, plugins, es)),
    decreases es.len(),
{
    if es.len() > 0 {
        law_setup_napcat_dir(install_dir, plugins, es.drop_last());
        lemma_napcat_ops_step(setup_after(install_dir, plugins, es.drop_last()), es.last());
    }
}

/// After the WebUI step is reported running, the next operation writes the
/// WebUI configuration into `<install dir>/NapCat`.
pub proof fn law_webui_config_goes_to_napcat(s: SetupRunView)
    requires
        s.phase == SetupPhase::WebuiRunning,
    ensures
        setup_next(s, SetupEventView::Ack).pending == SetupOpView::WriteWebuiConfig(s.install_dir + "/NapCat"@),
        setup_next(s, SetupEventView::Ack).phase == SetupPhase::Webui,
{
}

/// Installing `name` clones `url`: the index row of that name carries that
/// repository, and a single-plugin installation of it announces a clone of
/// `url` into the plugin's own directory.
pub open spec fn installs_from(name: Seq<char>, url: Seq<char>) -> bool {
    &&& row_index(name) >= 0
    &&& owner_plugin_rows()[row_index(name)].repo_url == url
    &&& forall|root: Seq<char>, s: PluginInstallView| #[trigger] install_initial(name, root, s) ==> {
        &&& s.phase == InstallPhase::Announced
        &&& s.task.url == url
        &&& s.task.target == plugin_dir_spec(root, name)
    }
}

proof fn lemma_installs_from(i: int)
    requires
        1 <= i < owner_plugin_rows().len(),
        has_repository(owner_plugin_rows()[i]),
    ensures
        installs_from(owner_plugin_rows()[i].name, owner_plugin_rows()[i].repo_url),
{
    law_lookup_finds_each_entry(i);
    law_index_names_distinct();
    assert(owner_plugin_rows()[0].name == main_program_name());
    assert(owner_plugin_rows()[i].name != main_program_name());
}

/// The repository each plugin of the index is installed from.
pub proof fn law_plugin_repositories()
    ensures
        installs_from("miao-plugin (喵喵插件)"@, "https://github.com/yoimiya-kokomi/miao-plugin.git"@),
        installs_from("xitian-plugin (戏天插件)"@, "https://gitee.com/XiTianGame/xitian-plugin.git"@),
        installs_from("guoba-plugin (锅巴插件)"@, "https://gitee.com/guoba-yunzai/guoba-plugin.git"@),
        installs_from("liangshi-calc (梁氏伤害计算)"@, "https://gitee.com/liangshi233/liangshi-calc.git"@),
        installs_from("Atlas (原神图鉴)"@, "https://gitee.com/Nwflower/atlas.git"@),
        installs_from("yenai-plugin"@, "https://github.com/yenaijs/yenai-plugin.git"@),
        installs_from("StarRail-plugin (星穹铁道)"@, "https://github.com/yoimiya-kokomi/StarRail-plugin.git"@),
        installs_from("ZZZ-Plugin (绝区零)"@, "https://github.com/zzz-plugin/ZZZ-Plugin.git"@),
        installs_from("waves-plugin (鸣潮)"@, "https://github.com/Walker-00/waves-plugin.git"@),
        installs_from("WeGame-plugin (王者/联盟手游)"@, "https://github.com/Wedaren/WeGame-plugin.git"@),
        installs_from("pixiv-plugin"@, "https://github.com/Tsuk1ko/pixiv-plugin.git"@),
        installs_from("skland-plugin (森空岛)"@, "https://github.com/takayama-lily/skland-plugin.git"@),
        installs_from("Poke-plugin (宝可梦)"@, "https://github.com/sanmusen214/Poke-plugin.git"@),
        installs_from("siliconflow-plugin (硅基流动 AI)"@, "https://github.com/owner/siliconflow-plugin.git"@),
        installs_from("Speech-statistics-plugin"@, "https://github.com/owner/Speech-statistics-plugin.git"@),
        installs_from("TaJiDuo-plugin (他她它)"@, "https://github.com/owner/TaJiDuo-plugin.git"@),
        installs_from("WeChat-Plugin (微信适配器)"@, "https://github.com/owner/WeChat-Plugin.git"@),
        installs_from("TRSS-WeChat-OC-Plugin"@, "https://github.com/owner/TRSS-WeChat-OC-Plugin.git"@),
        installs_from("yuki-plugin"@, "https://github.com/yhArcadia/yuki-plugin.git"@),
        installs_from("yunzai-plugin-deer-pipe"@, "https://github.com/owner/yunzai-plugin-deer-pipe.git"@),
        row_index("TRSS-Yunzai (主程序)"@) == 0,
        owner_plugin_rows()[0].repo_url == "https://github.com/TimeRainStarSky/Yunzai.git"@,
        forall|root: Seq<char>, s: PluginInstallView| #[trigger] install_initial("TRSS-Yunzai (主程序)"@, root, s)
            ==> s.pending == SetupOpView::Finish(Ok(())),
{
    law_lookup_finds_each_entry(0);
    reveal_strlit("https://github.com/yoimiya-kokomi/miao-plugin.git");
    lemma_installs_from(1);
    reveal_strlit("https://gitee.com/XiTianGame/xitian-plugin.git");
    lemma_installs_from(2);
    reveal_strlit("https://gitee.com/guoba-yunzai/guoba-plugin.git");
    lemma_installs_from(3);
    reveal_strlit("https://gitee.com/liangshi233/liangshi-calc.git");
    lemma_installs_from(4);
    reveal_strlit("https://gitee.com/Nwflower/atlas.git");
    lemma_installs_from(5);
    reveal_strlit("https://github.com/yenaijs/yenai-plugin.git");
    lemma_installs_from(6);
    reveal_strlit("https://github.com/yoimiya-kokomi/StarRail-plugin.git");
    lemma_installs_from(7);
    reveal_strlit("https://github.com/zzz-plugin/ZZZ-Plugin.git");
    lemma_installs_from(8);
    reveal_strlit("https://github.com/Walker-00/waves-plugin.git");
    lemma_installs_from(9);
    reveal_strlit("https://github.com/Wedaren/WeGame-plugin.git");
    lemma_installs_from(10);
    reveal_strlit("https://github.com/Tsuk1ko/pixiv-plugin.git");
    lemma_installs_from(11);
    reveal_strlit("https://github.com/takayama-lily/skland-plugin.git");
    lemma_installs_from(12);
    reveal_strlit("https://github.com/sanmusen214/Poke-plugin.git");
    lemma_installs_from(13);
    reveal_strlit("https://github.com/owner/siliconflow-plugin.git");
    lemma_installs_from(14);
    reveal_strlit("https://github.com/owner/Speech-statistics-plugin.git");
    lemma_installs_from(15);
    reveal_strlit("https://github.com/owner/TaJiDuo-plugin.git");
    lemma_installs_from(16);
    reveal_strlit("https://github.com/owner/WeChat-Plugin.git");
    lemma_installs_from(17);
    reveal_strlit("https://github.com/owner/TRSS-WeChat-OC-Plugin.git");
    lemma_installs_from(18);
    reveal_strlit("https://github.com/yhArcadia/yuki-plugin.git");
    lemma_installs_from(19);
    reveal_strlit("https://github.com/owner/yunzai-plugin-deer-pipe.git");
    lemma_installs_from(20);
}

/// The wizard's own commands, whatever state it is in: it probes `node
/// --version` and `git --version`, clones TRSS-Yunzai from its repository into
/// `<install dir>/Yunzai-Bot` (first asking whether that directory exists),
/// and runs `npm install` from the npmmirror registry inside that same directory.
pub proof fn law_setup_commands(s: SetupRunView)
    ensures
        s.phase == SetupPhase::DepsRunning ==> setup_next(s, SetupEventView::Ack).pending
            == SetupOpView::Run(CommandView { program: "node"@, args: seq!["--version"@], cwd: None, env: seq![], hide_window: false }),
        s.phase == SetupPhase::NodeProbe ==> forall|o: OutcomeView| #[trigger] setup_next(s, SetupEventView::Ran(o)).pending
            == SetupOpView::Run(CommandView { program: "git"@, args: seq!["--version"@], cwd: None, env: seq![], hide_window: false }),
        s.phase == SetupPhase::YunzaiRunning ==> {
            let t = setup_next(s, SetupEventView::Ack);
            &&& t.pending == SetupOpView::PathExists(s.install_dir + "/Yunzai-Bot"@)
            &&& t.task.url == "https://github.com/TimeRainStarSky/Yunzai.git"@
            &&& t.task.target == s.install_dir + "/Yunzai-Bot"@
        },
        s.phase == SetupPhase::NpmRunning ==> setup_next(s, SetupEventView::Ack).pending == SetupOpView::Run(CommandView {
            program: "npm"@,
            args: seq!["install"@, "--registry=https://registry.npmmirror.com"@],
            cwd: Some(s.install_dir + "/Yunzai-Bot"@),
            env: seq![],
            hide_window: true,
        }),
        s.phase == SetupPhase::NapcatRunning ==> setup_next(s, SetupEventView::Ack).pending
            == SetupOpView::ExtractNapcat(s.install_dir + "/NapCat"@),
{
}

/// What the index lists for each plugin, looked up by name: its author,
/// category and description, and for the three unrecorded entries that they
/// carry no repository and are not recommended.
pub proof fn law_plugin_entries()
    ensures
        ({ let r = owner_plugin_rows()[row_index("TRSS-Yunzai (主程序)"@)]; r.author == "时雨星空"@ && r.category == PluginCategory::Framework && r.description == "云崽机器人 v3 主程序"@ && r.recommended }),
        ({ let r = owner_plugin_rows()[row_index("miao-plugin (喵喵插件)"@)]; r.author == "喵喵"@ && r.category == PluginCategory::Featured && r.description == "升级插件,提供角色面板查询等功能"@ && r.recommended }),
        ({ let r = owner_plugin_rows()[row_index("xitian-plugin (戏天插件)"@)]; r.author == "戏天"@ && r.category == PluginCategory::Featured && r.description == "JS 类插件管理功能"@ && r.recommended }),
        ({ let r = owner_plugin_rows()[row_index("guoba-plugin (锅巴插件)"@)]; r.author == "zolay-poi"@ && r.category == PluginCategory::Featured && r.description == "网页端后台管理界面"@ && r.recommended }),
        ({ let r = owner_plugin_rows()[row_index("liangshi-calc (梁氏伤害计算)"@)]; r.author == "liangshi"@ && r.category == PluginCategory::Featured && r.description == "角色伤害计算扩展"@ && r.recommended }),
        ({ let r = owner_plugin_rows()[row_index("Atlas (原神图鉴)"@)]; r.author == "Nwflower"@ && r.category == PluginCategory::Featured && r.description == "图鉴查询"@ && r.recommended }),
        ({ let r = owner_plugin_rows()[row_index("yenai-plugin"@)]; r.author == "yenai"@ && r.category == PluginCategory::Function && r.description == "椰奶插件"@ && r.recommended }),
        ({ let r = owner_plugin_rows()[row_index("StarRail-plugin (星穹铁道)"@)]; r.author == ""@ && r.category == PluginCategory::Game && r.description == "星穹铁道游戏功能"@ && r.recommended }),
        ({ let r = owner_plugin_rows()[row_index("ZZZ-Plugin (绝区零)"@)]; r.author == ""@ && r.category == PluginCategory::Game && r.description == "绝区零游戏功能"@ && r.recommended }),
        ({ let r = owner_plugin_rows()[row_index("waves-plugin (鸣潮)"@)]; r.author == ""@ && r.category == PluginCategory::Game && r.description == "鸣潮游戏功能"@ && r.recommended }),
        ({ let r = owner_plugin_rows()[row_index("WeGame-plugin (王者/联盟手游)"@)]; r.author == ""@ && r.category == PluginCategory::Game && r.description == "王者荣耀 + 英雄联盟手游功能"@ && r.recommended }),
        ({ let r = owner_plugin_rows()[row_index("pixiv-plugin"@)]; r.author == ""@ && r.category == PluginCategory::Function && r.description == "Pixiv 图片相关"@ && r.recommended }),
        ({ let r = owner_plugin_rows()[row_index("skland-plugin (森空岛)"@)]; r.author == ""@ && r.category == PluginCategory::Function && r.description == "森空岛相关"@ && r.recommended }),
        ({ let r = owner_plugin_rows()[row_index("Poke-plugin (宝可梦)"@)]; r.author == ""@ && r.category == PluginCategory::Game && r.description == "宝可梦查询"@ && r.recommended }),
        ({ let r = owner_plugin_rows()[row_index("siliconflow-plugin (硅基流动 AI)"@)]; r.author == ""@ && r.category == PluginCategory::Function && r.description == "硅基流动 AI 接口"@ && r.recommended }),
        ({ let r = owner_plugin_rows()[row_index("Speech-statistics-plugin"@)]; r.author == ""@ && r.category == PluginCategory::Function && r.description == "群聊发言统计"@ && r.recommended }),
        ({ let r = owner_plugin_rows()[row_index("TaJiDuo-plugin (他她它)"@)]; r.author == ""@ && r.category == PluginCategory::Function && r.description == "他她它相关"@ && r.recommended }),
        ({ let r = owner_plugin_rows()[row_index("WeChat-Plugin (微信适配器)"@)]; r.author == ""@ && r.category == PluginCategory::Function && r.description == "微信个人号适配器"@ && r.recommended }),
        ({ let r = owner_plugin_rows()[row_index("TRSS-WeChat-OC-Plugin"@)]; r.author == ""@ && r.category == PluginCategory::Function && r.description == "微信 OC 适配器"@ && r.recommended }),
        ({ let r = owner_plugin_rows()[row_index("yuki-plugin"@)]; r.author == ""@ && r.category == PluginCategory::Function && r.description == "yuki 插件"@ && r.recommended }),
        ({ let r = owner_plugin_rows()[row_index("yunzai-plugin-deer-pipe"@)]; r.author == ""@ && r.category == PluginCategory::Function && r.description == "deer pipe 插件"@ && r.recommended }),
        ({ let r = owner_plugin_rows()[row_index("未登记插件 1"@)]; r.repo_url.len() == 0 && !r.recommended }),
        ({ let r = owner_plugin_rows()[row_index("未登记插件 2"@)]; r.repo_url.len() == 0 && !r.recommended }),
        ({ let r = owner_plugin_rows()[row_index("未登记插件 3"@)]; r.repo_url.len() == 0 && !r.recommended }),
{
    law_lookup_finds_each_entry(0);
    law_lookup_finds_each_entry(1);
    law_lookup_finds_each_entry(2);
    law_lookup_finds_each_entry(3);
    law_lookup_finds_each_entry(4);
    law_lookup_finds_each_entry(5);
    law_lookup_finds_each_entry(6);
    law_lookup_finds_each_entry(7);
    law_lookup_finds_each_entry(8);
    law_lookup_finds_each_entry(9);
    law_lookup_finds_each_entry(10);
    law_lookup_finds_each_entry(11);
    law_lookup_finds_each_entry(12);
    law_lookup_finds_each_entry(13);
    law_lookup_finds_each_entry(14);
    law_lookup_finds_each_entry(15);
    law_lookup_finds_each_entry(16);
    law_lookup_finds_each_entry(17);
    law_lookup_finds_each_entry(18);
    law_lookup_finds_each_entry(19);
    law_lookup_finds_each_entry(20);
    law_lookup_finds_each_entry(21);
    law_lookup_finds_each_entry(22);
    law_lookup_finds_each_entry(23);
}

} // verus!
