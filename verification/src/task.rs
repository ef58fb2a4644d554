//! The external jobs a setup step runs: cloning a git repository, running
//! `npm install`, and downloading and unpacking an archive, each as a small
//! state machine whose operations the host performs and reports back.
use vstd::prelude::*;
use crate::host::{CommandSpec, CommandView, CommandOutcome, OutcomeView, strings2};
use crate::text::{concat2, concat3};
use crate::bootstrap::{powershell_command, expand_script, powershell_cmd};

verus! {

/// An operation the setup machines ask the host to perform.
pub enum SetupOp {
    /// Send the machine's current progress to the front end.
    Emit,
    /// Run a program to completion and report how it ended.
    Run(CommandSpec),
    /// Report whether a path exists.
    PathExists(String),
    /// Create the parent directory of a path (and its ancestors); report success.
    CreateParentDir(String),
    /// Unpack NapCat into a directory and report the outcome.
    ExtractNapcat(String),
    /// Write NapCat's WebUI configuration below a NapCat directory and report
    /// the file's displayed path, or the error.
    WriteWebuiConfig(String),
    /// Remove a file, ignoring failure; then `Ack`.
    RemoveFile(String),
    /// The machine has ended with this result.
    Finish(Result<(), String>),
}

/// What the host reports after performing an operation.
pub enum SetupEvent {
    /// The progress was sent.
    Ack,
    Ran(CommandOutcome),
    Exists(bool),
    DirCreated(bool),
    Extracted(Result<(), String>),
    WebuiWritten(Result<String, String>),
}

pub enum SetupOpView {
    Emit,
    Run(CommandView),
    PathExists(Seq<char>),
    CreateParentDir(Seq<char>),
    ExtractNapcat(Seq<char>),
    WriteWebuiConfig(Seq<char>),
    RemoveFile(Seq<char>),
    Finish(Result<(), Seq<char>>),
}

pub enum SetupEventView {
    Ack,
    Ran(OutcomeView),
    Exists(bool),
    DirCreated(bool),
    Extracted(Result<(), Seq<char>>),
    WebuiWritten(Result<Seq<char>, Seq<char>>),
}

pub open spec fn result_view(r: Result<(), String>) -> Result<(), Seq<char>> {
    match r {
        Ok(()) => Ok(()),
        Err(e) => Err(e@),
    }
}

impl View for SetupOp {
    type V = SetupOpView;

    open spec fn view(&self) -> SetupOpView {
        match self {
            SetupOp::Emit => SetupOpView::Emit,
            SetupOp::Run(c) => SetupOpView::Run(c@),
            SetupOp::PathExists(p) => SetupOpView::PathExists(p@),
            SetupOp::CreateParentDir(p) => SetupOpView::CreateParentDir(p@),
            SetupOp::ExtractNapcat(p) => SetupOpView::ExtractNapcat(p@),
            SetupOp::WriteWebuiConfig(p) => SetupOpView::WriteWebuiConfig(p@),
            SetupOp::RemoveFile(p) => SetupOpView::RemoveFile(p@),
            SetupOp::Finish(r) => SetupOpView::Finish(result_view(*r)),
        }
    }
}

impl View for SetupEvent {
    type V = SetupEventView;

    open spec fn view(&self) -> SetupEventView {
        match self {
            SetupEvent::Ack => SetupEventView::Ack,
            SetupEvent::Ran(o) => SetupEventView::Ran(o@),
            SetupEvent::Exists(b) => SetupEventView::Exists(*b),
            SetupEvent::DirCreated(b) => SetupEventView::DirCreated(*b),
            SetupEvent::Extracted(r) => SetupEventView::Extracted(result_view(*r)),
            SetupEvent::WebuiWritten(r) => SetupEventView::WebuiWritten(
                match r {
                    Ok(p) => Ok(p@),
                    Err(e) => Err(e@),
                },
            ),
        }
    }
}

pub fn copy_result(r: &Result<(), String>) -> (c: Result<(), String>)
    ensures
        result_view(c) == result_view(*r),
{
    match r {
        Ok(()) => Ok(()),
        Err(e) => Err(e.clone()),
    }
}

impl SetupOp {
    pub fn copy(&self) -> (r: Self)
        ensures
            r@ == self@,
    {
        match self {
            SetupOp::Emit => SetupOp::Emit,
            SetupOp::Run(c) => SetupOp::Run(c.copy()),
            SetupOp::PathExists(p) => SetupOp::PathExists(p.clone()),
            SetupOp::CreateParentDir(p) => SetupOp::CreateParentDir(p.clone()),
            SetupOp::ExtractNapcat(p) => SetupOp::ExtractNapcat(p.clone()),
            SetupOp::WriteWebuiConfig(p) => SetupOp::WriteWebuiConfig(p.clone()),
            SetupOp::RemoveFile(p) => SetupOp::RemoveFile(p.clone()),
            SetupOp::Finish(r) => SetupOp::Finish(copy_result(r)),
        }
    }
}

// ---------------------------------------------------------------- commands

/// `git clone --depth=1 <url> <target>`, without a console window.
pub open spec fn git_clone_command(url: Seq<char>, target: Seq<char>) -> CommandView {
    CommandView {
        program: "git"@,
        args: seq!["clone"@, "--depth=1"@, url, target],
        cwd: None,
        env: seq![],
        hide_window: true,
    }
}

/// `npm install --registry=https://registry.npmmirror.com` inside `dir`, without a console window.
pub open spec fn npm_install_command(dir: Seq<char>) -> CommandView {
    CommandView {
        program: "npm"@,
        args: seq!["install"@, "--registry=https://registry.npmmirror.com"@],
        cwd: Some(dir),
        env: seq![],
        hide_window: true,
    }
}

fn git_clone_cmd(url: &String, target: &String) -> (c: CommandSpec)
    ensures
        c@ == git_clone_command(url@, target@),
{
    let mut args: Vec<String> = Vec::new();
    args.push(String::from_str("clone"));
    args.push(String::from_str("--depth=1"));
    args.push(url.clone());
    args.push(target.clone());
    let c = CommandSpec {
        program: String::from_str("git"),
        args,
        cwd: None,
        env: Vec::new(),
        hide_window: true,
    };
    assert(c@.args =~= git_clone_command(url@, target@).args);
    assert(c@.env =~= git_clone_command(url@, target@).env);
    c
}

fn npm_install_cmd(dir: &String) -> (c: CommandSpec)
    ensures
        c@ == npm_install_command(dir@),
{
    let c = CommandSpec {
        program: String::from_str("npm"),
        args: strings2("install", "--registry=https://registry.npmmirror.com"),
        cwd: Some(dir.clone()),
        env: Vec::new(),
        hide_window: true,
    };
    assert(c@.env =~= npm_install_command(dir@).env);
    c
}

// ---------------------------------------------------------------- the task machine

#[derive(Clone, Copy, PartialEq, Eq, Structural)]
pub enum TaskPhase {
    /// Waiting to learn whether the clone target exists.
    AwaitExists,
    /// Waiting for the clone target's parent directory to be created.
    AwaitDir,
    /// Waiting for `git clone` to end.
    AwaitClone,
    /// Waiting for `npm install` to end.
    AwaitNpm,
    /// The task has ended.
    Done,
}

/// A git clone or npm install in progress, with the message its step shows.
pub struct Task {
    pub url: String,
    pub target: String,
    pub phase: TaskPhase,
    pub message: String,
    pub result: Result<(), String>,
    pub pending: SetupOp,
}

pub struct TaskView {
    pub url: Seq<char>,
    pub target: Seq<char>,
    pub phase: TaskPhase,
    pub message: Seq<char>,
    pub result: Result<(), Seq<char>>,
    pub pending: SetupOpView,
}

impl View for Task {
    type V = TaskView;

    open spec fn view(&self) -> TaskView {
        TaskView {
            url: self.url@,
            target: self.target@,
            phase: self.phase,
            message: self.message@,
            result: result_view(self.result),
            pending: self.pending@,
        }
    }
}

/// The start of `git_clone(url, target)`: announce the clone, then ask whether the target exists.
pub open spec fn clone_start(url: Seq<char>, target: Seq<char>) -> TaskView {
    TaskView {
        url,
        target,
        phase: TaskPhase::AwaitExists,
        message: "git clone "@ + url + " -> "@ + target,
        result: Ok(()),
        pending: SetupOpView::PathExists(target),
    }
}

/// The start of `run_npm_install(dir)`: announce it and run npm in `dir`.
pub open spec fn npm_start(dir: Seq<char>) -> TaskView {
    TaskView {
        url: seq![],
        target: dir,
        phase: TaskPhase::AwaitNpm,
        message: "npm install in "@ + dir,
        result: Ok(()),
        pending: SetupOpView::Run(npm_install_command(dir)),
    }
}

pub open spec fn task_done(t: TaskView, message: Seq<char>, result: Result<(), Seq<char>>) -> TaskView {
    TaskView { phase: TaskPhase::Done, message, result, ..t }
}

/// One step of a clone or npm task.
///
/// A clone whose target already exists is skipped and succeeds; otherwise the
/// parent directory is created and `git clone` runs. npm runs in the target.
/// A program that cannot be started, or that exits unsuccessfully, fails the
/// task with its message; a successful run leaves a completion message.
/// An event that does not answer the pending operation changes nothing.
pub open spec fn task_next(t: TaskView, e: SetupEventView) -> TaskView {
    match (t.phase, e) {
        (TaskPhase::AwaitExists, SetupEventView::Exists(true)) =>
            task_done(t, t.target + " 已存在,跳过"@, Ok(())),
        (TaskPhase::AwaitExists, SetupEventView::Exists(false)) =>
            TaskView { phase: TaskPhase::AwaitDir, pending: SetupOpView::CreateParentDir(t.target), ..t },
        (TaskPhase::AwaitDir, SetupEventView::DirCreated(true)) =>
            TaskView {
                phase: TaskPhase::AwaitClone,
                pending: SetupOpView::Run(git_clone_command(t.url, t.target)),
                ..t
            },
        (TaskPhase::AwaitDir, SetupEventView::DirCreated(false)) =>
            task_done(t, t.message, Err("创建父目录失败"@)),
        (TaskPhase::AwaitClone, SetupEventView::Ran(o)) => match o {
            OutcomeView::SpawnFailed => task_done(t, t.message, Err("git clone 失败"@)),
            OutcomeView::Exited { success, stderr } =>
                if success {
                    task_done(t, "✓ 已下载: "@ + t.target, Ok(()))
                } else {
                    task_done(t, t.message, Err("git clone 失败: "@ + stderr))
                },
        },
        (TaskPhase::AwaitNpm, SetupEventView::Ran(o)) => match o {
            OutcomeView::SpawnFailed => task_done(t, t.message, Err("npm install 启动失败"@)),
            OutcomeView::Exited { success, stderr } =>
                if success {
                    task_done(t, "✓ npm install 完成: "@ + t.target, Ok(()))
                } else {
                    task_done(t, t.message, Err("npm install 失败: "@ + stderr))
                },
        },
        _ => t,
    }
}

impl Task {
    pub fn start_clone(url: String, target: String) -> (t: Task)
        ensures
            t@ == clone_start(url@, target@),
    {
        let message = concat3("git clone ", url.as_str(), " -> ");
        let mut message = message;
        message.append(target.as_str());
        let pending = SetupOp::PathExists(target.clone());
        Task { url, target, phase: TaskPhase::AwaitExists, message, result: Ok(()), pending }
    }

    pub fn start_npm(dir: String) -> (t: Task)
        ensures
            t@ == npm_start(dir@),
    {
        let message = concat2("npm install in ", dir.as_str());
        let pending = SetupOp::Run(npm_install_cmd(&dir));
        Task { url: String::new(), target: dir, phase: TaskPhase::AwaitNpm, message, result: Ok(()), pending }
    }

    fn finish(&mut self, message: String, result: Result<(), String>)
        ensures
            final(self)@ == task_done(old(self)@, message@, result_view(result)),
    {
        self.phase = TaskPhase::Done;
        self.message = message;
        self.result = result;
    }

    fn fail(&mut self, err: String)
        ensures
            final(self)@ == task_done(old(self)@, old(self)@.message, Err(err@)),
    {
        self.phase = TaskPhase::Done;
        self.result = Err(err);
    }

    pub fn advance(&mut self, e: &SetupEvent)
        ensures
            final(self)@ == task_next(old(self)@, e@),
    {
        match (self.phase, e) {
            (TaskPhase::AwaitExists, SetupEvent::Exists(b)) => {
                if *b {
                    let m = concat2(self.target.as_str(), " 已存在,跳过");
                    self.finish(m, Ok(()));
                } else {
                    self.phase = TaskPhase::AwaitDir;
                    self.pending = SetupOp::CreateParentDir(self.target.clone());
                }
            },
            (TaskPhase::AwaitDir, SetupEvent::DirCreated(b)) => {
                if *b {
                    self.phase = TaskPhase::AwaitClone;
                    self.pending = SetupOp::Run(git_clone_cmd(&self.url, &self.target));
                } else {
                    self.fail(String::from_str("创建父目录失败"));
                }
            },
            (TaskPhase::AwaitClone, SetupEvent::Ran(o)) => match o {
                CommandOutcome::SpawnFailed => self.fail(String::from_str("git clone 失败")),
                CommandOutcome::Exited { success, stderr } => {
                    if *success {
                        let m = concat2("✓ 已下载: ", self.target.as_str());
                        self.finish(m, Ok(()));
                    } else {
                        self.fail(concat2("git clone 失败: ", stderr.as_str()));
                    }
                },
            },
            (TaskPhase::AwaitNpm, SetupEvent::Ran(o)) => match o {
                CommandOutcome::SpawnFailed => self.fail(String::from_str("npm install 启动失败")),
                CommandOutcome::Exited { success, stderr } => {
                    if *success {
                        let m = concat2("✓ npm install 完成: ", self.target.as_str());
                        self.finish(m, Ok(()));
                    } else {
                        self.fail(concat2("npm install 失败: ", stderr.as_str()));
                    }
                },
            },
            _ => {},
        }
    }
}

} // verus!

verus! {

// ---------------------------------------------------------------- download and unpack

/// `curl -L -o <zip> <url>`, without a console window.
pub open spec fn curl_command(zip: Seq<char>, url: Seq<char>) -> CommandView {
    CommandView {
        program: "curl"@,
        args: seq!["-L"@, "-o"@, zip, url],
        cwd: None,
        env: seq![],
        hide_window: true,
    }
}

fn curl_cmd(zip: &String, url: &String) -> (c: CommandSpec)
    ensures
        c@ == curl_command(zip@, url@),
{
    let mut args: Vec<String> = Vec::new();
    args.push(String::from_str("-L"));
    args.push(String::from_str("-o"));
    args.push(zip.clone());
    args.push(url.clone());
    let c = CommandSpec { program: String::from_str("curl"), args, cwd: None, env: Vec::new(), hide_window: true };
    assert(c@.args =~= curl_command(zip@, url@).args);
    assert(c@.env =~= curl_command(zip@, url@).env);
    c
}

/// Which answer a download-and-unpack job is waiting for.
#[derive(Clone, Copy, PartialEq, Eq, Structural)]
pub enum DownloadPhase {
    AwaitExists,
    AwaitCurl,
    AwaitDir,
    AwaitExpand,
    AwaitRemove,
    Done,
}

/// Downloading an archive with curl to a temporary file and unpacking it into
/// a target directory with PowerShell, with the message its step shows.
pub struct DownloadExtract {
    url: String,
    target: String,
    zip: String,
    phase: DownloadPhase,
    message: String,
    pending: SetupOp,
}

pub struct DownloadView {
    pub url: Seq<char>,
    pub target: Seq<char>,
    pub zip: Seq<char>,
    pub phase: DownloadPhase,
    pub message: Seq<char>,
    pub pending: SetupOpView,
}

impl View for DownloadExtract {
    type V = DownloadView;

    closed spec fn view(&self) -> DownloadView {
        DownloadView {
            url: self.url@,
            target: self.target@,
            zip: self.zip@,
            phase: self.phase,
            message: self.message@,
            pending: self.pending@,
        }
    }
}

/// The start: announce the download, then ask whether the target exists.
pub open spec fn download_start(url: Seq<char>, target: Seq<char>, zip: Seq<char>) -> DownloadView {
    DownloadView {
        url,
        target,
        zip,
        phase: DownloadPhase::AwaitExists,
        message: "下载 "@ + url + " -> "@ + target,
        pending: SetupOpView::PathExists(target),
    }
}

pub open spec fn download_done(d: DownloadView, message: Seq<char>, r: Result<(), Seq<char>>) -> DownloadView {
    DownloadView { phase: DownloadPhase::Done, message, pending: SetupOpView::Finish(r), ..d }
}

pub open spec fn download_ask(d: DownloadView, ph: DownloadPhase, op: SetupOpView) -> DownloadView {
    DownloadView { phase: ph, pending: op, ..d }
}

/// One step of the job: an existing target is skipped and succeeds;
/// otherwise curl downloads the archive to the temporary file, the target's
/// parent directory is created (a failure is ignored), PowerShell unpacks the
/// archive into the target, and the temporary file is removed. A program
/// that cannot be started, or exits unsuccessfully, ends the job with its
/// message. An event that does not answer the pending operation changes nothing.
pub open spec fn download_next(d: DownloadView, e: SetupEventView) -> DownloadView {
    match (d.phase, e) {
        (DownloadPhase::AwaitExists, SetupEventView::Exists(b)) =>
            if b {
                download_done(d, d.target + " 已存在,跳过"@, Ok(()))
            } else {
                download_ask(d, DownloadPhase::AwaitCurl, SetupOpView::Run(curl_command(d.zip, d.url)))
            },
        (DownloadPhase::AwaitCurl, SetupEventView::Ran(o)) => match o {
            OutcomeView::SpawnFailed => download_done(d, d.message, Err("curl 下载失败"@)),
            OutcomeView::Exited { success, stderr } =>
                if success {
                    download_ask(d, DownloadPhase::AwaitDir, SetupOpView::CreateParentDir(d.target))
                } else {
                    download_done(d, d.message, Err("下载失败: "@ + stderr))
                },
        },
        (DownloadPhase::AwaitDir, SetupEventView::DirCreated(_)) =>
            download_ask(
                d,
                DownloadPhase::AwaitExpand,
                SetupOpView::Run(powershell_command(expand_script(d.zip, d.target), true)),
            ),
        (DownloadPhase::AwaitExpand, SetupEventView::Ran(o)) => match o {
            OutcomeView::SpawnFailed => download_done(d, d.message, Err("解压失败"@)),
            OutcomeView::Exited { success, stderr } =>
                if success {
                    download_ask(d, DownloadPhase::AwaitRemove, SetupOpView::RemoveFile(d.zip))
                } else {
                    download_done(d, d.message, Err("解压失败: "@ + stderr))
                },
        },
        (DownloadPhase::AwaitRemove, SetupEventView::Ack) => download_done(d, d.message, Ok(())),
        _ => d,
    }
}

/// Starts downloading `url` to the temporary archive `tmp_zip` and unpacking
/// it into `target`; returns the job and its first operation.
pub fn download_and_extract(url: &str, target: &str, tmp_zip: &str) -> (r: (DownloadExtract, SetupOp))
    ensures
        r.0@ == download_start(url@, target@, tmp_zip@),
        r.1@ == r.0@.pending,
{
    let mut message = concat3("下载 ", url, " -> ");
    message.append(target);
    let d = DownloadExtract {
        url: String::from_str(url),
        target: String::from_str(target),
        zip: String::from_str(tmp_zip),
        phase: DownloadPhase::AwaitExists,
        message,
        pending: SetupOp::PathExists(String::from_str(target)),
    };
    let op = d.pending.copy();
    (d, op)
}

impl DownloadExtract {
    /// The message the job's step shows.
    pub fn message(&self) -> (r: &String)
        ensures
            r@ == self@.message,
    {
        &self.message
    }

    fn ask(&mut self, ph: DownloadPhase, op: SetupOp)
        ensures
            final(self)@ == download_ask(old(self)@, ph, op@),
    {
        self.phase = ph;
        self.pending = op;
    }

    fn done(&mut self, r: Result<(), String>)
        ensures
            final(self)@ == download_done(old(self)@, old(self)@.message, result_view(r)),
    {
        self.phase = DownloadPhase::Done;
        self.pending = SetupOp::Finish(r);
    }

    /// The next state for the host's report `e`, and the operation to perform next.
    pub fn advance(&mut self, e: &SetupEvent) -> (op: SetupOp)
        ensures
            final(self)@ == download_next(old(self)@, e@),
            op@ == final(self)@.pending,
    {
        match (self.phase, e) {
            (DownloadPhase::AwaitExists, SetupEvent::Exists(b)) => {
                if *b {
                    self.message = concat2(self.target.as_str(), " 已存在,跳过");
                    self.done(Ok(()));
                } else {
                    let c = curl_cmd(&self.zip, &self.url);
                    self.ask(DownloadPhase::AwaitCurl, SetupOp::Run(c));
                }
            },
            (DownloadPhase::AwaitCurl, SetupEvent::Ran(o)) => match o {
                CommandOutcome::SpawnFailed => self.done(Err(String::from_str("curl 下载失败"))),
                CommandOutcome::Exited { success, stderr } => {
                    if *success {
                        let t = self.target.clone();
                        self.ask(DownloadPhase::AwaitDir, SetupOp::CreateParentDir(t));
                    } else {
                        self.done(Err(concat2("下载失败: ", stderr.as_str())));
                    }
                },
            },
            (DownloadPhase::AwaitDir, SetupEvent::DirCreated(_)) => {
                let mut script = concat3("Expand-Archive -Path '", self.zip.as_str(), "' -DestinationPath '");
                script.append(self.target.as_str());
                script.append("' -Force");
                let c = powershell_cmd(script, true);
                self.ask(DownloadPhase::AwaitExpand, SetupOp::Run(c));
            },
            (DownloadPhase::AwaitExpand, SetupEvent::Ran(o)) => match o {
                CommandOutcome::SpawnFailed => self.done(Err(String::from_str("解压失败"))),
                CommandOutcome::Exited { success, stderr } => {
                    if *success {
                        let z = self.zip.clone();
                        self.ask(DownloadPhase::AwaitRemove, SetupOp::RemoveFile(z));
                    } else {
                        self.done(Err(concat2("解压失败: ", stderr.as_str())));
                    }
                },
            },
            (DownloadPhase::AwaitRemove, SetupEvent::Ack) => self.done(Ok(())),
            _ => {},
        }
        self.pending.copy()
    }
}

/// A clone whose target is missing creates the target's parent and then runs
/// `git clone --depth=1 <url> <target>` with the task's own url and target;
/// npm runs `npm install --registry=https://registry.npmmirror.com` inside
/// the task's directory.
pub proof fn law_task_commands(url: Seq<char>, target: Seq<char>, dir: Seq<char>)
    ensures
        ({
            let t1 = task_next(clone_start(url, target), SetupEventView::Exists(false));
            let t2 = task_next(t1, SetupEventView::DirCreated(true));
            &&& clone_start(url, target).pending == SetupOpView::PathExists(target)
            &&& t1.pending == SetupOpView::CreateParentDir(target)
            &&& t2.pending == SetupOpView::Run(CommandView {
                program: "git"@,
                args: seq!["clone"@, "--depth=1"@, url, target],
                cwd: None,
                env: seq![],
                hide_window: true,
            })
        }),
        npm_start(dir).pending == SetupOpView::Run(CommandView {
            program: "npm"@,
            args: seq!["install"@, "--registry=https://registry.npmmirror.com"@],
            cwd: Some(dir),
            env: seq![],
            hide_window: true,
        }),
{
}

/// The download job runs `curl -L -o <tmp zip> <url>`, then unpacks with
/// `powershell -NoProfile -Command "Expand-Archive -Path '<tmp zip>'
/// -DestinationPath '<target>' -Force"`, and finally removes the temporary archive.
pub proof fn law_download_commands(url: Seq<char>, target: Seq<char>, zip: Seq<char>)
    ensures
        ({
            let d1 = download_next(download_start(url, target, zip), SetupEventView::Exists(false));
            let d2 = download_next(d1, SetupEventView::Ran(OutcomeView::Exited { success: true, stderr: seq![] }));
            let d3 = download_next(d2, SetupEventView::DirCreated(true));
            let d4 = download_next(d3, SetupEventView::Ran(OutcomeView::Exited { success: true, stderr: seq![] }));
            &&& d1.pending == SetupOpView::Run(CommandView {
                program: "curl"@, args: seq!["-L"@, "-o"@, zip, url], cwd: None, env: seq![], hide_window: true,
            })
            &&& d2.pending == SetupOpView::CreateParentDir(target)
            &&& d3.pending == SetupOpView::Run(CommandView {
                program: "powershell"@,
                args: seq!["-NoProfile"@, "-Command"@,
                    "Expand-Archive -Path '"@ + zip + "' -DestinationPath '"@ + target + "' -Force"@],
                cwd: None,
                env: seq![],
                hide_window: true,
            })
            &&& d4.pending == SetupOpView::RemoveFile(zip)
            &&& download_next(d4, SetupEventView::Ack).pending == SetupOpView::Finish(Ok(()))
        }),
{
}

} // verus!
