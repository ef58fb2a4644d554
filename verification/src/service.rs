//! Starting and stopping the bot's services as a state machine. The start
//! chain is strictly Redis, then Yunzai (once port 2536 listens), then NapCat
//! (once port 6099 listens); stopping ends NapCat, QQ and Yunzai and leaves
//! Redis running. The host performs each operation and reports back.
use vstd::prelude::*;
use crate::config::AppPaths;
use crate::host::{CommandSpec, CommandView, strings_view, strings2};
use crate::process::{ProcessEntry, find_pid, pids_named, pids_with_cmdline, pids_where, name_matches, sweep_matches, cmd_contains, first_named};
use crate::text::{concat2, concat3, decimal, push_decimal};

verus! {

/// The services the console starts, in start order.
#[derive(Debug, Clone, Copy, PartialEq, Eq, Structural)]
pub enum Child {
    Redis,
    Yunzai,
    Napcat,
}

pub open spec fn ord(c: Child) -> int {
    match c {
        Child::Redis => 0,
        Child::Yunzai => 1,
        Child::Napcat => 2,
    }
}

/// An operation the service machine asks the host to perform.
pub enum ServiceOp {
    /// Try to connect to `127.0.0.1:port` within `timeout_ms`; report whether it worked.
    PortOpen { port: u16, timeout_ms: u64 },
    /// Report whether a path exists.
    PathExists(String),
    /// Report whether `dir` joined with `name` exists, and how that path displays.
    FileInDir { dir: String, name: String },
    /// Remove a stale `redis.pid` next to the Redis executable, if there is one.
    RemoveStalePidFile(String),
    /// Start a program in the background with its standard streams closed;
    /// report its pid or the error.
    Spawn(CommandSpec),
    /// Record (or clear) the pid of a started service.
    SetChildPid(Child, Option<u32>),
    /// Report the recorded pid of a started service.
    ReadChildPid(Child),
    /// Note the moment a port wait starts.
    StartWait,
    /// Report the milliseconds since the port wait started.
    Elapsed,
    /// Sleep for this many milliseconds.
    Sleep(u64),
    /// Report today's local date as `YYYY-MM-DD`.
    Today,
    /// Report the running processes.
    ListProcesses,
    /// Kill the process with this pid, if it exists; report whether it was killed.
    KillPid(u32),
    /// Kill these processes; report how many were killed.
    KillPids(Vec<u32>),
    /// The run has ended with this result.
    Finish(Result<(), String>),
}

/// What the host reports after performing an operation.
pub enum ServiceEvent {
    Ack,
    Bool(bool),
    Located { exists: bool, display: String },
    Spawned(Result<u32, String>),
    Pid(Option<u32>),
    ElapsedMs(u64),
    Date(String),
    Processes(Vec<ProcessEntry>),
    Count(u64),
}

pub enum ServiceOpView {
    PortOpen { port: u16, timeout_ms: u64 },
    PathExists(Seq<char>),
    FileInDir { dir: Seq<char>, name: Seq<char> },
    RemoveStalePidFile(Seq<char>),
    Spawn(CommandView),
    SetChildPid(Child, Option<u32>),
    ReadChildPid(Child),
    StartWait,
    Elapsed,
    Sleep(u64),
    Today,
    ListProcesses,
    KillPid(u32),
    KillPids(Seq<u32>),
    Finish(Result<(), Seq<char>>),
}

pub enum ServiceEventView {
    Ack,
    Bool(bool),
    Located { exists: bool, display: Seq<char> },
    Spawned(Result<u32, Seq<char>>),
    Pid(Option<u32>),
    ElapsedMs(u64),
    Date(Seq<char>),
    Processes(Seq<ProcessEntry>),
    Count(u64),
}

impl View for ServiceOp {
    type V = ServiceOpView;

    open spec fn view(&self) -> ServiceOpView {
        match self {
            ServiceOp::PortOpen { port, timeout_ms } => ServiceOpView::PortOpen { port: *port, timeout_ms: *timeout_ms },
            ServiceOp::PathExists(p) => ServiceOpView::PathExists(p@),
            ServiceOp::FileInDir { dir, name } => ServiceOpView::FileInDir { dir: dir@, name: name@ },
            ServiceOp::RemoveStalePidFile(p) => ServiceOpView::RemoveStalePidFile(p@),
            ServiceOp::Spawn(c) => ServiceOpView::Spawn(c@),
            ServiceOp::SetChildPid(c, p) => ServiceOpView::SetChildPid(*c, *p),
            ServiceOp::ReadChildPid(c) => ServiceOpView::ReadChildPid(*c),
            ServiceOp::StartWait => ServiceOpView::StartWait,
            ServiceOp::Elapsed => ServiceOpView::Elapsed,
            ServiceOp::Sleep(ms) => ServiceOpView::Sleep(*ms),
            ServiceOp::Today => ServiceOpView::Today,
            ServiceOp::ListProcesses => ServiceOpView::ListProcesses,
            ServiceOp::KillPid(p) => ServiceOpView::KillPid(*p),
            ServiceOp::KillPids(v) => ServiceOpView::KillPids(v@),
            ServiceOp::Finish(r) => ServiceOpView::Finish(
                match r {
                    Ok(()) => Ok(()),
                    Err(e) => Err(e@),
                },
            ),
        }
    }
}

impl View for ServiceEvent {
    type V = ServiceEventView;

    open spec fn view(&self) -> ServiceEventView {
        match self {
            ServiceEvent::Ack => ServiceEventView::Ack,
            ServiceEvent::Bool(b) => ServiceEventView::Bool(*b),
            ServiceEvent::Located { exists, display } => ServiceEventView::Located { exists: *exists, display: display@ },
            ServiceEvent::Spawned(r) => ServiceEventView::Spawned(
                match r {
                    Ok(p) => Ok(*p),
                    Err(e) => Err(e@),
                },
            ),
            ServiceEvent::Pid(p) => ServiceEventView::Pid(*p),
            ServiceEvent::ElapsedMs(t) => ServiceEventView::ElapsedMs(*t),
            ServiceEvent::Date(d) => ServiceEventView::Date(d@),
            ServiceEvent::Processes(v) => ServiceEventView::Processes(v@),
            ServiceEvent::Count(n) => ServiceEventView::Count(*n),
        }
    }
}

impl ServiceOp {
    pub fn copy(&self) -> (r: Self)
        ensures
            r@ == self@,
    {
        match self {
            ServiceOp::PortOpen { port, timeout_ms } => ServiceOp::PortOpen { port: *port, timeout_ms: *timeout_ms },
            ServiceOp::PathExists(p) => ServiceOp::PathExists(p.clone()),
            ServiceOp::FileInDir { dir, name } => ServiceOp::FileInDir { dir: dir.clone(), name: name.clone() },
            ServiceOp::RemoveStalePidFile(p) => ServiceOp::RemoveStalePidFile(p.clone()),
            ServiceOp::Spawn(c) => ServiceOp::Spawn(c.copy()),
            ServiceOp::SetChildPid(c, p) => ServiceOp::SetChildPid(*c, *p),
            ServiceOp::ReadChildPid(c) => ServiceOp::ReadChildPid(*c),
            ServiceOp::StartWait => ServiceOp::StartWait,
            ServiceOp::Elapsed => ServiceOp::Elapsed,
            ServiceOp::Sleep(ms) => ServiceOp::Sleep(*ms),
            ServiceOp::Today => ServiceOp::Today,
            ServiceOp::ListProcesses => ServiceOp::ListProcesses,
            ServiceOp::KillPid(p) => ServiceOp::KillPid(*p),
            ServiceOp::KillPids(v) => ServiceOp::KillPids(v.clone()),
            ServiceOp::Finish(r) => ServiceOp::Finish(
                match r {
                    Ok(()) => Ok(()),
                    Err(e) => Err(e.clone()),
                },
            ),
        }
    }
}

// ---------------------------------------------------------------- commands

/// `redis-server <conf>`.
pub open spec fn redis_command(p: AppPaths) -> CommandView {
    CommandView { program: p.redis_exe@, args: seq![p.redis_conf@], cwd: None, env: seq![], hide_window: true }
}

/// `node app.js` in the Yunzai directory with `FORCE_COLOR=0`.
pub open spec fn yunzai_command(p: AppPaths) -> CommandView {
    CommandView {
        program: p.yunzai_node@,
        args: seq!["app.js"@],
        cwd: Some(p.yunzai_dir@),
        env: seq![("FORCE_COLOR"@, "0"@)],
        hide_window: true,
    }
}

/// `cmd.exe /c <launcher.bat>` in the NapCat directory.
pub open spec fn napcat_command(p: AppPaths, bat: Seq<char>) -> CommandView {
    CommandView {
        program: "cmd.exe"@,
        args: seq!["/c"@, bat],
        cwd: Some(p.napcat_dir@),
        env: seq![],
        hide_window: true,
    }
}

/// The error of a port that never listened.
pub open spec fn port_timeout_text(port: u16, timeout_ms: u64) -> Seq<char> {
    "端口 "@ + decimal(port as nat) + " 在 "@ + decimal(timeout_ms as nat) + "ms 内未监听"@
}

fn redis_cmd(p: &AppPaths) -> (c: CommandSpec)
    ensures
        c@ == redis_command(*p),
{
    let mut args: Vec<String> = Vec::new();
    args.push(p.redis_conf.clone());
    let c = CommandSpec { program: p.redis_exe.clone(), args, cwd: None, env: Vec::new(), hide_window: true };
    assert(c@.args =~= redis_command(*p).args);
    assert(c@.env =~= redis_command(*p).env);
    c
}

fn yunzai_cmd(p: &AppPaths) -> (c: CommandSpec)
    ensures
        c@ == yunzai_command(*p),
{
    let mut args: Vec<String> = Vec::new();
    args.push(String::from_str("app.js"));
    let mut env: Vec<(String, String)> = Vec::new();
    env.push((String::from_str("FORCE_COLOR"), String::from_str("0")));
    let c = CommandSpec { program: p.yunzai_node.clone(), args, cwd: Some(p.yunzai_dir.clone()), env, hide_window: true };
    assert(c@.args =~= yunzai_command(*p).args);
    assert(c@.env =~= yunzai_command(*p).env);
    c
}

fn napcat_cmd(p: &AppPaths, bat: &String) -> (c: CommandSpec)
    ensures
        c@ == napcat_command(*p, bat@),
{
    let mut args: Vec<String> = Vec::new();
    args.push(String::from_str("/c"));
    args.push(bat.clone());
    let c = CommandSpec {
        program: String::from_str("cmd.exe"),
        args,
        cwd: Some(p.napcat_dir.clone()),
        env: Vec::new(),
        hide_window: true,
    };
    assert(c@.args =~= napcat_command(*p, bat@).args);
    assert(c@.env =~= napcat_command(*p, bat@).env);
    c
}

fn port_timeout_message(port: u16, timeout_ms: u64) -> (m: String)
    ensures
        m@ == port_timeout_text(port, timeout_ms),
{
    let mut m = String::from_str("端口 ");
    push_decimal(&mut m, port as u64);
    m.append(" 在 ");
    push_decimal(&mut m, timeout_ms);
    m.append("ms 内未监听");
    m
}

// ---------------------------------------------------------------- the machine

/// Which answer the service machine is waiting for.
#[derive(Debug, Clone, Copy, PartialEq, Eq, Structural)]
pub enum ServicePhase {
    RedisPortCheck,
    RedisExe,
    RedisConf,
    RedisPidFile,
    RedisSpawn,
    RedisRecord,
    YunzaiNode,
    YunzaiDir,
    YunzaiAppJs,
    YunzaiSpawn,
    YunzaiRecord,
    YunzaiDate,
    NapcatBat,
    NapcatSpawn,
    NapcatRecord,
    NapcatSettle,
    NapcatList,
    NapcatRecordMain,
    WaitStart,
    WaitElapsed,
    WaitConnect,
    WaitSleep,
    StopReadNapcat,
    StopKillNapcat,
    StopListNapcat,
    StopKillNapcatByName,
    StopListQq,
    StopKillQq,
    StopReadYunzai,
    StopKillYunzai,
    StopListCmd,
    StopKillCmd,
    StopClearRedis,
    StopClearYunzai,
    StopClearNapcat,
    Finished,
}

/// A start or stop run.
pub struct ServiceRun {
    paths: AppPaths,
    stopping: bool,
    first: Child,
    last: Child,
    phase: ServicePhase,
    redis_ready: bool,
    yunzai_ready: bool,
    napcat_ready: bool,
    wait_port: u16,
    wait_timeout: u64,
    wait_for: Child,
    bat: String,
    wait_error: String,
    pending: ServiceOp,
}

pub struct ServiceRunView {
    pub paths: AppPaths,
    /// A stop run (otherwise a start run).
    pub stopping: bool,
    /// The first and last service of a start run.
    pub first: Child,
    pub last: Child,
    pub phase: ServicePhase,
    /// Each service's port was seen listening during this run.
    pub redis_ready: bool,
    pub yunzai_ready: bool,
    pub napcat_ready: bool,
    pub wait_port: u16,
    pub wait_timeout: u64,
    pub wait_for: Child,
    pub bat: Seq<char>,
    pub wait_error: Seq<char>,
    pub pending: ServiceOpView,
}

impl View for ServiceRun {
    type V = ServiceRunView;

    closed spec fn view(&self) -> ServiceRunView {
        ServiceRunView {
            paths: self.paths,
            stopping: self.stopping,
            first: self.first,
            last: self.last,
            phase: self.phase,
            redis_ready: self.redis_ready,
            yunzai_ready: self.yunzai_ready,
            napcat_ready: self.napcat_ready,
            wait_port: self.wait_port,
            wait_timeout: self.wait_timeout,
            wait_for: self.wait_for,
            bat: self.bat@,
            wait_error: self.wait_error@,
            pending: self.pending@,
        }
    }
}

pub open spec fn sask(s: ServiceRunView, ph: ServicePhase, op: ServiceOpView) -> ServiceRunView {
    ServiceRunView { phase: ph, pending: op, ..s }
}

pub open spec fn sfinish(s: ServiceRunView, r: Result<(), Seq<char>>) -> ServiceRunView {
    sask(s, ServicePhase::Finished, ServiceOpView::Finish(r))
}

/// The first operation of starting service `c`.
pub open spec fn begin_service(s: ServiceRunView, c: Child) -> ServiceRunView {
    match c {
        Child::Redis => sask(s, ServicePhase::RedisPortCheck, ServiceOpView::PortOpen { port: 6379, timeout_ms: 200 }),
        Child::Yunzai => sask(s, ServicePhase::YunzaiNode, ServiceOpView::PathExists(s.paths.yunzai_node@)),
        Child::Napcat => sask(
            s,
            ServicePhase::NapcatBat,
            ServiceOpView::FileInDir { dir: s.paths.napcat_dir@, name: "launcher.bat"@ },
        ),
    }
}

pub open spec fn next_child(c: Child) -> Child {
    match c {
        Child::Redis => Child::Yunzai,
        _ => Child::Napcat,
    }
}

pub open spec fn mark_ready(s: ServiceRunView, c: Child) -> ServiceRunView {
    match c {
        Child::Redis => ServiceRunView { redis_ready: true, ..s },
        Child::Yunzai => ServiceRunView { yunzai_ready: true, ..s },
        Child::Napcat => ServiceRunView { napcat_ready: true, ..s },
    }
}

/// Service `c` is up: go on with the next one, or end successfully after the last.
pub open spec fn service_up(s: ServiceRunView, c: Child) -> ServiceRunView {
    let s1 = mark_ready(s, c);
    if c == s.last {
        sfinish(s1, Ok(()))
    } else {
        begin_service(s1, next_child(c))
    }
}

/// Wait for `port` to listen, for at most `timeout_ms`, on behalf of `c`.
pub open spec fn begin_wait(s: ServiceRunView, port: u16, timeout_ms: u64, c: Child) -> ServiceRunView {
    ServiceRunView {
        wait_port: port,
        wait_timeout: timeout_ms,
        wait_for: c,
        ..sask(s, ServicePhase::WaitStart, ServiceOpView::StartWait)
    }
}

/// The port listened.
pub open spec fn wait_ok(s: ServiceRunView) -> ServiceRunView {
    match s.wait_for {
        Child::Napcat => sask(s, ServicePhase::NapcatSettle, ServiceOpView::Sleep(500)),
        c => service_up(s, c),
    }
}

/// The port did not listen in time; `m` says which port and how long.
pub open spec fn wait_failed(s: ServiceRunView, m: Seq<char>) -> ServiceRunView {
    match s.wait_for {
        Child::Redis => sfinish(s, Err(m)),
        Child::Yunzai => ServiceRunView { wait_error: m, ..sask(s, ServicePhase::YunzaiDate, ServiceOpView::Today) },
        Child::Napcat => sfinish(s, Err("NapCat 启动后未在 6099 端口监听 (WebUI 准备超时): "@ + m)),
    }
}

/// `wait_port_listening`: while less than the timeout has elapsed, try to
/// connect (150 ms), and sleep 200 ms between attempts.
pub open spec fn wait_next(s: ServiceRunView, e: ServiceEventView) -> ServiceRunView {
    match (s.phase, e) {
        (ServicePhase::WaitStart, ServiceEventView::Ack) => sask(s, ServicePhase::WaitElapsed, ServiceOpView::Elapsed),
        (ServicePhase::WaitElapsed, ServiceEventView::ElapsedMs(t)) =>
            if t >= s.wait_timeout {
                wait_failed(s, port_timeout_text(s.wait_port, s.wait_timeout))
            } else {
                sask(s, ServicePhase::WaitConnect, ServiceOpView::PortOpen { port: s.wait_port, timeout_ms: 150 })
            },
        (ServicePhase::WaitConnect, ServiceEventView::Bool(true)) => wait_ok(s),
        (ServicePhase::WaitConnect, ServiceEventView::Bool(false)) =>
            sask(s, ServicePhase::WaitSleep, ServiceOpView::Sleep(200)),
        (ServicePhase::WaitSleep, ServiceEventView::Ack) => sask(s, ServicePhase::WaitElapsed, ServiceOpView::Elapsed),
        _ => s,
    }
}

/// The start chain.
///
/// Redis: skipped when port 6379 already accepts a connection; otherwise the
/// executable and the configuration must exist, a stale `redis.pid` is
/// removed, Redis is spawned, its pid recorded, and port 6379 must listen
/// within 5 s. Yunzai: `node.exe`, the Yunzai directory and its `app.js` must
/// exist; node is spawned, its pid recorded, and port 2536 must listen within
/// 15 s. NapCat: `launcher.bat` must exist; it is spawned through `cmd.exe`,
/// its pid recorded, port 6099 must listen within 30 s; after 500 ms the pid of
/// `NapCatWinBootMain.exe`, when found, replaces the recorded one. Every
/// failure ends the run with its message; nothing after it is started.
pub open spec fn start_next(s: ServiceRunView, e: ServiceEventView) -> ServiceRunView {
    let p = s.paths;
    match (s.phase, e) {
        (ServicePhase::RedisPortCheck, ServiceEventView::Bool(b)) =>
            if b {
                service_up(s, Child::Redis)
            } else {
                sask(s, ServicePhase::RedisExe, ServiceOpView::PathExists(p.redis_exe@))
            },
        (ServicePhase::RedisExe, ServiceEventView::Bool(b)) =>
            if b {
                sask(s, ServicePhase::RedisConf, ServiceOpView::PathExists(p.redis_conf@))
            } else {
                sfinish(s, Err("redis-server.exe 不存在: "@ + p.redis_exe@))
            },
        (ServicePhase::RedisConf, ServiceEventView::Bool(b)) =>
            if b {
                sask(s, ServicePhase::RedisPidFile, ServiceOpView::RemoveStalePidFile(p.redis_exe@))
            } else {
                sfinish(s, Err("redis.conf 不存在: "@ + p.redis_conf@))
            },
        (ServicePhase::RedisPidFile, ServiceEventView::Ack) =>
            sask(s, ServicePhase::RedisSpawn, ServiceOpView::Spawn(redis_command(p))),
        (ServicePhase::RedisSpawn, ServiceEventView::Spawned(r)) => match r {
            Ok(pid) => sask(s, ServicePhase::RedisRecord, ServiceOpView::SetChildPid(Child::Redis, Some(pid))),
            Err(x) => sfinish(s, Err("启动 Redis 失败: "@ + x)),
        },
        (ServicePhase::RedisRecord, ServiceEventView::Ack) => begin_wait(s, 6379, 5000, Child::Redis),
        (ServicePhase::YunzaiNode, ServiceEventView::Bool(b)) =>
            if b {
                sask(s, ServicePhase::YunzaiDir, ServiceOpView::PathExists(p.yunzai_dir@))
            } else {
                sfinish(s, Err("node.exe 不存在: "@ + p.yunzai_node@ + " (检查 nvm 路径或配置)"@))
            },
        (ServicePhase::YunzaiDir, ServiceEventView::Bool(b)) =>
            if b {
                sask(s, ServicePhase::YunzaiAppJs, ServiceOpView::FileInDir { dir: p.yunzai_dir@, name: "app.js"@ })
            } else {
                sfinish(s, Err("Yunzai 目录不存在: "@ + p.yunzai_dir@))
            },
        (ServicePhase::YunzaiAppJs, ServiceEventView::Located { exists, display }) =>
            if exists {
                sask(s, ServicePhase::YunzaiSpawn, ServiceOpView::Spawn(yunzai_command(p)))
            } else {
                sfinish(s, Err("Yunzai 入口 app.js 不存在,目录不对: "@ + p.yunzai_dir@))
            },
        (ServicePhase::YunzaiSpawn, ServiceEventView::Spawned(r)) => match r {
            Ok(pid) => sask(s, ServicePhase::YunzaiRecord, ServiceOpView::SetChildPid(Child::Yunzai, Some(pid))),
            Err(x) => sfinish(s, Err("启动 Yunzai 失败: "@ + x)),
        },
        (ServicePhase::YunzaiRecord, ServiceEventView::Ack) => begin_wait(s, 2536, 15000, Child::Yunzai),
        (ServicePhase::YunzaiDate, ServiceEventView::Date(d)) =>
            sfinish(s, Err("Yunzai 启动后未在 2536 端口监听 (检查 logs/command."@ + d + ".log): "@ + s.wait_error)),
        (ServicePhase::NapcatBat, ServiceEventView::Located { exists, display }) =>
            if exists {
                ServiceRunView {
                    bat: display,
                    ..sask(s, ServicePhase::NapcatSpawn, ServiceOpView::Spawn(napcat_command(p, display)))
                }
            } else {
                sfinish(s, Err("NapCat launcher.bat 不存在: "@ + display))
            },
        (ServicePhase::NapcatSpawn, ServiceEventView::Spawned(r)) => match r {
            Ok(pid) => sask(s, ServicePhase::NapcatRecord, ServiceOpView::SetChildPid(Child::Napcat, Some(pid))),
            Err(x) => sfinish(s, Err("启动 NapCat 失败: "@ + x)),
        },
        (ServicePhase::NapcatRecord, ServiceEventView::Ack) => begin_wait(s, 6099, 30000, Child::Napcat),
        (ServicePhase::NapcatSettle, ServiceEventView::Ack) =>
            sask(s, ServicePhase::NapcatList, ServiceOpView::ListProcesses),
        (ServicePhase::NapcatList, ServiceEventView::Processes(ps)) =>
            if exists|i: int| 0 <= i < ps.len() && name_matches(#[trigger] ps[i], "NapCatWinBootMain.exe"@) {
                let i = choose|i: int| #[trigger] first_named(ps, i, "NapCatWinBootMain.exe"@);
                sask(s, ServicePhase::NapcatRecordMain, ServiceOpView::SetChildPid(Child::Napcat, Some(ps[i].pid)))
            } else {
                service_up(s, Child::Napcat)
            },
        (ServicePhase::NapcatRecordMain, ServiceEventView::Ack) => service_up(s, Child::Napcat),
        _ => s,
    }
}

/// The stop sequence: kill the recorded NapCat pid, then every
/// `NapCatWinBootMain.exe`, then every `QQ.exe`, then the recorded Yunzai pid,
/// then every `node.exe` whose command line mentions `app.js`; finally clear all
/// three recorded pids. Redis is never killed.
pub open spec fn stop_next(s: ServiceRunView, e: ServiceEventView) -> ServiceRunView {
    match (s.phase, e) {
        (ServicePhase::StopReadNapcat, ServiceEventView::Pid(p)) => match p {
            Some(pid) => sask(s, ServicePhase::StopKillNapcat, ServiceOpView::KillPid(pid)),
            None => sask(s, ServicePhase::StopListNapcat, ServiceOpView::ListProcesses),
        },
        (ServicePhase::StopKillNapcat, ServiceEventView::Bool(_)) =>
            sask(s, ServicePhase::StopListNapcat, ServiceOpView::ListProcesses),
        (ServicePhase::StopListNapcat, ServiceEventView::Processes(ps)) =>
            sask(
                s,
                ServicePhase::StopKillNapcatByName,
                ServiceOpView::KillPids(pids_where(ps, |e: ProcessEntry| name_matches(e, "NapCatWinBootMain.exe"@))),
            ),
        (ServicePhase::StopKillNapcatByName, ServiceEventView::Count(_)) =>
            sask(s, ServicePhase::StopListQq, ServiceOpView::ListProcesses),
        (ServicePhase::StopListQq, ServiceEventView::Processes(ps)) =>
            sask(
                s,
                ServicePhase::StopKillQq,
                ServiceOpView::KillPids(pids_where(ps, |e: ProcessEntry| name_matches(e, "QQ.exe"@))),
            ),
        (ServicePhase::StopKillQq, ServiceEventView::Count(_)) =>
            sask(s, ServicePhase::StopReadYunzai, ServiceOpView::ReadChildPid(Child::Yunzai)),
        (ServicePhase::StopReadYunzai, ServiceEventView::Pid(p)) => match p {
            Some(pid) => sask(s, ServicePhase::StopKillYunzai, ServiceOpView::KillPid(pid)),
            None => sask(s, ServicePhase::StopListCmd, ServiceOpView::ListProcesses),
        },
        (ServicePhase::StopKillYunzai, ServiceEventView::Bool(_)) =>
            sask(s, ServicePhase::StopListCmd, ServiceOpView::ListProcesses),
        (ServicePhase::StopListCmd, ServiceEventView::Processes(ps)) =>
            sask(
                s,
                ServicePhase::StopKillCmd,
                ServiceOpView::KillPids(pids_where(ps, |e: ProcessEntry| sweep_matches(e, "node.exe"@, "app.js"@))),
            ),
        (ServicePhase::StopKillCmd, ServiceEventView::Count(_)) =>
            sask(s, ServicePhase::StopClearRedis, ServiceOpView::SetChildPid(Child::Redis, None)),
        (ServicePhase::StopClearRedis, ServiceEventView::Ack) =>
            sask(s, ServicePhase::StopClearYunzai, ServiceOpView::SetChildPid(Child::Yunzai, None)),
        (ServicePhase::StopClearYunzai, ServiceEventView::Ack) =>
            sask(s, ServicePhase::StopClearNapcat, ServiceOpView::SetChildPid(Child::Napcat, None)),
        (ServicePhase::StopClearNapcat, ServiceEventView::Ack) => sfinish(s, Ok(())),
        _ => s,
    }
}

pub open spec fn is_wait_phase(ph: ServicePhase) -> bool {
    ph is WaitStart || ph is WaitElapsed || ph is WaitConnect || ph is WaitSleep
}

pub open spec fn is_stop_phase(ph: ServicePhase) -> bool {
    ph is StopReadNapcat || ph is StopKillNapcat || ph is StopListNapcat || ph is StopKillNapcatByName
        || ph is StopListQq || ph is StopKillQq || ph is StopReadYunzai || ph is StopKillYunzai
        || ph is StopListCmd || ph is StopKillCmd || ph is StopClearRedis || ph is StopClearYunzai
        || ph is StopClearNapcat
}

/// One step of a start or stop run: the state after the host reports `e`
/// for the pending operation, whose `pending` field is the next operation.
/// An event that does not answer the pending operation changes nothing.
pub open spec fn service_next(s: ServiceRunView, e: ServiceEventView) -> ServiceRunView {
    if is_wait_phase(s.phase) {
        wait_next(s, e)
    } else if is_stop_phase(s.phase) {
        stop_next(s, e)
    } else {
        start_next(s, e)
    }
}

pub open spec fn fresh_run(paths: AppPaths, stopping: bool, first: Child, last: Child) -> ServiceRunView {
    ServiceRunView {
        paths,
        stopping,
        first,
        last,
        phase: ServicePhase::Finished,
        redis_ready: false,
        yunzai_ready: false,
        napcat_ready: false,
        wait_port: 0,
        wait_timeout: 0,
        wait_for: first,
        bat: seq![],
        wait_error: seq![],
        pending: ServiceOpView::Finish(Ok(())),
    }
}

/// A start run of the services `first..=last`, about to start `first`.
pub open spec fn start_initial(paths: AppPaths, first: Child, last: Child) -> ServiceRunView {
    begin_service(fresh_run(paths, false, first, last), first)
}

/// A stop run, about to read the recorded NapCat pid.
pub open spec fn stop_initial(paths: AppPaths) -> ServiceRunView {
    sask(fresh_run(paths, true, Child::Redis, Child::Napcat), ServicePhase::StopReadNapcat, ServiceOpView::ReadChildPid(Child::Napcat))
}

proof fn lemma_first_unique(ps: Seq<ProcessEntry>, name: Seq<char>, i: int, j: int)
    requires
        first_named(ps, i, name),
        first_named(ps, j, name),
    ensures
        i == j,
{
    if i < j {
        assert(!name_matches(ps[i], name));
    } else if j < i {
        assert(!name_matches(ps[j], name));
    }
}

impl ServiceRun {
    fn fresh(paths: AppPaths, stopping: bool, first: Child, last: Child, phase: ServicePhase, op: ServiceOp) -> (r: ServiceRun)
        ensures
            r@ == sask(fresh_run(paths, stopping, first, last), phase, op@),
    {
        ServiceRun {
            paths,
            stopping,
            first,
            last,
            phase,
            redis_ready: false,
            yunzai_ready: false,
            napcat_ready: false,
            wait_port: 0,
            wait_timeout: 0,
            wait_for: first,
            bat: String::new(),
            wait_error: String::new(),
            pending: op,
        }
    }


    /// The current state of the run.
    pub fn phase(&self) -> (r: ServicePhase)
        ensures
            r == self@.phase,
    {
        self.phase
    }

    fn ask(&mut self, ph: ServicePhase, op: ServiceOp)
        ensures
            final(self)@ == sask(old(self)@, ph, op@),
    {
        self.phase = ph;
        self.pending = op;
    }

    fn begin_service(&mut self, c: Child)
        ensures
            final(self)@ == begin_service(old(self)@, c),
    {
        match c {
            Child::Redis => self.ask(ServicePhase::RedisPortCheck, ServiceOp::PortOpen { port: 6379, timeout_ms: 200 }),
            Child::Yunzai => {
                let p = self.paths.yunzai_node.clone();
                self.ask(ServicePhase::YunzaiNode, ServiceOp::PathExists(p));
            },
            Child::Napcat => {
                let d = self.paths.napcat_dir.clone();
                self.ask(ServicePhase::NapcatBat, ServiceOp::FileInDir { dir: d, name: String::from_str("launcher.bat") });
            },
        }
    }

    fn service_up(&mut self, c: Child)
        ensures
            final(self)@ == service_up(old(self)@, c),
    {
        match c {
            Child::Redis => self.redis_ready = true,
            Child::Yunzai => self.yunzai_ready = true,
            Child::Napcat => self.napcat_ready = true,
        }
        if c == self.last {
            self.ask(ServicePhase::Finished, ServiceOp::Finish(Ok(())));
        } else {
            let n = match c {
                Child::Redis => Child::Yunzai,
                _ => Child::Napcat,
            };
            self.begin_service(n);
        }
    }

    fn begin_wait(&mut self, port: u16, timeout_ms: u64, c: Child)
        ensures
            final(self)@ == begin_wait(old(self)@, port, timeout_ms, c),
    {
        self.wait_port = port;
        self.wait_timeout = timeout_ms;
        self.wait_for = c;
        self.ask(ServicePhase::WaitStart, ServiceOp::StartWait);
    }

    fn finish_err(&mut self, m: String)
        ensures
            final(self)@ == sfinish(old(self)@, Err(m@)),
    {
        self.ask(ServicePhase::Finished, ServiceOp::Finish(Err(m)));
    }

    fn advance_wait(&mut self, e: &ServiceEvent)
        requires
            is_wait_phase(old(self)@.phase),
        ensures
            final(self)@ == wait_next(old(self)@, e@),
    {
        match (self.phase, e) {
            (ServicePhase::WaitStart, ServiceEvent::Ack) => self.ask(ServicePhase::WaitElapsed, ServiceOp::Elapsed),
            (ServicePhase::WaitElapsed, ServiceEvent::ElapsedMs(t)) => {
                if *t >= self.wait_timeout {
                    let m = port_timeout_message(self.wait_port, self.wait_timeout);
                    match self.wait_for {
                        Child::Redis => self.finish_err(m),
                        Child::Yunzai => {
                            self.wait_error = m;
                            self.ask(ServicePhase::YunzaiDate, ServiceOp::Today);
                        },
                        Child::Napcat => {
                            let m2 = concat2("NapCat 启动后未在 6099 端口监听 (WebUI 准备超时): ", m.as_str());
                            self.finish_err(m2);
                        },
                    }
                } else {
                    let port = self.wait_port;
                    self.ask(ServicePhase::WaitConnect, ServiceOp::PortOpen { port, timeout_ms: 150 });
                }
            },
            (ServicePhase::WaitConnect, ServiceEvent::Bool(b)) => {
                if *b {
                    match self.wait_for {
                        Child::Napcat => self.ask(ServicePhase::NapcatSettle, ServiceOp::Sleep(500)),
                        c => self.service_up(c),
                    }
                } else {
                    self.ask(ServicePhase::WaitSleep, ServiceOp::Sleep(200));
                }
            },
            (ServicePhase::WaitSleep, ServiceEvent::Ack) => self.ask(ServicePhase::WaitElapsed, ServiceOp::Elapsed),
            _ => {},
        }
    }

    fn advance_stop(&mut self, e: &ServiceEvent)
        requires
            is_stop_phase(old(self)@.phase),
        ensures
            final(self)@ == stop_next(old(self)@, e@),
    {
        match (self.phase, e) {
            (ServicePhase::StopReadNapcat, ServiceEvent::Pid(p)) => match p {
                Some(pid) => self.ask(ServicePhase::StopKillNapcat, ServiceOp::KillPid(*pid)),
                None => self.ask(ServicePhase::StopListNapcat, ServiceOp::ListProcesses),
            },
            (ServicePhase::StopKillNapcat, ServiceEvent::Bool(_)) =>
                self.ask(ServicePhase::StopListNapcat, ServiceOp::ListProcesses),
            (ServicePhase::StopListNapcat, ServiceEvent::Processes(ps)) => {
                let v = pids_named(ps, "NapCatWinBootMain.exe");
                self.ask(ServicePhase::StopKillNapcatByName, ServiceOp::KillPids(v));
            },
            (ServicePhase::StopKillNapcatByName, ServiceEvent::Count(_)) =>
                self.ask(ServicePhase::StopListQq, ServiceOp::ListProcesses),
            (ServicePhase::StopListQq, ServiceEvent::Processes(ps)) => {
                let v = pids_named(ps, "QQ.exe");
                self.ask(ServicePhase::StopKillQq, ServiceOp::KillPids(v));
            },
            (ServicePhase::StopKillQq, ServiceEvent::Count(_)) =>
                self.ask(ServicePhase::StopReadYunzai, ServiceOp::ReadChildPid(Child::Yunzai)),
            (ServicePhase::StopReadYunzai, ServiceEvent::Pid(p)) => match p {
                Some(pid) => self.ask(ServicePhase::StopKillYunzai, ServiceOp::KillPid(*pid)),
                None => self.ask(ServicePhase::StopListCmd, ServiceOp::ListProcesses),
            },
            (ServicePhase::StopKillYunzai, ServiceEvent::Bool(_)) =>
                self.ask(ServicePhase::StopListCmd, ServiceOp::ListProcesses),
            (ServicePhase::StopListCmd, ServiceEvent::Processes(ps)) => {
                let v = pids_with_cmdline(ps, "node.exe", "app.js");
                self.ask(ServicePhase::StopKillCmd, ServiceOp::KillPids(v));
            },
            (ServicePhase::StopKillCmd, ServiceEvent::Count(_)) =>
                self.ask(ServicePhase::StopClearRedis, ServiceOp::SetChildPid(Child::Redis, None)),
            (ServicePhase::StopClearRedis, ServiceEvent::Ack) =>
                self.ask(ServicePhase::StopClearYunzai, ServiceOp::SetChildPid(Child::Yunzai, None)),
            (ServicePhase::StopClearYunzai, ServiceEvent::Ack) =>
                self.ask(ServicePhase::StopClearNapcat, ServiceOp::SetChildPid(Child::Napcat, None)),
            (ServicePhase::StopClearNapcat, ServiceEvent::Ack) =>
                self.ask(ServicePhase::Finished, ServiceOp::Finish(Ok(()))),
            _ => {},
        }
    }

    #[verifier::rlimit(50)]
    fn advance_start(&mut self, e: &ServiceEvent)
        requires
            !is_wait_phase(old(self)@.phase),
            !is_stop_phase(old(self)@.phase),
        ensures
            final(self)@ == start_next(old(self)@, e@),
    {
        match (self.phase, e) {
            (ServicePhase::RedisPortCheck, ServiceEvent::Bool(b)) => {
                if *b {
                    self.service_up(Child::Redis);
                } else {
                    let p = self.paths.redis_exe.clone();
                    self.ask(ServicePhase::RedisExe, ServiceOp::PathExists(p));
                }
            },
            (ServicePhase::RedisExe, ServiceEvent::Bool(b)) => {
                if *b {
                    let p = self.paths.redis_conf.clone();
                    self.ask(ServicePhase::RedisConf, ServiceOp::PathExists(p));
                } else {
                    let m = concat2("redis-server.exe 不存在: ", self.paths.redis_exe.as_str());
                    self.finish_err(m);
                }
            },
            (ServicePhase::RedisConf, ServiceEvent::Bool(b)) => {
                if *b {
                    let p = self.paths.redis_exe.clone();
                    self.ask(ServicePhase::RedisPidFile, ServiceOp::RemoveStalePidFile(p));
                } else {
                    let m = concat2("redis.conf 不存在: ", self.paths.redis_conf.as_str());
                    self.finish_err(m);
                }
            },
            (ServicePhase::RedisPidFile, ServiceEvent::Ack) => {
                let c = redis_cmd(&self.paths);
                self.ask(ServicePhase::RedisSpawn, ServiceOp::Spawn(c));
            },
            (ServicePhase::RedisSpawn, ServiceEvent::Spawned(r)) => match r {
                Ok(pid) => self.ask(ServicePhase::RedisRecord, ServiceOp::SetChildPid(Child::Redis, Some(*pid))),
                Err(x) => {
                    let m = concat2("启动 Redis 失败: ", x.as_str());
                    self.finish_err(m);
                },
            },
            (ServicePhase::RedisRecord, ServiceEvent::Ack) => self.begin_wait(6379, 5000, Child::Redis),
            (ServicePhase::YunzaiNode, ServiceEvent::Bool(b)) => {
                if *b {
                    let p = self.paths.yunzai_dir.clone();
                    self.ask(ServicePhase::YunzaiDir, ServiceOp::PathExists(p));
                } else {
                    let m = concat3("node.exe 不存在: ", self.paths.yunzai_node.as_str(), " (检查 nvm 路径或配置)");
                    self.finish_err(m);
                }
            },
            (ServicePhase::YunzaiDir, ServiceEvent::Bool(b)) => {
                if *b {
                    let d = self.paths.yunzai_dir.clone();
                    self.ask(ServicePhase::YunzaiAppJs, ServiceOp::FileInDir { dir: d, name: String::from_str("app.js") });
                } else {
                    let m = concat2("Yunzai 目录不存在: ", self.paths.yunzai_dir.as_str());
                    self.finish_err(m);
                }
            },
            (ServicePhase::YunzaiAppJs, ServiceEvent::Located { exists, display }) => {
                if *exists {
                    let c = yunzai_cmd(&self.paths);
                    self.ask(ServicePhase::YunzaiSpawn, ServiceOp::Spawn(c));
                } else {
                    let m = concat2("Yunzai 入口 app.js 不存在,目录不对: ", self.paths.yunzai_dir.as_str());
                    self.finish_err(m);
                }
            },
            (ServicePhase::YunzaiSpawn, ServiceEvent::Spawned(r)) => match r {
                Ok(pid) => self.ask(ServicePhase::YunzaiRecord, ServiceOp::SetChildPid(Child::Yunzai, Some(*pid))),
                Err(x) => {
                    let m = concat2("启动 Yunzai 失败: ", x.as_str());
                    self.finish_err(m);
                },
            },
            (ServicePhase::YunzaiRecord, ServiceEvent::Ack) => self.begin_wait(2536, 15000, Child::Yunzai),
            (ServicePhase::YunzaiDate, ServiceEvent::Date(d)) => {
                let mut m = concat3("Yunzai 启动后未在 2536 端口监听 (检查 logs/command.", d.as_str(), ".log): ");
                m.append(self.wait_error.as_str());
                self.finish_err(m);
            },
            (ServicePhase::NapcatBat, ServiceEvent::Located { exists, display }) => {
                if *exists {
                    self.bat = display.clone();
                    let c = napcat_cmd(&self.paths, &self.bat);
                    self.ask(ServicePhase::NapcatSpawn, ServiceOp::Spawn(c));
                } else {
                    let m = concat2("NapCat launcher.bat 不存在: ", display.as_str());
                    self.finish_err(m);
                }
            },
            (ServicePhase::NapcatSpawn, ServiceEvent::Spawned(r)) => match r {
                Ok(pid) => self.ask(ServicePhase::NapcatRecord, ServiceOp::SetChildPid(Child::Napcat, Some(*pid))),
                Err(x) => {
                    let m = concat2("启动 NapCat 失败: ", x.as_str());
                    self.finish_err(m);
                },
            },
            (ServicePhase::NapcatRecord, ServiceEvent::Ack) => self.begin_wait(6099, 30000, Child::Napcat),
            (ServicePhase::NapcatSettle, ServiceEvent::Ack) => self.ask(ServicePhase::NapcatList, ServiceOp::ListProcesses),
            (ServicePhase::NapcatList, ServiceEvent::Processes(ps)) => {
                match find_pid(ps, "NapCatWinBootMain.exe") {
                    Some(pid) => {
                        proof {
                            let nm = "NapCatWinBootMain.exe"@;
                            let j = choose|j: int| #[trigger] first_named(ps@, j, nm) && ps@[j].pid == pid;
                            assert(0 <= j < ps@.len() && name_matches(ps@[j], nm));
                            let i = choose|i: int| #[trigger] first_named(ps@, i, nm);
                            lemma_first_unique(ps@, nm, i, j);
                        }
                        self.ask(ServicePhase::NapcatRecordMain, ServiceOp::SetChildPid(Child::Napcat, Some(pid)));
                    },
                    None => self.service_up(Child::Napcat),
                }
            },
            (ServicePhase::NapcatRecordMain, ServiceEvent::Ack) => self.service_up(Child::Napcat),
            _ => {},
        }
    }

    /// The next state for the host's report `e`, and the operation to perform next.
    pub fn advance(&mut self, e: ServiceEvent) -> (op: ServiceOp)
        ensures
            final(self)@ == service_next(old(self)@, e@),
            service_wf(old(self)@) ==> service_wf(final(self)@),
            op@ == final(self)@.pending,
    {
        proof {
            if service_wf(self@) {
                law_service_wf_preserved(self@, e@);
            }
        }
        if self.phase == ServicePhase::WaitStart || self.phase == ServicePhase::WaitElapsed
            || self.phase == ServicePhase::WaitConnect || self.phase == ServicePhase::WaitSleep {
            self.advance_wait(&e);
        } else if is_stop(self.phase) {
            self.advance_stop(&e);
        } else {
            self.advance_start(&e);
        }
        self.pending.copy()
    }
}

fn is_stop(ph: ServicePhase) -> (r: bool)
    ensures
        r == is_stop_phase(ph),
{
    match ph {
        ServicePhase::StopReadNapcat | ServicePhase::StopKillNapcat | ServicePhase::StopListNapcat
        | ServicePhase::StopKillNapcatByName | ServicePhase::StopListQq | ServicePhase::StopKillQq
        | ServicePhase::StopReadYunzai | ServicePhase::StopKillYunzai | ServicePhase::StopListCmd
        | ServicePhase::StopKillCmd | ServicePhase::StopClearRedis | ServicePhase::StopClearYunzai
        | ServicePhase::StopClearNapcat => true,
        _ => false,
    }
}

fn start_run(paths: AppPaths, first: Child, last: Child) -> (r: (ServiceRun, ServiceOp))
    ensures
        r.0@ == start_initial(paths, first, last),
        r.1@ == r.0@.pending,
{
    let mut run = ServiceRun::fresh(paths, false, first, last, ServicePhase::Finished, ServiceOp::Finish(Ok(())));
    run.begin_service(first);
    let op = run.pending.copy();
    (run, op)
}

/// `start_redis`: a run that starts Redis alone.
pub fn start_redis(paths: AppPaths) -> (r: (ServiceRun, ServiceOp))
    ensures
        r.0@ == start_initial(paths, Child::Redis, Child::Redis),
        service_wf(r.0@),
        r.1@ == r.0@.pending,
{
    start_run(paths, Child::Redis, Child::Redis)
}

/// `start_yunzai`: a run that starts Yunzai alone.
pub fn start_yunzai(paths: AppPaths) -> (r: (ServiceRun, ServiceOp))
    ensures
        r.0@ == start_initial(paths, Child::Yunzai, Child::Yunzai),
        service_wf(r.0@),
        r.1@ == r.0@.pending,
{
    start_run(paths, Child::Yunzai, Child::Yunzai)
}

/// `start_napcat`: a run that starts NapCat alone.
pub fn start_napcat(paths: AppPaths) -> (r: (ServiceRun, ServiceOp))
    ensures
        r.0@ == start_initial(paths, Child::Napcat, Child::Napcat),
        service_wf(r.0@),
        r.1@ == r.0@.pending,
{
    start_run(paths, Child::Napcat, Child::Napcat)
}

/// `start_all`: Redis, then Yunzai, then NapCat.
pub fn start_all(paths: AppPaths) -> (r: (ServiceRun, ServiceOp))
    ensures
        r.0@ == start_initial(paths, Child::Redis, Child::Napcat),
        service_wf(r.0@),
        r.1@ == r.0@.pending,
{
    start_run(paths, Child::Redis, Child::Napcat)
}

/// `stop_bot`: stop NapCat, QQ and Yunzai; Redis keeps running.
pub fn stop_bot(paths: AppPaths) -> (r: (ServiceRun, ServiceOp))
    ensures
        r.0@ == stop_initial(paths),
        service_wf(r.0@),
        r.1@ == r.0@.pending,
{
    let run = ServiceRun::fresh(
        paths,
        true,
        Child::Redis,
        Child::Napcat,
        ServicePhase::StopReadNapcat,
        ServiceOp::ReadChildPid(Child::Napcat),
    );
    (run, ServiceOp::ReadChildPid(Child::Napcat))
}

} // verus!

verus! {

// ---------------------------------------------------------------- laws

pub open spec fn ready(s: ServiceRunView, c: Child) -> bool {
    match c {
        Child::Redis => s.redis_ready,
        Child::Yunzai => s.yunzai_ready,
        Child::Napcat => s.napcat_ready,
    }
}

/// The service a start-phase is about.
pub open spec fn current(s: ServiceRunView) -> Child {
    match s.phase {
        ServicePhase::RedisPortCheck | ServicePhase::RedisExe | ServicePhase::RedisConf | ServicePhase::RedisPidFile
        | ServicePhase::RedisSpawn | ServicePhase::RedisRecord => Child::Redis,
        ServicePhase::YunzaiNode | ServicePhase::YunzaiDir | ServicePhase::YunzaiAppJs | ServicePhase::YunzaiSpawn
        | ServicePhase::YunzaiRecord | ServicePhase::YunzaiDate => Child::Yunzai,
        ServicePhase::NapcatBat | ServicePhase::NapcatSpawn | ServicePhase::NapcatRecord | ServicePhase::NapcatSettle
        | ServicePhase::NapcatList | ServicePhase::NapcatRecordMain => Child::Napcat,
        _ => s.wait_for,
    }
}

pub open spec fn port_of(c: Child) -> u16 {
    match c {
        Child::Redis => 6379,
        Child::Yunzai => 2536,
        Child::Napcat => 6099,
    }
}

pub open spec fn timeout_of(c: Child) -> u64 {
    match c {
        Child::Redis => 5000,
        Child::Yunzai => 15000,
        Child::Napcat => 30000,
    }
}

/// Every service of the plan before `c` is up.
pub open spec fn earlier_ready(s: ServiceRunView, c: Child) -> bool {
    &&& (ord(s.first) <= 0 && 0 < ord(c) ==> s.redis_ready)
    &&& (ord(s.first) <= 1 && 1 < ord(c) ==> s.yunzai_ready)
}

/// The pending operation is the one the phase waits for.
pub open spec fn pending_fits(s: ServiceRunView) -> bool {
    let p = s.paths;
    match s.phase {
        ServicePhase::RedisPortCheck => s.pending == ServiceOpView::PortOpen { port: 6379, timeout_ms: 200 },
        ServicePhase::RedisExe => s.pending == ServiceOpView::PathExists(p.redis_exe@),
        ServicePhase::RedisConf => s.pending == ServiceOpView::PathExists(p.redis_conf@),
        ServicePhase::RedisPidFile => s.pending == ServiceOpView::RemoveStalePidFile(p.redis_exe@),
        ServicePhase::RedisSpawn => s.pending == ServiceOpView::Spawn(redis_command(p)),
        ServicePhase::RedisRecord => s.pending matches ServiceOpView::SetChildPid(Child::Redis, Some(_)),
        ServicePhase::YunzaiNode => s.pending == ServiceOpView::PathExists(p.yunzai_node@),
        ServicePhase::YunzaiDir => s.pending == ServiceOpView::PathExists(p.yunzai_dir@),
        ServicePhase::YunzaiAppJs => s.pending is FileInDir,
        ServicePhase::YunzaiSpawn => s.pending == ServiceOpView::Spawn(yunzai_command(p)),
        ServicePhase::YunzaiRecord => s.pending matches ServiceOpView::SetChildPid(Child::Yunzai, Some(_)),
        ServicePhase::YunzaiDate => s.pending == ServiceOpView::Today,
        ServicePhase::NapcatBat => s.pending is FileInDir,
        ServicePhase::NapcatSpawn => s.pending == ServiceOpView::Spawn(napcat_command(p, s.bat)),
        ServicePhase::NapcatRecord => s.pending matches ServiceOpView::SetChildPid(Child::Napcat, Some(_)),
        ServicePhase::NapcatSettle => s.pending == ServiceOpView::Sleep(500),
        ServicePhase::NapcatList => s.pending == ServiceOpView::ListProcesses,
        ServicePhase::NapcatRecordMain => s.pending matches ServiceOpView::SetChildPid(Child::Napcat, Some(_)),
        ServicePhase::WaitStart => s.pending == ServiceOpView::StartWait,
        ServicePhase::WaitElapsed => s.pending == ServiceOpView::Elapsed,
        ServicePhase::WaitConnect => s.pending == ServiceOpView::PortOpen { port: s.wait_port, timeout_ms: 150 },
        ServicePhase::WaitSleep => s.pending == ServiceOpView::Sleep(200),
        ServicePhase::StopReadNapcat => s.pending == ServiceOpView::ReadChildPid(Child::Napcat),
        ServicePhase::StopKillNapcat => s.pending is KillPid,
        ServicePhase::StopListNapcat => s.pending == ServiceOpView::ListProcesses,
        ServicePhase::StopKillNapcatByName => s.pending is KillPids,
        ServicePhase::StopListQq => s.pending == ServiceOpView::ListProcesses,
        ServicePhase::StopKillQq => s.pending is KillPids,
        ServicePhase::StopReadYunzai => s.pending == ServiceOpView::ReadChildPid(Child::Yunzai),
        ServicePhase::StopKillYunzai => s.pending is KillPid,
        ServicePhase::StopListCmd => s.pending == ServiceOpView::ListProcesses,
        ServicePhase::StopKillCmd => s.pending is KillPids,
        ServicePhase::StopClearRedis => s.pending == ServiceOpView::SetChildPid(Child::Redis, None),
        ServicePhase::StopClearYunzai => s.pending == ServiceOpView::SetChildPid(Child::Yunzai, None),
        ServicePhase::StopClearNapcat => s.pending == ServiceOpView::SetChildPid(Child::Napcat, None),
        ServicePhase::Finished => s.pending is Finish,
    }
}

/// The shape of every reachable start or stop state.
pub open spec fn service_wf(s: ServiceRunView) -> bool {
    &&& pending_fits(s)
    &&& ord(s.first) <= ord(s.last)
    &&& !s.stopping ==> !is_stop_phase(s.phase)
    &&& s.stopping ==> (is_stop_phase(s.phase) || s.phase is Finished)
    &&& (!s.stopping && !(s.phase is Finished)) ==> {
        &&& ord(s.first) <= ord(current(s)) <= ord(s.last)
        &&& earlier_ready(s, current(s))
    }
    &&& is_wait_phase(s.phase) ==> s.wait_port == port_of(s.wait_for) && s.wait_timeout == timeout_of(s.wait_for)
    &&& (!s.stopping && s.phase is Finished && s.pending == ServiceOpView::Finish(Ok(()))) ==> {
        &&& earlier_ready(s, s.last)
        &&& ready(s, s.last)
    }
    &&& s.phase is Finished ==> s.pending is Finish
}

/// A new start run of `first..=last` is well formed.
pub proof fn law_start_initial_wf(paths: AppPaths, first: Child, last: Child)
    requires
        ord(first) <= ord(last),
    ensures
        service_wf(start_initial(paths, first, last)),
{
}

/// A new stop run is well formed.
pub proof fn law_stop_initial_wf(paths: AppPaths)
    ensures
        service_wf(stop_initial(paths)),
{
}

/// Every step keeps a run well formed: in particular a start run only ever
/// works on a service once all services before it in the plan are up, and it
/// ends successfully only once every planned service is up.
pub proof fn law_service_wf_preserved(s: ServiceRunView, e: ServiceEventView)
    requires
        service_wf(s),
    ensures
        service_wf(service_next(s, e)),
{
}

/// A start run that ended successfully has every planned service up.
pub proof fn law_start_success_all_up(s: ServiceRunView, c: Child)
    requires
        service_wf(s),
        !s.stopping,
        s.phase == ServicePhase::Finished,
        s.pending == ServiceOpView::Finish(Ok(())),
        ord(s.first) <= ord(c) <= ord(s.last),
    ensures
        ready(s, c),
{
}

/// The strict start order: Yunzai is spawned only once Redis is up (when the
/// run started Redis), and NapCat only once Yunzai is up (and Redis, when
/// the run started them).
pub proof fn law_start_order(s: ServiceRunView, e: ServiceEventView)
    requires
        service_wf(s),
    ensures
        ({
            let t = service_next(s, e);
            &&& (t.phase == ServicePhase::YunzaiSpawn && t.first == Child::Redis) ==> t.redis_ready
            &&& t.phase == ServicePhase::NapcatSpawn ==> {
                &&& ord(t.first) <= 1 ==> t.yunzai_ready
                &&& t.first == Child::Redis ==> t.redis_ready
            }
            &&& (t.pending is Spawn && !t.stopping) ==> t.pending == (match t.phase {
                ServicePhase::RedisSpawn => ServiceOpView::Spawn(redis_command(t.paths)),
                ServicePhase::YunzaiSpawn => ServiceOpView::Spawn(yunzai_command(t.paths)),
                _ => ServiceOpView::Spawn(napcat_command(t.paths, t.bat)),
            })
        }),
{
    law_service_wf_preserved(s, e);
}

/// A service counts as up only after its port accepted a connection: Redis
/// when its port-6379 probe or wait succeeded, Yunzai when the wait on port
/// 2536 succeeded; NapCat once its process was looked for, which only
/// follows a successful wait on port 6099 (`law_napcat_after_port`).
pub proof fn law_up_means_listening(s: ServiceRunView, e: ServiceEventView, c: Child)
    requires
        service_wf(s),
        !ready(s, c),
        ready(service_next(s, e), c),
    ensures
        c != Child::Napcat ==> e == ServiceEventView::Bool(true) && (
            (s.phase == ServicePhase::WaitConnect && s.wait_for == c && s.wait_port == port_of(c))
            || (c == Child::Redis && s.phase == ServicePhase::RedisPortCheck)),
        c == Child::Napcat ==> (s.phase == ServicePhase::NapcatList || s.phase == ServicePhase::NapcatRecordMain),
{
}

/// The NapCat process is looked for only after port 6099 listened: the
/// settling pause is entered only from a successful wait on 6099, the
/// process listing only from the pause, the pid record only from the listing.
pub proof fn law_napcat_after_port(s: ServiceRunView, e: ServiceEventView)
    requires
        service_wf(s),
    ensures
        ({
            let t = service_next(s, e);
            &&& (t.phase == ServicePhase::NapcatSettle && s.phase != ServicePhase::NapcatSettle) ==> {
                &&& s.phase == ServicePhase::WaitConnect
                &&& e == ServiceEventView::Bool(true)
                &&& s.wait_for == Child::Napcat
                &&& s.wait_port == 6099
            }
            &&& (t.phase == ServicePhase::NapcatList && s.phase != ServicePhase::NapcatList)
                ==> s.phase == ServicePhase::NapcatSettle
            &&& (t.phase == ServicePhase::NapcatRecordMain && s.phase != ServicePhase::NapcatRecordMain)
                ==> s.phase == ServicePhase::NapcatList
        }),
{
}

/// Stopping spares Redis: a stop run never reads Redis's pid, never starts
/// anything, only clears recorded pids, and kills exactly the processes its
/// selections name in the list just reported; it ends only after clearing
/// NapCat's pid, the last of the three.
pub proof fn law_stop_spares_redis(s: ServiceRunView, e: ServiceEventView)
    requires
        service_wf(s),
        s.stopping,
    ensures
        ({
            let t = service_next(s, e);
            &&& t.stopping
            &&& t.pending != ServiceOpView::ReadChildPid(Child::Redis)
            &&& !(t.pending is Spawn)
            &&& !(t.pending is PortOpen)
            &&& (t.pending matches ServiceOpView::SetChildPid(_, x) ==> x is None)
            &&& (t.pending is KillPids && t != s) ==> (e matches ServiceEventView::Processes(ps) && (
                t.pending == ServiceOpView::KillPids(pids_where(ps, |p: ProcessEntry| name_matches(p, "NapCatWinBootMain.exe"@)))
                || t.pending == ServiceOpView::KillPids(pids_where(ps, |p: ProcessEntry| name_matches(p, "QQ.exe"@)))
                || t.pending == ServiceOpView::KillPids(pids_where(ps, |p: ProcessEntry| sweep_matches(p, "node.exe"@, "app.js"@)))))
            &&& (t.phase is Finished && !(s.phase is Finished)) ==> s.phase == ServicePhase::StopClearNapcat
        }),
{
}

/// The programs a start run spawns: Redis is `redis_exe` with exactly the
/// configuration file `redis_conf` as its argument; Yunzai is `yunzai_node`
/// running `app.js` in the Yunzai directory with `FORCE_COLOR=0`; NapCat is
/// `cmd.exe /c <launcher.bat>` in the NapCat directory. All start without a
/// console window, and the configured paths never change during a run.
pub proof fn law_spawn_commands(s: ServiceRunView, e: ServiceEventView)
    requires
        service_wf(s),
    ensures
        ({
            let t = service_next(s, e);
            let p = t.paths;
            &&& t.paths == s.paths
            &&& t.stopping ==> !(t.pending is Spawn)
            &&& t.pending matches ServiceOpView::Spawn(c) ==> {
                &&& c.hide_window
                &&& t.phase == ServicePhase::RedisSpawn ==> {
                    &&& c.program == p.redis_exe@
                    &&& c.args == seq![p.redis_conf@]
                    &&& c.cwd is None
                    &&& c.env == Seq::<(Seq<char>, Seq<char>)>::empty()
                }
                &&& t.phase == ServicePhase::YunzaiSpawn ==> {
                    &&& c.program == p.yunzai_node@
                    &&& c.args == seq!["app.js"@]
                    &&& c.cwd == Some(p.yunzai_dir@)
                    &&& c.env == seq![("FORCE_COLOR"@, "0"@)]
                }
                &&& t.phase == ServicePhase::NapcatSpawn ==> {
                    &&& c.program == "cmd.exe"@
                    &&& c.args == seq!["/c"@, t.bat]
                    &&& c.cwd == Some(p.napcat_dir@)
                }
                &&& (t.phase == ServicePhase::RedisSpawn || t.phase == ServicePhase::YunzaiSpawn
                    || t.phase == ServicePhase::NapcatSpawn)
            }
        }),
{
    law_service_wf_preserved(s, e);
}

/// Redis is spawned only after its executable and then its configuration
/// file were found: the spawn follows the stale-pid cleanup, which follows a
/// successful check of `redis_conf`, which follows a successful check of
/// `redis_exe`.
pub proof fn law_redis_checked_before_spawn(s: ServiceRunView, e: ServiceEventView)
    requires
        service_wf(s),
    ensures
        ({
            let t = service_next(s, e);
            &&& (t.phase == ServicePhase::RedisSpawn && s.phase != ServicePhase::RedisSpawn)
                ==> s.phase == ServicePhase::RedisPidFile && s.pending == ServiceOpView::RemoveStalePidFile(s.paths.redis_exe@)
            &&& (t.phase == ServicePhase::RedisPidFile && s.phase != ServicePhase::RedisPidFile)
                ==> s.phase == ServicePhase::RedisConf && e == ServiceEventView::Bool(true)
                    && s.pending == ServiceOpView::PathExists(s.paths.redis_conf@)
            &&& (t.phase == ServicePhase::RedisConf && s.phase != ServicePhase::RedisConf)
                ==> s.phase == ServicePhase::RedisExe && e == ServiceEventView::Bool(true)
                    && s.pending == ServiceOpView::PathExists(s.paths.redis_exe@)
        }),
{
}

/// The stop sequence runs in a fixed order whatever the kills report: after
/// the recorded NapCat pid is read (and killed, whether or not that worked)
/// every `NapCatWinBootMain.exe` of a fresh process list is killed, then every
/// `QQ.exe`, then the recorded Yunzai pid is read (and killed), then every
/// `node.exe` running `app.js`, then the three recorded pids are cleared.
/// Each phase is entered only from the one before it.
pub proof fn law_stop_order(s: ServiceRunView, e: ServiceEventView)
    requires
        service_wf(s),
        s.stopping,
    ensures
        ({
            let t = service_next(s, e);
            let entered = |ph: ServicePhase| t.phase == ph && s.phase != ph;
            &&& (s.phase == ServicePhase::StopKillNapcat && e is Bool)
                ==> t.phase == ServicePhase::StopListNapcat && t.pending == ServiceOpView::ListProcesses
            &&& (s.phase == ServicePhase::StopReadNapcat && e == ServiceEventView::Pid(None))
                ==> t.phase == ServicePhase::StopListNapcat && t.pending == ServiceOpView::ListProcesses
            &&& s.phase == ServicePhase::StopReadNapcat
                ==> (e matches ServiceEventView::Pid(Some(pid)) ==> t.pending == ServiceOpView::KillPid(pid))
            &&& entered(ServicePhase::StopListNapcat)
                ==> s.phase == ServicePhase::StopReadNapcat || s.phase == ServicePhase::StopKillNapcat
            &&& entered(ServicePhase::StopKillNapcatByName) ==> s.phase == ServicePhase::StopListNapcat
                && (e matches ServiceEventView::Processes(ps) && t.pending == ServiceOpView::KillPids(
                    pids_where(ps, |p: ProcessEntry| name_matches(p, "NapCatWinBootMain.exe"@))))
            &&& entered(ServicePhase::StopListQq) ==> s.phase == ServicePhase::StopKillNapcatByName
            &&& entered(ServicePhase::StopKillQq) ==> s.phase == ServicePhase::StopListQq
                && (e matches ServiceEventView::Processes(ps) && t.pending == ServiceOpView::KillPids(
                    pids_where(ps, |p: ProcessEntry| name_matches(p, "QQ.exe"@))))
            &&& entered(ServicePhase::StopReadYunzai) ==> s.phase == ServicePhase::StopKillQq
                && t.pending == ServiceOpView::ReadChildPid(Child::Yunzai)
            &&& entered(ServicePhase::StopListCmd)
                ==> s.phase == ServicePhase::StopReadYunzai || s.phase == ServicePhase::StopKillYunzai
            &&& (s.phase == ServicePhase::StopKillYunzai && e is Bool) ==> t.phase == ServicePhase::StopListCmd
            &&& entered(ServicePhase::StopKillCmd) ==> s.phase == ServicePhase::StopListCmd
                && (e matches ServiceEventView::Processes(ps) && t.pending == ServiceOpView::KillPids(
                    pids_where(ps, |p: ProcessEntry| name_matches(p, "node.exe"@) && cmd_contains(p, "app.js"@))))
            &&& entered(ServicePhase::StopClearRedis) ==> s.phase == ServicePhase::StopKillCmd
            &&& entered(ServicePhase::StopClearYunzai) ==> s.phase == ServicePhase::StopClearRedis
            &&& entered(ServicePhase::StopClearNapcat) ==> s.phase == ServicePhase::StopClearYunzai
            &&& entered(ServicePhase::Finished) ==> s.phase == ServicePhase::StopClearNapcat
        }),
{
    let t = service_next(s, e);
    if t.phase == ServicePhase::StopKillCmd && s.phase != ServicePhase::StopKillCmd {
        if let ServiceEventView::Processes(ps) = e {
            let f1 = |p: ProcessEntry| sweep_matches(p, "node.exe"@, "app.js"@);
            let f2 = |p: ProcessEntry| name_matches(p, "node.exe"@) && cmd_contains(p, "app.js"@);
            assert(f1 =~= f2);
            assert(pids_where(ps, f1) == pids_where(ps, f2));
        }
    }
}

/// The ports and time limits of the start chain: Redis counts as already
/// running when `127.0.0.1:6379` accepts a connection within 200 ms; after
/// spawning, Redis must listen on 6379 within 5000 ms, Yunzai on 2536 within
/// 15000 ms and NapCat on 6099 within 30000 ms; each wait tries 150 ms
/// connections with 200 ms pauses between them.
pub proof fn law_start_ports(s: ServiceRunView, e: ServiceEventView)
    requires
        service_wf(s),
    ensures
        ({
            let t = service_next(s, e);
            &&& t.phase == ServicePhase::RedisPortCheck ==> t.pending == ServiceOpView::PortOpen { port: 6379, timeout_ms: 200 }
            &&& (t.phase == ServicePhase::WaitStart && s.phase != ServicePhase::WaitStart) ==> {
                &&& s.phase == ServicePhase::RedisRecord ==> t.wait_port == 6379 && t.wait_timeout == 5000
                &&& s.phase == ServicePhase::YunzaiRecord ==> t.wait_port == 2536 && t.wait_timeout == 15000
                &&& s.phase == ServicePhase::NapcatRecord ==> t.wait_port == 6099 && t.wait_timeout == 30000
            }
            &&& t.phase == ServicePhase::WaitConnect ==> t.pending == ServiceOpView::PortOpen { port: t.wait_port, timeout_ms: 150 }
            &&& t.phase == ServicePhase::WaitSleep ==> t.pending == ServiceOpView::Sleep(200)
            &&& (t.phase == ServicePhase::WaitStart && s.phase != ServicePhase::WaitStart)
                ==> s.phase == ServicePhase::RedisRecord || s.phase == ServicePhase::YunzaiRecord
                    || s.phase == ServicePhase::NapcatRecord
        }),
{
    law_service_wf_preserved(s, e);
}

} // verus!
