//! The status the console shows for each service, and the pids of the
//! processes it started.
use vstd::prelude::*;
use crate::process::{
    ProcessEntry, is_running, find_pid, is_running_with_cmdline, find_pid_with_cmdline, name_matches,
    cmdline_matches, is_first_pid, is_first_cmdline_pid,
};
use crate::service::Child;

verus! {

/// Whether a service runs, and its pid.
#[derive(Debug, Clone, Copy, PartialEq, Eq, Structural)]
pub struct ComponentStatus {
    pub running: bool,
    pub pid: Option<u32>,
}

impl Default for ComponentStatus {
    fn default() -> (c: Self)
        ensures
            !c.running && c.pid is None,
    {
        ComponentStatus { running: false, pid: None }
    }
}

/// One status report for the front end.
#[derive(Debug, Clone, Copy, PartialEq, Eq, Structural)]
pub struct StatusSnapshot {
    pub redis: ComponentStatus,
    pub yunzai: ComponentStatus,
    pub napcat: ComponentStatus,
    pub qq: ComponentStatus,
    /// NapCat's WebUI port (6099) accepts connections.
    pub webui_connected: bool,
    /// Yunzai's WebSocket port (2536) accepts connections.
    pub websocket_connected: bool,
    /// When the report was taken, in milliseconds since the Unix epoch.
    pub timestamp: i64,
}

impl Default for StatusSnapshot {
    fn default() -> (s: Self)
        ensures
            !s.redis.running && s.redis.pid is None,
            !s.yunzai.running && s.yunzai.pid is None,
            !s.napcat.running && s.napcat.pid is None,
            !s.qq.running && s.qq.pid is None,
            !s.webui_connected,
            !s.websocket_connected,
            s.timestamp == 0,
    {
        StatusSnapshot {
            redis: ComponentStatus::default(),
            yunzai: ComponentStatus::default(),
            napcat: ComponentStatus::default(),
            qq: ComponentStatus::default(),
            webui_connected: false,
            websocket_connected: false,
            timestamp: 0,
        }
    }
}

/// The pids of the processes the console started, for stopping them precisely.
#[derive(Debug, Clone, Copy, PartialEq, Eq, Structural, Default)]
pub struct ChildPids {
    pub redis: Option<u32>,
    pub yunzai_node: Option<u32>,
    pub napcat_main: Option<u32>,
}

pub open spec fn child_pid(p: ChildPids, c: Child) -> Option<u32> {
    match c {
        Child::Redis => p.redis,
        Child::Yunzai => p.yunzai_node,
        Child::Napcat => p.napcat_main,
    }
}

impl ChildPids {
    /// The recorded pid of a service.
    pub fn get(&self, c: Child) -> (r: Option<u32>)
        ensures
            r == child_pid(*self, c),
    {
        match c {
            Child::Redis => self.redis,
            Child::Yunzai => self.yunzai_node,
            Child::Napcat => self.napcat_main,
        }
    }

    /// Records (or clears) a service's pid; the others stay.
    pub fn set(&mut self, c: Child, pid: Option<u32>)
        ensures
            child_pid(*final(self), c) == pid,
            forall|d: Child| d != c ==> child_pid(*final(self), d) == child_pid(*old(self), d),
    {
        match c {
            Child::Redis => self.redis = pid,
            Child::Yunzai => self.yunzai_node = pid,
            Child::Napcat => self.napcat_main = pid,
        }
    }
}

/// The process lists behind one status report: `poll_process_snapshot`
/// refreshes the process table before each of its eight queries.
pub struct ProcessProbes {
    pub redis_running: Vec<ProcessEntry>,
    pub redis_pid: Vec<ProcessEntry>,
    pub yunzai_running: Vec<ProcessEntry>,
    pub yunzai_pid: Vec<ProcessEntry>,
    pub napcat_running: Vec<ProcessEntry>,
    pub napcat_pid: Vec<ProcessEntry>,
    pub qq_running: Vec<ProcessEntry>,
    pub qq_pid: Vec<ProcessEntry>,
}

pub open spec fn runs(procs: Seq<ProcessEntry>, name: Seq<char>) -> bool {
    exists|i: int| 0 <= i < procs.len() && name_matches(#[trigger] procs[i], name)
}

pub open spec fn runs_with(procs: Seq<ProcessEntry>, name: Seq<char>, needle: Seq<char>) -> bool {
    exists|i: int| 0 <= i < procs.len() && cmdline_matches(#[trigger] procs[i], name, needle)
}

/// `poll_process_snapshot`: Redis is `redis-server.exe`, Yunzai a `node.exe`
/// whose command line mentions `app.js`, NapCat `NapCatWinBootMain.exe`, QQ
/// `QQ.exe`; the WebUI is connected when port 6099 listens, the WebSocket
/// when port 2536 listens.
pub fn poll_process_snapshot(
    probes: &ProcessProbes,
    webui_port_open: bool,
    websocket_port_open: bool,
    timestamp_ms: i64,
) -> (s: StatusSnapshot)
    ensures
        s.redis.running == runs(probes.redis_running@, "redis-server.exe"@),
        is_first_pid(probes.redis_pid@, "redis-server.exe"@, s.redis.pid),
        s.yunzai.running == runs_with(probes.yunzai_running@, "node.exe"@, "app.js"@),
        is_first_cmdline_pid(probes.yunzai_pid@, "node.exe"@, "app.js"@, s.yunzai.pid),
        s.napcat.running == runs(probes.napcat_running@, "NapCatWinBootMain.exe"@),
        is_first_pid(probes.napcat_pid@, "NapCatWinBootMain.exe"@, s.napcat.pid),
        s.qq.running == runs(probes.qq_running@, "QQ.exe"@),
        is_first_pid(probes.qq_pid@, "QQ.exe"@, s.qq.pid),
        s.webui_connected == webui_port_open,
        s.websocket_connected == websocket_port_open,
        s.timestamp == timestamp_ms,
{
    StatusSnapshot {
        redis: ComponentStatus {
            running: is_running(&probes.redis_running, "redis-server.exe"),
            pid: find_pid(&probes.redis_pid, "redis-server.exe"),
        },
        yunzai: ComponentStatus {
            running: is_running_with_cmdline(&probes.yunzai_running, "node.exe", "app.js"),
            pid: find_pid_with_cmdline(&probes.yunzai_pid, "node.exe", "app.js"),
        },
        napcat: ComponentStatus {
            running: is_running(&probes.napcat_running, "NapCatWinBootMain.exe"),
            pid: find_pid(&probes.napcat_pid, "NapCatWinBootMain.exe"),
        },
        qq: ComponentStatus {
            running: is_running(&probes.qq_running, "QQ.exe"),
            pid: find_pid(&probes.qq_pid, "QQ.exe"),
        },
        webui_connected: webui_port_open,
        websocket_connected: websocket_port_open,
        timestamp: timestamp_ms,
    }
}

} // verus!
