use yunzai_app::process::{find_pid, find_pid_with_cmdline, is_running, is_running_with_cmdline, pids_named, pids_with_cmdline, ProcessEntry};
use yunzai_app::service::Child;
use yunzai_app::state::{poll_process_snapshot, ChildPids, ComponentStatus, ProcessProbes, StatusSnapshot};

fn entry(pid: u32, exe: Option<&str>, cmd: &str) -> ProcessEntry {
    ProcessEntry { pid, exe_name: exe.map(|s| s.to_string()), cmd: cmd.to_string() }
}

fn sample() -> Vec<ProcessEntry> {
    vec![
        entry(1, None, "System"),
        entry(10, Some("Redis-Server.EXE"), "redis-server redis.conf"),
        entry(20, Some("node.exe"), "node vite.js"),
        entry(21, Some("node.exe"), "C:\\nvm\\node.exe App.js"),
        entry(22, Some("node.exe"), "node app.js --second"),
        entry(30, Some("QQ.exe"), ""),
    ]
}

#[test]
fn find_pid_ignores_ascii_case_and_takes_the_first() {
    let p = sample();
    assert_eq!(find_pid(&p, "redis-server.exe"), Some(10));
    assert_eq!(find_pid(&p, "NODE.EXE"), Some(20));
    assert_eq!(find_pid(&p, "NapCatWinBootMain.exe"), None);
    assert_eq!(find_pid(&vec![], "QQ.exe"), None);
}

#[test]
fn process_without_executable_name_never_matches() {
    let p = vec![entry(5, None, "QQ.exe")];
    assert_eq!(find_pid(&p, "QQ.exe"), None);
    assert!(!is_running(&p, "QQ.exe"));
}

#[test]
fn is_running_agrees_with_find_pid() {
    let p = sample();
    for name in ["QQ.exe", "node.exe", "redis-server.exe", "missing.exe", ""] {
        assert_eq!(is_running(&p, name), find_pid(&p, name).is_some());
    }
}

#[test]
fn find_pid_with_cmdline_needs_name_and_command_line() {
    let p = sample();
    assert_eq!(find_pid_with_cmdline(&p, "node.exe", "app.js"), Some(21));
    assert_eq!(find_pid_with_cmdline(&p, "node.exe", "APP.JS"), Some(21));
    assert_eq!(find_pid_with_cmdline(&p, "QQ.exe", "app.js"), None);
    assert_eq!(find_pid_with_cmdline(&p, "node.exe", "missing.js"), None);
    // The empty needle is found in every command line.
    assert_eq!(find_pid_with_cmdline(&p, "QQ.exe", ""), Some(30));
    assert!(is_running_with_cmdline(&p, "node.exe", "vite"));
    assert!(!is_running_with_cmdline(&p, "redis-server.exe", "app.js"));
}

#[test]
fn pids_named_lists_every_match_in_order() {
    let p = sample();
    assert_eq!(pids_named(&p, "node.exe"), vec![20, 21, 22]);
    assert_eq!(pids_named(&p, "qq.exe"), vec![30]);
    assert_eq!(pids_named(&p, "none.exe"), Vec::<u32>::new());
}

#[test]
fn pids_with_cmdline_lowercases_the_command_line() {
    let p = sample();
    assert_eq!(pids_with_cmdline(&p, "node.exe", "app.js"), vec![21, 22]);
    // Unicode lower-casing applies to the command line.
    let q = vec![entry(3, Some("node.exe"), "ÄPP.JS"), entry(4, Some("NODE.EXE"), "RUN APP.JS")];
    assert_eq!(pids_with_cmdline(&q, "node.exe", "äpp.js"), vec![3]);
    assert_eq!(pids_with_cmdline(&q, "node.exe", "app.js"), vec![4]);
}

#[test]
fn the_sweep_spares_other_programs() {
    let q = vec![
        entry(5, Some("Code.exe"), "code C:\\bot\\app.js"),
        entry(6, None, "node app.js"),
        entry(7, Some("node.exe"), "node app.js"),
    ];
    assert_eq!(pids_with_cmdline(&q, "node.exe", "app.js"), vec![7]);
}

fn probes(p: Vec<ProcessEntry>) -> ProcessProbes {
    ProcessProbes {
        redis_running: p.clone(),
        redis_pid: p.clone(),
        yunzai_running: p.clone(),
        yunzai_pid: p.clone(),
        napcat_running: p.clone(),
        napcat_pid: p.clone(),
        qq_running: p.clone(),
        qq_pid: p,
    }
}

#[test]
fn snapshot_reports_each_service() {
    let s = poll_process_snapshot(&probes(sample()), true, false, 1_700_000_000_000);
    assert_eq!(s.redis, ComponentStatus { running: true, pid: Some(10) });
    assert_eq!(s.yunzai, ComponentStatus { running: true, pid: Some(21) });
    assert_eq!(s.napcat, ComponentStatus { running: false, pid: None });
    assert_eq!(s.qq, ComponentStatus { running: true, pid: Some(30) });
    assert!(s.webui_connected);
    assert!(!s.websocket_connected);
    assert_eq!(s.timestamp, 1_700_000_000_000);
}

#[test]
fn snapshot_of_an_empty_machine_is_the_default() {
    let s = poll_process_snapshot(&probes(vec![]), false, false, 0);
    assert_eq!(s, StatusSnapshot::default());
    assert_eq!(ComponentStatus::default(), ComponentStatus { running: false, pid: None });
}

#[test]
fn yunzai_needs_app_js_on_the_command_line() {
    let p = vec![entry(20, Some("node.exe"), "node vite.js")];
    let s = poll_process_snapshot(&probes(p), false, true, 5);
    assert!(!s.yunzai.running);
    assert_eq!(s.yunzai.pid, None);
    assert!(s.websocket_connected);
}

#[test]
fn child_pids_read_back_what_was_set() {
    let mut c = ChildPids::default();
    assert_eq!(c.get(Child::Redis), None);
    c.set(Child::Yunzai, Some(7));
    assert_eq!(c.get(Child::Yunzai), Some(7));
    assert_eq!(c.get(Child::Redis), None);
    assert_eq!(c.get(Child::Napcat), None);
    c.set(Child::Napcat, Some(9));
    c.set(Child::Yunzai, None);
    assert_eq!(c, ChildPids { redis: None, yunzai_node: None, napcat_main: Some(9) });
}
