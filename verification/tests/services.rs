use yunzai_app::config::AppPaths;
use yunzai_app::process::ProcessEntry;
use yunzai_app::service::{start_all, start_napcat, start_redis, start_yunzai, stop_bot, Child, ServiceEvent, ServiceOp, ServicePhase, ServiceRun};
use yunzai_app::state::ChildPids;

/// A simulated machine for the service runs.
struct Host {
    redis_already_up: bool,
    missing: Vec<String>,
    ports_that_listen: Vec<u16>,
    spawn_error: Option<String>,
    processes: Vec<ProcessEntry>,
    pids: ChildPids,
    elapsed: u64,
    spawned: Vec<String>,
    killed: Vec<u32>,
    log: Vec<String>,
}

impl Host {
    fn new() -> Host {
        Host {
            redis_already_up: false,
            missing: vec![],
            ports_that_listen: vec![6379, 2536, 6099],
            spawn_error: None,
            processes: vec![],
            pids: ChildPids::default(),
            elapsed: 0,
            spawned: vec![],
            killed: vec![],
            log: vec![],
        }
    }

    fn answer(&mut self, op: &ServiceOp) -> ServiceEvent {
        match op {
            ServiceOp::PortOpen { port, timeout_ms } => {
                self.log.push(format!("port {port} {timeout_ms}"));
                if *timeout_ms == 200 {
                    ServiceEvent::Bool(self.redis_already_up)
                } else {
                    ServiceEvent::Bool(self.ports_that_listen.contains(port))
                }
            }
            ServiceOp::PathExists(p) => ServiceEvent::Bool(!self.missing.contains(p)),
            ServiceOp::FileInDir { dir, name } => {
                let display = format!("{dir}\\{name}");
                ServiceEvent::Located { exists: !self.missing.contains(&display), display }
            }
            ServiceOp::RemoveStalePidFile(_) => ServiceEvent::Ack,
            ServiceOp::Spawn(c) => {
                self.spawned.push(c.program.clone());
                match &self.spawn_error {
                    Some(e) => ServiceEvent::Spawned(Err(e.clone())),
                    None => ServiceEvent::Spawned(Ok(100 + self.spawned.len() as u32)),
                }
            }
            ServiceOp::SetChildPid(c, p) => {
                self.pids.set(*c, *p);
                ServiceEvent::Ack
            }
            ServiceOp::ReadChildPid(c) => ServiceEvent::Pid(self.pids.get(*c)),
            ServiceOp::StartWait => {
                self.elapsed = 0;
                ServiceEvent::Ack
            }
            ServiceOp::Elapsed => ServiceEvent::ElapsedMs(self.elapsed),
            ServiceOp::Sleep(ms) => {
                self.elapsed += ms;
                ServiceEvent::Ack
            }
            ServiceOp::Today => ServiceEvent::Date("2024-03-19".to_string()),
            ServiceOp::ListProcesses => ServiceEvent::Processes(self.processes.clone()),
            ServiceOp::KillPid(p) => {
                self.killed.push(*p);
                ServiceEvent::Bool(true)
            }
            ServiceOp::KillPids(v) => {
                self.killed.extend(v.iter().copied());
                ServiceEvent::Count(v.len() as u64)
            }
            ServiceOp::Finish(_) => ServiceEvent::Ack,
        }
    }

    fn run(&mut self, start: (ServiceRun, ServiceOp)) -> (ServiceRun, Result<(), String>) {
        let (mut run, mut op) = start;
        for _ in 0..10_000 {
            if let ServiceOp::Finish(r) = &op {
                let r = match r {
                    Ok(()) => Ok(()),
                    Err(e) => Err(e.clone()),
                };
                return (run, r);
            }
            let e = self.answer(&op);
            op = run.advance(e);
        }
        panic!("the run did not finish");
    }
}

fn entry(pid: u32, exe: &str, cmd: &str) -> ProcessEntry {
    ProcessEntry { pid, exe_name: Some(exe.to_string()), cmd: cmd.to_string() }
}

#[test]
fn start_all_starts_redis_then_yunzai_then_napcat() {
    let paths = AppPaths::default();
    let mut host = Host::new();
    host.processes = vec![entry(4242, "NapCatWinBootMain.exe", "")];
    let (run, r) = host.run(start_all(paths.clone()));
    assert_eq!(r, Ok(()));
    assert_eq!(run.phase(), ServicePhase::Finished);
    assert_eq!(host.spawned, vec![paths.redis_exe.clone(), paths.yunzai_node.clone(), "cmd.exe".to_string()]);
    // The NapCatWinBootMain.exe pid replaces the launcher's.
    assert_eq!(host.pids.get(Child::Napcat), Some(4242));
    assert_eq!(host.pids.get(Child::Redis), Some(101));
    assert_eq!(host.pids.get(Child::Yunzai), Some(102));
    // Each port wait connects with a 150 ms attempt on its port.
    let waits: Vec<&String> = host.log.iter().filter(|l| l.ends_with(" 150")).collect();
    assert_eq!(waits, vec!["port 6379 150", "port 2536 150", "port 6099 150"]);
}

#[test]
fn start_all_keeps_launcher_pid_without_boot_main() {
    let mut host = Host::new();
    let (_, r) = host.run(start_all(AppPaths::default()));
    assert_eq!(r, Ok(()));
    assert_eq!(host.pids.get(Child::Napcat), Some(103));
}

#[test]
fn start_redis_skips_when_port_already_listens() {
    let mut host = Host::new();
    host.redis_already_up = true;
    let (_, r) = host.run(start_redis(AppPaths::default()));
    assert_eq!(r, Ok(()));
    assert!(host.spawned.is_empty());
    assert_eq!(host.pids.get(Child::Redis), None);
}

#[test]
fn start_all_with_running_redis_starts_only_the_others() {
    let paths = AppPaths::default();
    let mut host = Host::new();
    host.redis_already_up = true;
    let (_, r) = host.run(start_all(paths.clone()));
    assert_eq!(r, Ok(()));
    assert_eq!(host.spawned, vec![paths.yunzai_node.clone(), "cmd.exe".to_string()]);
}

#[test]
fn missing_redis_exe_stops_the_chain() {
    let paths = AppPaths::default();
    let mut host = Host::new();
    host.missing = vec![paths.redis_exe.clone()];
    let (_, r) = host.run(start_all(paths.clone()));
    assert_eq!(r, Err(format!("redis-server.exe 不存在: {}", paths.redis_exe)));
    assert!(host.spawned.is_empty());
}

#[test]
fn missing_redis_conf_is_reported() {
    let paths = AppPaths::default();
    let mut host = Host::new();
    host.missing = vec![paths.redis_conf.clone()];
    let (_, r) = host.run(start_redis(paths.clone()));
    assert_eq!(r, Err(format!("redis.conf 不存在: {}", paths.redis_conf)));
}

#[test]
fn redis_spawn_failure_is_reported() {
    let mut host = Host::new();
    host.spawn_error = Some("拒绝访问".to_string());
    let (_, r) = host.run(start_redis(AppPaths::default()));
    assert_eq!(r, Err("启动 Redis 失败: 拒绝访问".to_string()));
}

#[test]
fn redis_port_timeout_message() {
    let mut host = Host::new();
    host.ports_that_listen = vec![];
    let (_, r) = host.run(start_redis(AppPaths::default()));
    assert_eq!(r, Err("端口 6379 在 5000ms 内未监听".to_string()));
    // 5000 ms of 200 ms pauses: 25 attempts.
    assert_eq!(host.elapsed, 5000);
}

#[test]
fn yunzai_missing_node_is_reported() {
    let paths = AppPaths::default();
    let mut host = Host::new();
    host.missing = vec![paths.yunzai_node.clone()];
    let (_, r) = host.run(start_yunzai(paths.clone()));
    assert_eq!(r, Err(format!("node.exe 不存在: {} (检查 nvm 路径或配置)", paths.yunzai_node)));
}

#[test]
fn yunzai_missing_dir_is_reported() {
    let paths = AppPaths::default();
    let mut host = Host::new();
    host.missing = vec![paths.yunzai_dir.clone()];
    let (_, r) = host.run(start_yunzai(paths.clone()));
    assert_eq!(r, Err(format!("Yunzai 目录不存在: {}", paths.yunzai_dir)));
}

#[test]
fn yunzai_missing_app_js_is_reported() {
    let paths = AppPaths::default();
    let mut host = Host::new();
    host.missing = vec![format!("{}\\app.js", paths.yunzai_dir)];
    let (_, r) = host.run(start_yunzai(paths.clone()));
    assert_eq!(r, Err(format!("Yunzai 入口 app.js 不存在,目录不对: {}", paths.yunzai_dir)));
}

#[test]
fn yunzai_spawn_runs_node_app_js_in_its_directory() {
    let paths = AppPaths::default();
    let (mut run, mut op) = start_yunzai(paths.clone());
    let mut host = Host::new();
    loop {
        if let ServiceOp::Spawn(c) = &op {
            assert_eq!(c.program, paths.yunzai_node);
            assert_eq!(c.args, vec!["app.js".to_string()]);
            assert_eq!(c.cwd, Some(paths.yunzai_dir.clone()));
            assert_eq!(c.env, vec![("FORCE_COLOR".to_string(), "0".to_string())]);
            assert!(c.hide_window);
            break;
        }
        let e = host.answer(&op);
        op = run.advance(e);
    }
}

#[test]
fn yunzai_port_timeout_names_the_log_of_the_day() {
    let mut host = Host::new();
    host.ports_that_listen = vec![6379];
    let (_, r) = host.run(start_all(AppPaths::default()));
    assert_eq!(
        r,
        Err("Yunzai 启动后未在 2536 端口监听 (检查 logs/command.2024-03-19.log): 端口 2536 在 15000ms 内未监听".to_string())
    );
    // NapCat is never started after a failure.
    assert_eq!(host.spawned.len(), 2);
}

#[test]
fn napcat_missing_launcher_is_reported() {
    let paths = AppPaths::default();
    let mut host = Host::new();
    host.missing = vec![format!("{}\\launcher.bat", paths.napcat_dir)];
    let (_, r) = host.run(start_napcat(paths.clone()));
    assert_eq!(r, Err(format!("NapCat launcher.bat 不存在: {}\\launcher.bat", paths.napcat_dir)));
}

#[test]
fn napcat_runs_launcher_through_cmd() {
    let paths = AppPaths::default();
    let (mut run, mut op) = start_napcat(paths.clone());
    let mut host = Host::new();
    loop {
        if let ServiceOp::Spawn(c) = &op {
            assert_eq!(c.program, "cmd.exe");
            assert_eq!(c.args, vec!["/c".to_string(), format!("{}\\launcher.bat", paths.napcat_dir)]);
            assert_eq!(c.cwd, Some(paths.napcat_dir.clone()));
            break;
        }
        let e = host.answer(&op);
        op = run.advance(e);
    }
}

#[test]
fn napcat_port_timeout_message() {
    let mut host = Host::new();
    host.ports_that_listen = vec![];
    let (_, r) = host.run(start_napcat(AppPaths::default()));
    assert_eq!(r, Err("NapCat 启动后未在 6099 端口监听 (WebUI 准备超时): 端口 6099 在 30000ms 内未监听".to_string()));
}

#[test]
fn napcat_spawn_failure_is_reported() {
    let mut host = Host::new();
    host.spawn_error = Some("x".to_string());
    let (_, r) = host.run(start_napcat(AppPaths::default()));
    assert_eq!(r, Err("启动 NapCat 失败: x".to_string()));
}

#[test]
fn yunzai_spawn_failure_is_reported() {
    let mut host = Host::new();
    host.spawn_error = Some("y".to_string());
    let (_, r) = host.run(start_yunzai(AppPaths::default()));
    assert_eq!(r, Err("启动 Yunzai 失败: y".to_string()));
}

#[test]
fn unrelated_event_changes_nothing() {
    let (mut run, op) = start_all(AppPaths::default());
    assert!(matches!(op, ServiceOp::PortOpen { port: 6379, timeout_ms: 200 }));
    let op2 = run.advance(ServiceEvent::Count(3));
    assert!(matches!(op2, ServiceOp::PortOpen { port: 6379, timeout_ms: 200 }));
    assert_eq!(run.phase(), ServicePhase::RedisPortCheck);
}

#[test]
fn stop_bot_spares_redis_and_clears_pids() {
    let mut host = Host::new();
    host.pids = ChildPids { redis: Some(11), yunzai_node: Some(22), napcat_main: Some(33) };
    host.processes = vec![
        entry(11, "redis-server.exe", "redis-server.exe redis.conf"),
        entry(33, "NapCatWinBootMain.exe", ""),
        entry(44, "QQ.exe", ""),
        entry(45, "qq.EXE", ""),
        entry(22, "node.exe", "node APP.JS"),
        entry(50, "code.exe", "code app.js"),
    ];
    let (run, r) = host.run(stop_bot(AppPaths::default()));
    assert_eq!(r, Ok(()));
    assert_eq!(run.phase(), ServicePhase::Finished);
    // Recorded NapCat pid, NapCat by name, QQ by name, recorded Yunzai pid, app.js command lines.
    assert_eq!(host.killed, vec![33, 33, 44, 45, 22, 22]);
    assert!(!host.killed.contains(&11));
    assert_eq!(host.pids, ChildPids::default());
    assert!(host.spawned.is_empty());
}

#[test]
fn stop_bot_without_recorded_pids_still_sweeps() {
    let mut host = Host::new();
    host.processes = vec![entry(7, "node.exe", "node app.js"), entry(8, "QQ.exe", "")];
    let (_, r) = host.run(stop_bot(AppPaths::default()));
    assert_eq!(r, Ok(()));
    assert_eq!(host.killed, vec![8, 7]);
}
