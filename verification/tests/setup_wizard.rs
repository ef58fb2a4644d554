use yunzai_app::host::CommandOutcome;
use yunzai_app::config::AppPaths;
use yunzai_app::setup::{install_single_plugin, run_full_setup, PluginInstall, SetupRun, StepStatus};
use yunzai_app::task::{download_and_extract, SetupEvent, SetupOp};

/// A simulated machine for the setup jobs.
struct Host {
    failing_programs: Vec<String>,
    missing_programs: Vec<String>,
    existing: Vec<String>,
    extract: Result<(), String>,
    webui: Result<String, String>,
    emits: usize,
    runs: Vec<(String, Vec<String>, Option<String>)>,
    removed: Vec<String>,
}

impl Host {
    fn new() -> Host {
        Host {
            failing_programs: vec![],
            missing_programs: vec![],
            existing: vec![],
            extract: Ok(()),
            webui: Ok("R/NapCat/config/webui.json".to_string()),
            emits: 0,
            runs: vec![],
            removed: vec![],
        }
    }

    fn answer(&mut self, op: &SetupOp) -> SetupEvent {
        match op {
            SetupOp::Emit => {
                self.emits += 1;
                SetupEvent::Ack
            }
            SetupOp::Run(c) => {
                self.runs.push((c.program.clone(), c.args.clone(), c.cwd.clone()));
                if self.missing_programs.contains(&c.program) {
                    SetupEvent::Ran(CommandOutcome::SpawnFailed)
                } else {
                    let success = !self.failing_programs.contains(&c.program);
                    SetupEvent::Ran(CommandOutcome::Exited { success, stderr: format!("{} failed", c.program) })
                }
            }
            SetupOp::PathExists(p) => SetupEvent::Exists(self.existing.contains(p)),
            SetupOp::CreateParentDir(_) => SetupEvent::DirCreated(true),
            SetupOp::ExtractNapcat(_) => SetupEvent::Extracted(self.extract.clone()),
            SetupOp::WriteWebuiConfig(_) => SetupEvent::WebuiWritten(self.webui.clone()),
            SetupOp::RemoveFile(p) => {
                self.removed.push(p.clone());
                SetupEvent::Ack
            }
            SetupOp::Finish(_) => SetupEvent::Ack,
        }
    }
}

fn finished(op: &SetupOp) -> Option<Result<(), String>> {
    match op {
        SetupOp::Finish(r) => Some(r.clone()),
        _ => None,
    }
}

fn run_setup(host: &mut Host, dir: &str, plugins: &[&str]) -> (SetupRun, Result<(), String>) {
    let selected: Vec<String> = plugins.iter().map(|s| s.to_string()).collect();
    let (mut run, mut op) = SetupRun::new(dir, &selected);
    for _ in 0..10_000 {
        if let Some(r) = finished(&op) {
            return (run, r);
        }
        let e = host.answer(&op);
        op = run.advance(e);
    }
    panic!("setup did not finish");
}

fn statuses(run: &SetupRun) -> Vec<StepStatus> {
    run.progress().steps.iter().map(|s| s.status).collect()
}

#[test]
fn new_run_announces_seven_steps_plus_plugins() {
    let selected = vec!["yenai-plugin".to_string(), "x".to_string()];
    let (run, op) = SetupRun::new("R", &selected);
    assert!(matches!(op, SetupOp::Emit));
    let p = run.progress();
    assert_eq!(p.total_steps, 9);
    assert_eq!(p.current_step, 0);
    assert_eq!(p.steps.len(), 7);
    assert_eq!(p.overall_status, StepStatus::Running);
    assert!(p.error_message.is_none());
    let ids: Vec<&str> = p.steps.iter().map(|s| s.id.as_str()).collect();
    assert_eq!(ids, vec!["deps", "redis_install", "yunzai_clone", "napcat_clone", "qq_install", "yunzai_npm", "napcat_setup"]);
    assert!(p.steps.iter().all(|s| s.status == StepStatus::Pending && s.progress_percent == 0 && s.message.is_empty()));
}

#[test]
fn full_setup_without_plugins() {
    let mut host = Host::new();
    let (run, r) = run_setup(&mut host, "R", &[]);
    assert_eq!(r, Ok(()));
    let p = run.progress();
    assert_eq!(p.overall_status, StepStatus::Completed);
    assert_eq!(
        statuses(&run),
        vec![
            StepStatus::Completed,
            StepStatus::Completed,
            StepStatus::Completed,
            StepStatus::Completed,
            StepStatus::Skipped,
            StepStatus::Completed,
            StepStatus::Completed,
        ]
    );
    assert_eq!(p.steps[0].message, "检测 Git...");
    assert_eq!(p.steps[1].message, "请打开 https://github.com/tporadowski/redis/releases 下载 Redis for Windows ZIP,解压到任意目录");
    assert_eq!(p.steps[2].message, "✓ 已下载: R/Yunzai-Bot");
    assert_eq!(p.steps[3].message, "✓ NapCat 已释放到: R/NapCat");
    assert_eq!(
        p.steps[4].message,
        "⚠ 请手动安装 QQ: https://im.qq.com/pcqq/ (推荐: QQ 9.7.18 (30589) - 2024-03-19 - 主人 3060 游戏本实测可用的稳定版, 与 NapCat v4 兼容)"
    );
    assert_eq!(p.steps[5].message, "✓ npm install 完成: R/Yunzai-Bot");
    assert_eq!(p.steps[6].message, "✓ WebUI token 已写入: R/NapCat/config/webui.json");
    let programs: Vec<&str> = host.runs.iter().map(|r| r.0.as_str()).collect();
    assert_eq!(programs, vec!["node", "git", "git", "npm"]);
    assert_eq!(host.runs[2].1, vec!["clone", "--depth=1", "https://github.com/TimeRainStarSky/Yunzai.git", "R/Yunzai-Bot"]);
    assert_eq!(host.runs[3].1, vec!["install", "--registry=https://registry.npmmirror.com"]);
    assert_eq!(host.runs[3].2, Some("R/Yunzai-Bot".to_string()));
    // The initial report, one when each step starts and one when it ends, and the final one.
    assert_eq!(host.emits, 1 + 7 * 2 + 1);
}

#[test]
fn full_setup_with_plugins() {
    let mut host = Host::new();
    let (run, r) = run_setup(&mut host, "R", &["yenai-plugin", "unknown", "TRSS-Yunzai (主程序)"]);
    assert_eq!(r, Ok(()));
    let p = run.progress();
    assert_eq!(p.steps.len(), 10);
    assert_eq!(p.total_steps, 10);
    assert!(p.steps[7..].iter().all(|s| s.status == StepStatus::Completed));
    assert_eq!(p.steps[7].id, "plugin_0");
    assert_eq!(p.steps[7].name, "下载插件: yenai-plugin");
    assert_eq!(p.steps[7].message, "✓ npm install 完成: R/Yunzai-Bot/plugins/yenai-plugin");
    assert_eq!(p.steps[8].id, "plugin_1");
    assert_eq!(p.steps[8].message, "");
    assert_eq!(p.steps[9].id, "plugin_2");
    assert_eq!(p.steps[9].message, "✓ 已下载: R/Yunzai-Bot/plugins/TRSS-Yunzai_(主程序)");
    // yenai is cloned and installed; the main program is cloned only.
    let programs: Vec<&str> = host.runs.iter().map(|r| r.0.as_str()).collect();
    assert_eq!(programs, vec!["node", "git", "git", "npm", "git", "npm", "git"]);
    assert_eq!(host.runs[4].1[2], "https://github.com/yenaijs/yenai-plugin.git");
    assert_eq!(p.overall_status, StepStatus::Completed);
}

#[test]
fn plugin_failures_do_not_stop_the_run() {
    let mut host = Host::new();
    host.existing = vec!["R/Yunzai-Bot".to_string()];
    host.failing_programs = vec!["git".to_string()];
    let (run, r) = run_setup(&mut host, "R", &["pixiv-plugin"]);
    assert_eq!(r, Ok(()));
    assert_eq!(run.progress().steps[7].status, StepStatus::Completed);
    assert_eq!(run.progress().overall_status, StepStatus::Completed);
    // The failed clone is not followed by npm.
    let programs: Vec<&str> = host.runs.iter().map(|r| r.0.as_str()).collect();
    assert_eq!(programs, vec!["node", "git", "npm", "git"]);
}

#[test]
fn yunzai_npm_failure_ends_the_run() {
    let mut host = Host::new();
    host.failing_programs = vec!["npm".to_string()];
    let (run, r) = run_setup(&mut host, "R", &["pixiv-plugin"]);
    assert_eq!(r, Err("npm install 失败: npm failed".to_string()));
    assert_eq!(run.progress().steps.len(), 7);
    assert_eq!(run.progress().overall_status, StepStatus::Running);
}

#[test]
fn existing_checkout_is_skipped() {
    let mut host = Host::new();
    host.existing = vec!["R/Yunzai-Bot".to_string()];
    let (run, r) = run_setup(&mut host, "R", &[]);
    assert_eq!(r, Ok(()));
    assert_eq!(run.progress().steps[2].message, "R/Yunzai-Bot 已存在,跳过");
    let programs: Vec<&str> = host.runs.iter().map(|r| r.0.as_str()).collect();
    assert_eq!(programs, vec!["node", "git", "npm"]);
}

#[test]
fn missing_node_ends_the_run() {
    let mut host = Host::new();
    host.missing_programs = vec!["node".to_string()];
    let (run, r) = run_setup(&mut host, "R", &[]);
    assert_eq!(r, Err("Node.js 未安装。请先下载安装 Node.js 20 LTS: https://nodejs.org".to_string()));
    assert_eq!(run.progress().overall_status, StepStatus::Running);
    assert_eq!(run.progress().steps[0].status, StepStatus::Running);
}

#[test]
fn missing_git_ends_the_run() {
    let mut host = Host::new();
    host.missing_programs = vec!["git".to_string()];
    let (_, r) = run_setup(&mut host, "R", &[]);
    assert_eq!(r, Err("Git 未安装。请先下载安装 Git: https://git-scm.com".to_string()));
}

#[test]
fn failing_version_probe_still_counts_as_installed() {
    let mut host = Host::new();
    host.failing_programs = vec!["node".to_string()];
    let (_, r) = run_setup(&mut host, "R", &[]);
    assert_eq!(r, Ok(()));
}

#[test]
fn yunzai_clone_failure_ends_the_run() {
    let mut host = Host::new();
    host.failing_programs = vec!["git".to_string()];
    // The probe of git fails too, but it started, so the check passes.
    let (run, r) = run_setup(&mut host, "R", &[]);
    assert_eq!(r, Err("git clone 失败: git failed".to_string()));
    assert_eq!(run.progress().steps[2].status, StepStatus::Running);
    assert_eq!(run.progress().steps[2].message, "git clone https://github.com/TimeRainStarSky/Yunzai.git -> R/Yunzai-Bot");
}

#[test]
fn napcat_failure_is_recorded_and_the_run_goes_on() {
    let mut host = Host::new();
    host.extract = Err("下载 NapCat 失败".to_string());
    let (run, r) = run_setup(&mut host, "R", &[]);
    assert_eq!(r, Ok(()));
    assert_eq!(run.progress().steps[3].status, StepStatus::Failed);
    assert_eq!(run.progress().steps[3].message, "⚠ NapCat 释放失败: 下载 NapCat 失败 (可手动重试)");
}

#[test]
fn webui_write_failure_ends_the_run() {
    let mut host = Host::new();
    host.webui = Err("拒绝访问".to_string());
    let (run, r) = run_setup(&mut host, "R", &[]);
    assert_eq!(r, Err("拒绝访问".to_string()));
    assert_eq!(run.progress().steps[6].message, "配置 NapCat WebUI token...");
}

fn install(host: &mut Host, name: &str) -> (PluginInstall, Result<(), String>) {
    let (mut m, mut op) = install_single_plugin(name, "R");
    for _ in 0..1000 {
        if let Some(r) = finished(&op) {
            return (m, r);
        }
        let e = host.answer(&op);
        op = m.advance(e);
    }
    panic!("installation did not finish");
}

#[test]
fn installing_one_plugin() {
    let mut host = Host::new();
    let (m, r) = install(&mut host, "miao-plugin (喵喵插件)");
    assert_eq!(r, Ok(()));
    assert_eq!(m.plugin_name(), "miao-plugin (喵喵插件)");
    let s = m.step();
    assert_eq!(s.id, "plugin_miao-plugin (喵喵插件)");
    assert_eq!(s.name, "下载插件: miao-plugin (喵喵插件)");
    assert_eq!(s.status, StepStatus::Completed);
    assert_eq!(s.progress_percent, 50);
    assert_eq!(s.message, "✓ npm install 完成: R/Yunzai-Bot/plugins/miao-plugin_(喵喵插件)");
    assert_eq!(host.emits, 2);
    assert_eq!(host.runs[0].1[3], "R/Yunzai-Bot/plugins/miao-plugin_(喵喵插件)");
}

#[test]
fn installing_an_unknown_plugin_fails() {
    let mut host = Host::new();
    let (_, r) = install(&mut host, "nope");
    assert_eq!(r, Err("未知插件: nope".to_string()));
    assert_eq!(host.emits, 0);
}

#[test]
fn installing_the_main_program_does_nothing() {
    let mut host = Host::new();
    let (_, r) = install(&mut host, "TRSS-Yunzai (主程序)");
    assert_eq!(r, Ok(()));
    assert!(host.runs.is_empty());
}

#[test]
fn plugin_clone_and_npm_failures_end_the_installation() {
    let mut host = Host::new();
    host.failing_programs = vec!["git".to_string()];
    let (m, r) = install(&mut host, "yuki-plugin");
    assert_eq!(r, Err("git clone 失败: git failed".to_string()));
    assert_eq!(m.step().status, StepStatus::Running);
    assert_eq!(host.emits, 1);

    let mut host = Host::new();
    host.missing_programs = vec!["npm".to_string()];
    let (_, r) = install(&mut host, "yuki-plugin");
    assert_eq!(r, Err("npm install 启动失败".to_string()));

    let mut host = Host::new();
    host.missing_programs = vec!["git".to_string()];
    let (_, r) = install(&mut host, "yuki-plugin");
    assert_eq!(r, Err("git clone 失败".to_string()));
}

fn download(host: &mut Host, url: &str, target: &str) -> (String, Result<(), String>) {
    let (mut d, mut op) = download_and_extract(url, target, "TMP/yunzai-setup-download.zip");
    for _ in 0..100 {
        if let Some(r) = finished(&op) {
            return (d.message().clone(), r);
        }
        let e = host.answer(&op);
        op = d.advance(&e);
    }
    panic!("download did not finish");
}

#[test]
fn download_and_unpack() {
    let mut host = Host::new();
    let (m, r) = download(&mut host, "https://x/r.zip", "R/redis");
    assert_eq!(r, Ok(()));
    assert_eq!(m, "下载 https://x/r.zip -> R/redis");
    assert_eq!(host.runs[0].0, "curl");
    assert_eq!(host.runs[0].1, vec!["-L", "-o", "TMP/yunzai-setup-download.zip", "https://x/r.zip"]);
    assert_eq!(host.runs[1].0, "powershell");
    assert_eq!(host.runs[1].1[2], "Expand-Archive -Path 'TMP/yunzai-setup-download.zip' -DestinationPath 'R/redis' -Force");
    assert_eq!(host.removed, vec!["TMP/yunzai-setup-download.zip"]);
}

#[test]
fn download_skips_an_existing_target() {
    let mut host = Host::new();
    host.existing = vec!["R/redis".to_string()];
    let (m, r) = download(&mut host, "u", "R/redis");
    assert_eq!(r, Ok(()));
    assert_eq!(m, "R/redis 已存在,跳过");
    assert!(host.runs.is_empty());
}

#[test]
fn download_failures() {
    let mut host = Host::new();
    host.missing_programs = vec!["curl".to_string()];
    assert_eq!(download(&mut host, "u", "t").1, Err("curl 下载失败".to_string()));
    let mut host = Host::new();
    host.failing_programs = vec!["curl".to_string()];
    assert_eq!(download(&mut host, "u", "t").1, Err("下载失败: curl failed".to_string()));
    let mut host = Host::new();
    host.missing_programs = vec!["powershell".to_string()];
    assert_eq!(download(&mut host, "u", "t").1, Err("解压失败".to_string()));
    let mut host = Host::new();
    host.failing_programs = vec!["powershell".to_string()];
    assert_eq!(download(&mut host, "u", "t").1, Err("解压失败: powershell failed".to_string()));
    assert!(host.removed.is_empty());
}

#[test]
fn setup_installs_into_the_yunzai_directory() {
    let mut paths = AppPaths::default();
    paths.yunzai_dir = "D:/YunZaiApp".to_string();
    let (mut run, mut op) = run_full_setup(&paths, &vec![]);
    let mut host = Host::new();
    loop {
        if let SetupOp::ExtractNapcat(d) = &op {
            assert_eq!(d, "D:/YunZaiApp/NapCat");
            break;
        }
        let e = host.answer(&op);
        op = run.advance(e);
    }
    assert_eq!(run.progress().steps[2].message, "✓ 已下载: D:/YunZaiApp/Yunzai-Bot");
}

fn settled(s: StepStatus) -> bool {
    matches!(s, StepStatus::Completed | StepStatus::Failed | StepStatus::Skipped)
}

#[test]
fn every_report_shows_steps_in_order() {
    let selected: Vec<String> = vec!["yenai-plugin".to_string(), "unknown".to_string()];
    let (mut run, mut op) = SetupRun::new("R", &selected);
    let mut host = Host::new();
    host.extract = Err("x".to_string());
    let mut reports: Vec<Vec<StepStatus>> = vec![];
    loop {
        if finished(&op).is_some() {
            break;
        }
        if let SetupOp::Emit = op {
            let p = run.progress();
            assert_eq!(p.total_steps, 9);
            for (i, s) in p.steps.iter().enumerate().skip(7) {
                assert_eq!(s.id, format!("plugin_{}", i - 7));
                assert_eq!(s.name, format!("下载插件: {}", selected[i - 7]));
            }
            reports.push(statuses(&run));
        }
        let e = host.answer(&op);
        op = run.advance(e);
    }
    for r in &reports {
        for j in 0..r.len() {
            if r[j] != StepStatus::Pending {
                assert!(r[..j].iter().all(|s| settled(*s)));
            }
        }
    }
    for w in reports.windows(2) {
        for (k, before) in w[0].iter().enumerate() {
            let after = w[1][k];
            if settled(*before) {
                assert_eq!(after, *before);
            }
            if *before == StepStatus::Pending {
                assert!(after == StepStatus::Pending || after == StepStatus::Running);
            }
        }
        for after in &w[1][w[0].len()..] {
            assert_eq!(*after, StepStatus::Running);
        }
    }
    assert_eq!(reports.last().unwrap().len(), 9);
}

#[test]
fn plugins_without_a_repository_are_not_cloned() {
    let mut host = Host::new();
    let (_, r) = install(&mut host, "未登记插件 2");
    assert_eq!(r, Err("插件未登记仓库: 未登记插件 2".to_string()));
    assert!(host.runs.is_empty());

    let mut host = Host::new();
    let (run, r) = run_setup(&mut host, "R", &["未登记插件 1"]);
    assert_eq!(r, Ok(()));
    assert_eq!(run.progress().steps[7].status, StepStatus::Completed);
    let programs: Vec<&str> = host.runs.iter().map(|r| r.0.as_str()).collect();
    assert_eq!(programs, vec!["node", "git", "git", "npm"]);
}

#[test]
fn featured_plugins_are_cloned_from_their_repository() {
    let mut host = Host::new();
    let (_, r) = install(&mut host, "liangshi-calc (梁氏伤害计算)");
    assert_eq!(r, Ok(()));
    assert_eq!(host.runs[0].1[2], "https://gitee.com/liangshi233/liangshi-calc.git");
    assert_eq!(host.runs[0].1[3], "R/Yunzai-Bot/plugins/liangshi-calc_(梁氏伤害计算)");
}
