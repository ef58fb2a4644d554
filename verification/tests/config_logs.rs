use yunzai_app::config::{AppConfig, AppPaths, AppSettings, ConfigSource};
use yunzai_app::console::{close_request_action, napcat_webui_settings, napcat_webui_url, tray_menu_action, CloseAction, TrayAction};
use yunzai_app::logs::{has_log_extension, log_dir_for_source, plan_tail, select_latest_log, tail_lines, LogFileEntry};
use yunzai_app::text::{contains_ignore_ascii_case, decimal_string, eq_ignore_ascii_case};

#[test]
fn default_paths_are_placeholders() {
    let p = AppPaths::default();
    assert_eq!(p.redis_exe, r"C:\TRSSYUNZAI\redis-windows-7.0.4\redis-server.exe");
    assert_eq!(p.redis_conf, r"C:\TRSSYUNZAI\redis-windows-7.0.4\redis.conf");
    assert_eq!(p.yunzai_dir, r"C:\TRSSYUNZAI\Yunzai-Bot");
    assert_eq!(p.yunzai_node, r"C:\Users\<USERNAME>\AppData\Local\nvm\v20.11.1\node.exe");
    assert_eq!(p.napcat_dir, r"C:\NapCat.Shell");
    assert_eq!(p.napcat_log_dir, r"C:\NapCat.Shell\napcat\logs");
    assert_eq!(p.yunzai_log_dir, r"C:\TRSSYUNZAI\Yunzai-Bot\logs");
}

#[test]
fn default_settings_minimize_to_tray() {
    let s = AppSettings::default();
    assert_eq!(s.close_action, "minimize_to_tray");
    assert!(!s.autostart);
    assert!(!s.auto_start_on_launch);
    assert!(s.napcat_elevated);
    assert!(!s.close_exits());
    assert_eq!(close_request_action(&s), CloseAction::HideToTray);
}

#[test]
fn only_exit_closes_the_console() {
    let mut s = AppSettings::default();
    s.close_action = "exit".to_string();
    assert!(s.close_exits());
    assert_eq!(close_request_action(&s), CloseAction::Exit);
    s.close_action = "Exit".to_string();
    assert_eq!(close_request_action(&s), CloseAction::HideToTray);
    s.close_action = String::new();
    assert_eq!(close_request_action(&s), CloseAction::HideToTray);
}

#[test]
fn load_falls_back_to_defaults() {
    for src in [ConfigSource::Missing, ConfigSource::Unreadable, ConfigSource::Unparsable] {
        let c = AppConfig::load(src);
        assert_eq!(c.paths.yunzai_dir, AppPaths::default().yunzai_dir);
        assert_eq!(c.settings.close_action, "minimize_to_tray");
    }
}

#[test]
fn load_keeps_a_parsed_configuration() {
    let mut c = AppConfig::default();
    c.paths.yunzai_dir = r"D:\TRSSYUNZAI\Yunzai-Bot".to_string();
    c.settings.autostart = true;
    let l = AppConfig::load(ConfigSource::Parsed(c));
    assert_eq!(l.paths.yunzai_dir, r"D:\TRSSYUNZAI\Yunzai-Bot");
    assert!(l.settings.autostart);
}

#[test]
fn update_replaces_paths_and_optionally_settings() {
    let mut c = AppConfig::default();
    let mut p = AppPaths::default();
    p.napcat_dir = r"D:\NapCat.Shell".to_string();
    c.apply_update(p.clone(), None);
    assert_eq!(c.paths.napcat_dir, r"D:\NapCat.Shell");
    assert_eq!(c.settings.close_action, "minimize_to_tray");
    let mut s = AppSettings::default();
    s.close_action = "exit".to_string();
    c.apply_update(p, Some(s));
    assert_eq!(c.settings.close_action, "exit");
}

#[test]
fn tray_menu_ids() {
    assert_eq!(tray_menu_action("show"), TrayAction::ShowWindow);
    assert_eq!(tray_menu_action("hide"), TrayAction::HideWindow);
    assert_eq!(tray_menu_action("napcat"), TrayAction::OpenNapcatWebui);
    assert_eq!(tray_menu_action("quit"), TrayAction::Quit);
    assert_eq!(tray_menu_action("Quit"), TrayAction::Nothing);
    assert_eq!(tray_menu_action(""), TrayAction::Nothing);
}

#[test]
fn webui_address_and_settings() {
    assert_eq!(napcat_webui_url(), "http://localhost:6099/webui/");
    let w = napcat_webui_settings();
    assert_eq!(w.host, "127.0.0.1");
    assert_eq!(w.port, 6099);
    assert_eq!(w.token, "yunzai-app-token");
    assert_eq!(w.login_rate, 10);
}

#[test]
fn log_sources() {
    let p = AppPaths::default();
    assert_eq!(log_dir_for_source(&p, "yunzai"), Ok(p.yunzai_log_dir.clone()));
    assert_eq!(log_dir_for_source(&p, "napcat"), Ok(p.napcat_log_dir.clone()));
    assert_eq!(log_dir_for_source(&p, "redis"), Err("未知 source: redis".to_string()));
    assert_eq!(log_dir_for_source(&p, "Yunzai"), Err("未知 source: Yunzai".to_string()));
}

#[test]
fn log_extension_is_exactly_log() {
    assert!(has_log_extension("command.2024-03-19.log"));
    assert!(has_log_extension("a.log"));
    assert!(!has_log_extension(".log"));
    assert!(!has_log_extension("log"));
    assert!(!has_log_extension("a.LOG"));
    assert!(!has_log_extension("a.log.gz"));
    assert!(!has_log_extension("a.logs"));
    assert!(!has_log_extension(""));
}

fn log(name: &str, modified: Option<i128>) -> LogFileEntry {
    LogFileEntry { file_name: name.to_string(), modified }
}

#[test]
fn latest_log_is_the_newest_log_file() {
    let es = vec![log("a.log", Some(5)), log("b.txt", Some(99)), log("c.log", Some(7)), log("d.log", Some(6))];
    assert_eq!(select_latest_log(&es), Ok(2));
}

#[test]
fn latest_log_ties_go_to_the_last() {
    let es = vec![log("a.log", Some(5)), log("b.log", Some(5)), log("c.log", None)];
    assert_eq!(select_latest_log(&es), Ok(1));
    let es = vec![log("a.log", None), log("b.log", None)];
    assert_eq!(select_latest_log(&es), Ok(1));
}

#[test]
fn no_log_file_is_an_error() {
    assert_eq!(select_latest_log(&vec![]), Err("无日志文件".to_string()));
    assert_eq!(select_latest_log(&vec![log("x.txt", Some(1))]), Err("无日志文件".to_string()));
}

#[test]
fn tail_takes_the_last_lines() {
    let text = "one\ntwo\r\nthree\nfour";
    assert_eq!(tail_lines(text, 2), "three\nfour");
    assert_eq!(tail_lines(text, 3), "two\nthree\nfour");
    assert_eq!(tail_lines(text, 10), "one\ntwo\nthree\nfour");
    assert_eq!(tail_lines(text, 0), "");
    assert_eq!(tail_lines("", 5), "");
    assert_eq!(tail_lines("a\n\nb\n", 2), "\nb");
    assert_eq!(tail_lines("日志\n第二行\n", 1), "第二行");
}

#[test]
fn tail_matches_std_lines() {
    let text = "l1\r\nl2\n\nl4\r\n";
    for n in 0..6usize {
        let all: Vec<&str> = text.lines().collect();
        let from = all.len().saturating_sub(n);
        assert_eq!(tail_lines(text, n), all[from..].join("\n"));
    }
}

#[test]
fn follow_reads_new_bytes_once() {
    let p = plan_tail(100, None);
    assert_eq!(p.record_first, None);
    assert_eq!(p.read_from, Some(0));
    assert_eq!(p.record_after_read, 100);
    let p = plan_tail(100, Some(100));
    assert_eq!(p.read_from, None);
    let p = plan_tail(150, Some(100));
    assert_eq!(p.read_from, Some(100));
    assert_eq!(p.record_after_read, 150);
    let p = plan_tail(0, None);
    assert_eq!(p.read_from, None);
}

#[test]
fn follow_restarts_a_truncated_file() {
    let p = plan_tail(40, Some(100));
    assert_eq!(p.record_first, Some(0));
    assert_eq!(p.read_from, Some(0));
    assert_eq!(p.record_after_read, 40);
    let p = plan_tail(0, Some(100));
    assert_eq!(p.record_first, Some(0));
    assert_eq!(p.read_from, None);
}

#[test]
fn text_helpers() {
    assert_eq!(decimal_string(0), "0");
    assert_eq!(decimal_string(6099), "6099");
    assert_eq!(decimal_string(u64::MAX), u64::MAX.to_string());
    assert!(contains_ignore_ascii_case("C:\\Yunzai\\APP.js", "app.JS"));
    assert!(!contains_ignore_ascii_case("app", "app.js"));
    assert!(contains_ignore_ascii_case("", ""));
    assert!(eq_ignore_ascii_case("QQ.EXE", "qq.exe"));
    assert!(!eq_ignore_ascii_case("Ä", "ä"));
}
