use yunzai_app::bootstrap::{check_command_exists, command_file_names, extract_embedded_napcat, first_on_path, qq_recommendation, verify_setup, ExtractEvent, ExtractOp, NapcatExtract, SetupFacts};
use yunzai_app::host::CommandOutcome;
use yunzai_app::plugin_index::{find_plugin, owner_installed_plugins, PluginCategory};
use yunzai_app::setup::{create_no_window, lookup_plugin, plugin_dir, plugin_removal_target, remove_single_plugin, sanitize_dir_name};

#[test]
fn plugin_index_lists_the_framework_and_twenty_three_plugins() {
    let v = owner_installed_plugins();
    assert_eq!(v.len(), 24);
    assert_eq!(v.iter().filter(|p| p.category == PluginCategory::Framework).count(), 1);
    assert_eq!(v[0].name, "TRSS-Yunzai (主程序)");
    assert_eq!(v[0].author, "时雨星空");
    assert_eq!(v[0].repo_url, "https://github.com/TimeRainStarSky/Yunzai.git");
    assert_eq!(v[0].category, PluginCategory::Framework);
    assert_eq!(v[1].name, "miao-plugin (喵喵插件)");
    assert_eq!(v[3].repo_url, "https://gitee.com/guoba-yunzai/guoba-plugin.git");
    assert_eq!(v[4].name, "liangshi-calc (梁氏伤害计算)");
    assert_eq!(v[5].name, "Atlas (原神图鉴)");
    assert!(v[1..6].iter().all(|p| p.category == PluginCategory::Featured));
    assert_eq!(v[20].name, "yunzai-plugin-deer-pipe");
    assert_eq!(v[20].category, PluginCategory::Function);
    assert!(v[..21].iter().all(|p| p.recommended && !p.repo_url.is_empty()));
    assert!(v[21..].iter().all(|p| !p.recommended && p.repo_url.is_empty()));
    let mut names: Vec<&str> = v.iter().map(|p| p.name.as_str()).collect();
    names.sort();
    names.dedup();
    assert_eq!(names.len(), 24);
}

#[test]
fn category_labels() {
    assert_eq!(PluginCategory::Framework.display_name(), "云崽框架");
    assert_eq!(PluginCategory::Featured.display_name(), "推荐插件");
    assert_eq!(PluginCategory::Function.display_name(), "功能类");
    assert_eq!(PluginCategory::Game.display_name(), "游戏 IP 类");
    assert_eq!(PluginCategory::WordGame.display_name(), "文游类");
    assert_eq!(PluginCategory::JsPlugin.display_name(), "单 JS 类");
}

#[test]
fn plugins_are_found_by_exact_name() {
    let v = owner_installed_plugins();
    assert_eq!(find_plugin(&v, "yenai-plugin"), Some(6));
    assert_eq!(find_plugin(&v, "Yenai-plugin"), None);
    assert_eq!(find_plugin(&v, ""), None);
    let p = lookup_plugin("ZZZ-Plugin (绝区零)").unwrap();
    assert_eq!(p.repo_url, "https://github.com/zzz-plugin/ZZZ-Plugin.git");
    assert_eq!(p.category, PluginCategory::Game);
    assert!(lookup_plugin("no-such-plugin").is_none());
}

#[test]
fn directory_names_are_sanitized() {
    assert_eq!(sanitize_dir_name("miao-plugin (喵喵插件)"), "miao-plugin_(喵喵插件)");
    assert_eq!(sanitize_dir_name(r#"a/b\c:d*e?f"g<h>i|j k"#), "a_b_c_d_e_f_g_h_i_j_k");
    assert_eq!(sanitize_dir_name(""), "");
    let once = sanitize_dir_name("WeGame-plugin (王者/联盟手游)");
    assert_eq!(once, "WeGame-plugin_(王者_联盟手游)");
    assert_eq!(sanitize_dir_name(&once), once);
    assert_eq!(
        plugin_dir(r"D:\YunZaiApp", "StarRail-plugin (星穹铁道)"),
        r"D:\YunZaiApp/Yunzai-Bot/plugins/StarRail-plugin_(星穹铁道)"
    );
}

#[test]
fn no_window_flag() {
    assert_eq!(create_no_window(), 0x0800_0000);
}

#[test]
fn removing_a_plugin() {
    assert_eq!(
        remove_single_plugin("/r", "miao-plugin (喵喵插件)", false, false),
        Err("插件不存在: /r/Yunzai-Bot/plugins/miao-plugin_(喵喵插件)".to_string())
    );
    assert_eq!(remove_single_plugin("/r", "p", true, false), Err("删除插件目录失败".to_string()));
    assert_eq!(remove_single_plugin("/r", "p", true, true), Ok(()));
    // Removing twice: the second call finds nothing.
    assert_eq!(remove_single_plugin("/r", "p", false, false), Err("插件不存在: /r/Yunzai-Bot/plugins/p".to_string()));
}

#[test]
fn removal_never_leaves_the_plugins_directory() {
    for name in ["", ".", "..", "..."] {
        assert_eq!(plugin_removal_target("/r", name), Err(format!("插件名无效: {name}")));
        // Even when a host claims it removed something, the verdict is the refusal.
        assert_eq!(remove_single_plugin("/r", name, true, true), Err(format!("插件名无效: {name}")));
    }
    assert_eq!(plugin_removal_target("/r", "../x"), Ok("/r/Yunzai-Bot/plugins/.._x".to_string()));
    assert_eq!(plugin_removal_target("/r", "a b"), Ok("/r/Yunzai-Bot/plugins/a_b".to_string()));
    assert_eq!(plugin_removal_target("/r", ".x"), Ok("/r/Yunzai-Bot/plugins/.x".to_string()));
}

#[test]
fn command_check_lines() {
    let c = check_command_exists("node", "Node.js", true);
    assert_eq!((c.name.as_str(), c.ok, c.detail.as_str()), ("Node.js (PATH)", true, "已找到"));
    let c = check_command_exists("redis-cli", "Redis CLI", false);
    assert_eq!((c.name.as_str(), c.ok, c.detail.as_str()), ("Redis CLI (PATH)", false, "未在 PATH 中找到 redis-cli 命令"));
}

#[test]
fn command_lookup_names() {
    assert_eq!(command_file_names("git", true), vec!["git", "git.exe", "git.cmd", "git.bat"]);
    assert_eq!(command_file_names("git", false), vec!["git"]);
}

fn facts(all: bool, plugins: u64) -> SetupFacts {
    SetupFacts {
        node_on_path: all,
        git_on_path: all,
        redis_server_on_path: all,
        redis_cli_on_path: all,
        yunzai_app_js: all,
        yunzai_node_modules: all,
        napcat_boot_exe: false,
        napcat_launcher: all,
        napcat_webui_config: all,
        plugin_dirs: plugins,
        miao_plugin: all,
    }
}

#[test]
fn complete_installation_passes() {
    let v = verify_setup("D:/YunZaiApp", &facts(true, 23));
    assert!(v.all_ok);
    assert_eq!(v.install_root, "D:/YunZaiApp");
    assert_eq!(v.checks.len(), 10);
    let names: Vec<&str> = v.checks.iter().map(|c| c.name.as_str()).collect();
    assert_eq!(
        names,
        vec![
            "Node.js (PATH)",
            "Git (PATH)",
            "Redis (PATH)",
            "Redis CLI (PATH)",
            "Yunzai 主程序",
            "Yunzai node_modules",
            "NapCat 主程序",
            "NapCat WebUI 配置",
            "Yunzai 插件目录 (23 个插件)",
            "miao-plugin (推荐)",
        ]
    );
    assert_eq!(v.checks[4].detail, "D:/YunZaiApp/Yunzai-Bot/app.js");
    assert_eq!(v.checks[5].detail, "D:/YunZaiApp/Yunzai-Bot/node_modules/");
    assert_eq!(v.checks[6].detail, "D:/YunZaiApp/NapCat/");
    assert_eq!(v.checks[7].detail, "NapCat/config/webui.json");
    assert_eq!(v.checks[8].detail, "D:/YunZaiApp/Yunzai-Bot/plugins/ (23)");
    assert_eq!(v.checks[9].detail, "Yunzai-Bot/plugins/miao-plugin");
}

#[test]
fn too_few_plugins_fail_the_check() {
    let v = verify_setup("R", &facts(true, 2));
    assert!(!v.all_ok);
    assert!(!v.checks[8].ok);
    assert_eq!(v.checks[8].name, "Yunzai 插件目录 (2 个插件)");
    assert!(verify_setup("R", &facts(true, 3)).all_ok);
}

#[test]
fn napcat_needs_either_program_file() {
    let mut f = facts(true, 3);
    f.napcat_launcher = false;
    assert!(!verify_setup("R", &f).checks[6].ok);
    f.napcat_boot_exe = true;
    assert!(verify_setup("R", &f).all_ok);
}

#[test]
fn empty_machine_fails_every_check() {
    let v = verify_setup("", &facts(false, 0));
    assert!(!v.all_ok);
    assert!(v.checks.iter().all(|c| !c.ok));
    assert_eq!(v.checks[0].detail, "未在 PATH 中找到 node 命令");
}

#[test]
fn qq_recommendation_values() {
    let q = qq_recommendation();
    assert_eq!(q.version, "QQ 9.7.18 (30589) - 2024-03-19");
    assert_eq!(q.download_url, "https://im.qq.com/pcqq/");
    assert!(q.note.starts_with("QQ 必须用户手动装"));
}

fn finish_of(op: &ExtractOp) -> Option<Result<(), String>> {
    match op {
        ExtractOp::Finish(r) => Some(r.clone()),
        _ => None,
    }
}

#[test]
fn napcat_already_present_is_left_alone() {
    let (mut x, op) = extract_embedded_napcat("D:/Y/NapCat");
    assert!(matches!(&op, ExtractOp::FileInDir { dir, name } if dir == "D:/Y/NapCat" && name == "launcher.bat"));
    let op = x.advance(ExtractEvent::Bool(true));
    assert_eq!(finish_of(&op), Some(Ok(())));
    let (mut x, _) = extract_embedded_napcat("D:/Y/NapCat");
    let op = x.advance(ExtractEvent::Bool(false));
    assert!(matches!(&op, ExtractOp::FileInDir { name, .. } if name == "NapCatWinBootMain.exe"));
    let op = x.advance(ExtractEvent::Bool(true));
    assert_eq!(finish_of(&op), Some(Ok(())));
}

#[test]
fn napcat_is_downloaded_cached_and_unpacked() {
    let (mut x, _) = extract_embedded_napcat("T");
    x.advance(ExtractEvent::Bool(false));
    let op = x.advance(ExtractEvent::Bool(false));
    assert!(matches!(&op, ExtractOp::CreateDirAll(d) if d == "T"));
    let op = x.advance(ExtractEvent::Bool(true));
    assert!(matches!(op, ExtractOp::LocateCache));
    let op = x.advance(ExtractEvent::Cache { path: "C/NapCat.Shell.zip".to_string(), exists: false });
    assert!(matches!(&op, ExtractOp::CreateParentDir(p) if p == "C/NapCat.Shell.zip"));
    let op = x.advance(ExtractEvent::Ack);
    assert!(matches!(op, ExtractOp::LocateTemp));
    let op = x.advance(ExtractEvent::Path("TMP/NapCat.Shell.zip".to_string()));
    match &op {
        ExtractOp::Run(c) => {
            assert_eq!(c.program, "powershell");
            assert_eq!(c.args[0], "-NoProfile");
            assert_eq!(c.args[1], "-Command");
            assert_eq!(
                c.args[2],
                "[Net.ServicePointManager]::SecurityProtocol=[Net.SecurityProtocolType]::Tls12; Invoke-WebRequest -Uri 'https://github.com/NapNeko/NapCatQQ/releases/latest/download/NapCat.Shell.zip' -OutFile 'TMP/NapCat.Shell.zip' -UseBasicParsing"
            );
            assert!(c.hide_window);
        }
        _ => panic!("expected the download"),
    }
    let op = x.advance(ExtractEvent::Ran(CommandOutcome::Exited { success: true, stderr: String::new() }));
    assert!(matches!(&op, ExtractOp::CopyFile { from, to } if from == "TMP/NapCat.Shell.zip" && to == "C/NapCat.Shell.zip"));
    let op = x.advance(ExtractEvent::Bool(true));
    assert!(matches!(&op, ExtractOp::RemoveFile(p) if p == "TMP/NapCat.Shell.zip"));
    let op = x.advance(ExtractEvent::Ack);
    assert!(matches!(&op, ExtractOp::ReadFile(p) if p == "C/NapCat.Shell.zip"));
    let op = x.advance(ExtractEvent::Bool(true));
    match &op {
        ExtractOp::Run(c) => {
            assert_eq!(c.args[2], "Expand-Archive -Path 'C/NapCat.Shell.zip' -DestinationPath 'T' -Force");
            assert!(!c.hide_window);
        }
        _ => panic!("expected the unpacking"),
    }
    let op = x.advance(ExtractEvent::Ran(CommandOutcome::Exited { success: true, stderr: String::new() }));
    assert_eq!(finish_of(&op), Some(Ok(())));
}

#[test]
fn napcat_cached_archive_skips_the_download() {
    let (mut x, _) = extract_embedded_napcat("T");
    x.advance(ExtractEvent::Bool(false));
    x.advance(ExtractEvent::Bool(false));
    x.advance(ExtractEvent::Bool(true));
    let op = x.advance(ExtractEvent::Cache { path: "C/z.zip".to_string(), exists: true });
    assert!(matches!(&op, ExtractOp::ReadFile(p) if p == "C/z.zip"));
}

fn extract_until_download(x: &mut NapcatExtract) {
    x.advance(ExtractEvent::Bool(false));
    x.advance(ExtractEvent::Bool(false));
    x.advance(ExtractEvent::Bool(true));
    x.advance(ExtractEvent::Cache { path: "C".to_string(), exists: false });
    x.advance(ExtractEvent::Ack);
    x.advance(ExtractEvent::Path("P".to_string()));
}

#[test]
fn napcat_failures_carry_their_messages() {
    let (mut x, _) = extract_embedded_napcat("T");
    x.advance(ExtractEvent::Bool(false));
    x.advance(ExtractEvent::Bool(false));
    let op = x.advance(ExtractEvent::Bool(false));
    assert_eq!(finish_of(&op), Some(Err("创建 NapCat 目录失败".to_string())));

    let (mut x, _) = extract_embedded_napcat("T");
    extract_until_download(&mut x);
    let op = x.advance(ExtractEvent::Ran(CommandOutcome::SpawnFailed));
    assert_eq!(finish_of(&op), Some(Err("下载 NapCat 失败".to_string())));

    let (mut x, _) = extract_embedded_napcat("T");
    extract_until_download(&mut x);
    let op = x.advance(ExtractEvent::Ran(CommandOutcome::Exited { success: false, stderr: "404".to_string() }));
    assert_eq!(finish_of(&op), Some(Err("NapCat 下载失败: 404".to_string())));

    let (mut x, _) = extract_embedded_napcat("T");
    extract_until_download(&mut x);
    x.advance(ExtractEvent::Ran(CommandOutcome::Exited { success: true, stderr: String::new() }));
    let op = x.advance(ExtractEvent::Bool(false));
    assert_eq!(finish_of(&op), Some(Err("复制 NapCat 到缓存失败".to_string())));

    let (mut x, _) = extract_embedded_napcat("T");
    extract_until_download(&mut x);
    x.advance(ExtractEvent::Ran(CommandOutcome::Exited { success: true, stderr: String::new() }));
    x.advance(ExtractEvent::Bool(true));
    x.advance(ExtractEvent::Ack);
    let op = x.advance(ExtractEvent::Bool(false));
    assert_eq!(finish_of(&op), Some(Err("读取 zip 失败".to_string())));

    let (mut x, _) = extract_embedded_napcat("T");
    extract_until_download(&mut x);
    x.advance(ExtractEvent::Ran(CommandOutcome::Exited { success: true, stderr: String::new() }));
    x.advance(ExtractEvent::Bool(true));
    x.advance(ExtractEvent::Ack);
    x.advance(ExtractEvent::Bool(true));
    let op = x.advance(ExtractEvent::Ran(CommandOutcome::SpawnFailed));
    assert_eq!(finish_of(&op), Some(Err("PowerShell 解压失败".to_string())));

    let (mut x, _) = extract_embedded_napcat("T");
    extract_until_download(&mut x);
    x.advance(ExtractEvent::Ran(CommandOutcome::Exited { success: true, stderr: String::new() }));
    x.advance(ExtractEvent::Bool(true));
    x.advance(ExtractEvent::Ack);
    x.advance(ExtractEvent::Bool(true));
    let op = x.advance(ExtractEvent::Ran(CommandOutcome::Exited { success: false, stderr: "bad zip".to_string() }));
    assert_eq!(finish_of(&op), Some(Err("解压失败: bad zip".to_string())));
}

#[test]
fn which_takes_the_first_directory_then_the_first_name() {
    assert_eq!(first_on_path(&vec![]), None);
    assert_eq!(first_on_path(&vec![vec![false, false], vec![false, false]]), None);
    assert_eq!(first_on_path(&vec![vec![false, false], vec![false, true], vec![true, true]]), Some((1, 1)));
    assert_eq!(first_on_path(&vec![vec![], vec![true, true]]), Some((1, 0)));
}
