use bootwatch::platform::macos;
use bootwatch::platform::raw::{CommandOutput, DirEntry, RegistryValue};
use bootwatch::platform::windows;
use bootwatch::platform::{get_all_startup_items, platform_of, Platform, Sources, StartupType};
use bootwatch::text::{console_text, is_plist_name, split_names};

fn file(dir: &str, name: &str) -> DirEntry {
    DirEntry {
        file_name: Some(name.to_string()),
        path: format!("{}/{}", dir, name),
        is_file: true,
    }
}

fn no_sources() -> Sources {
    Sources {
        launch_dirs: vec![],
        login_items: None,
        run_keys: vec![],
        startup_folder: None,
    }
}

#[test]
fn plist_directory_keeps_only_plist_files() {
    let dir = "/Users/me/Library/LaunchAgents";
    let listings = vec![Some(vec![
        file(dir, "com.example.Helper.plist"),
        file(dir, "notes.txt"),
    ])];
    let items = macos::get_startup_apps(&listings);
    assert_eq!(items.len(), 1);
    assert_eq!(items[0].label, "com.example.Helper.plist");
    assert_eq!(
        items[0].path.as_deref(),
        Some("/Users/me/Library/LaunchAgents/com.example.Helper.plist")
    );
    assert_eq!(items[0].item_type, macos::StartupType::Plist);
}

#[test]
fn missing_directory_does_not_stop_the_others() {
    let listings = vec![
        None,
        Some(vec![file("/Library/LaunchAgents", "a.plist")]),
        None,
        Some(vec![file("/Library/LaunchDaemons", "b.plist")]),
    ];
    let items = macos::get_startup_apps(&listings);
    let labels: Vec<&str> = items.iter().map(|i| i.label.as_str()).collect();
    assert_eq!(labels, vec!["a.plist", "b.plist"]);
    assert!(macos::get_startup_apps(&vec![None]).is_empty());
}

#[test]
fn plist_reader_skips_directories_and_unreadable_names() {
    let dir = "/Library/LaunchAgents";
    let mut sub = file(dir, "sub.plist");
    sub.is_file = false;
    let odd = DirEntry {
        file_name: None,
        path: format!("{}/odd.plist", dir),
        is_file: true,
    };
    let listings = vec![Some(vec![sub, odd, file(dir, "x.plist")])];
    let items = macos::get_startup_apps(&listings);
    assert_eq!(items.len(), 1);
    assert_eq!(items[0].label, "x.plist");
}

#[test]
fn plist_extension_rules() {
    assert!(is_plist_name("a.plist"));
    assert!(is_plist_name("..plist"));
    assert!(!is_plist_name(".plist"));
    assert!(!is_plist_name("plist"));
    assert!(!is_plist_name("a.PLIST"));
    assert!(!is_plist_name("a.plist.bak"));
    assert!(!is_plist_name(""));
}

#[test]
fn launch_dirs_expand_home() {
    let dirs = macos::launch_dirs(Some("/Users/me"));
    assert_eq!(
        dirs,
        vec![
            "/Users/me/Library/LaunchAgents".to_string(),
            "/Library/LaunchAgents".to_string(),
            "/Library/LaunchDaemons".to_string(),
        ]
    );
    let unknown = macos::launch_dirs(None);
    assert_eq!(unknown[0], "~/Library/LaunchAgents");
}

#[test]
fn login_items_drop_trailing_empty_segment() {
    let items = macos::login_items_from_text("Dropbox, Slack, ");
    assert_eq!(items.len(), 2);
    assert_eq!(items[0].label, "Dropbox");
    assert_eq!(items[1].label, "Slack");
    for it in &items {
        assert!(it.path.is_none());
        assert_eq!(it.item_type, macos::StartupType::LoginItem);
    }
}

#[test]
fn split_names_edge_cases() {
    assert!(split_names("").is_empty());
    assert!(split_names(", , ").is_empty());
    assert_eq!(split_names("a,b"), vec!["a,b".to_string()]);
    assert_eq!(split_names(" a ,  b\n"), vec!["a".to_string(), "b".to_string()]);
    assert_eq!(split_names(",, x"), vec![",".to_string(), "x".to_string()]);
}

#[test]
fn login_items_from_command_output() {
    let ok = Some(CommandOutput {
        success: true,
        stdout: b"Dropbox, Slack\n".to_vec(),
        stderr: vec![],
    });
    let items = macos::get_login_items(&ok);
    let labels: Vec<&str> = items.iter().map(|i| i.label.as_str()).collect();
    assert_eq!(labels, vec!["Dropbox", "Slack"]);

    let failed = Some(CommandOutput {
        success: false,
        stdout: b"Dropbox".to_vec(),
        stderr: b"error".to_vec(),
    });
    assert!(macos::get_login_items(&failed).is_empty());
    assert!(macos::get_login_items(&None).is_empty());
}

#[test]
fn login_items_output_is_decoded_lossily() {
    let out = Some(CommandOutput {
        success: true,
        stdout: vec![b'A', 0xFF, b',', b' ', b'B'],
        stderr: vec![],
    });
    let items = macos::get_login_items(&out);
    assert_eq!(items.len(), 2);
    assert_eq!(items[0].label, "A\u{FFFD}");
    assert_eq!(items[1].label, "B");
}

#[test]
fn login_query_command() {
    let c = macos::login_items_query();
    assert_eq!(c.program, "osascript");
    assert_eq!(
        c.args,
        vec![
            "-e".to_string(),
            "tell application \"System Events\" to get the name of every login item".to_string(),
        ]
    );
}

#[test]
fn macos_aggregation_puts_plists_before_login_items() {
    let listings = vec![Some(vec![file("/Library/LaunchAgents", "a.plist")])];
    let login = Some(CommandOutput {
        success: true,
        stdout: b"Mail".to_vec(),
        stderr: vec![],
    });
    let items = macos::get_all_startup_items(&listings, &login);
    assert_eq!(items.len(), 2);
    assert_eq!(items[0].item_type, macos::StartupType::Plist);
    assert_eq!(items[1].label, "Mail");
    assert_eq!(items[1].item_type, macos::StartupType::LoginItem);
}

#[test]
fn registry_run_value_becomes_record() {
    let keys = vec![
        Some(vec![RegistryValue {
            name: "Updater".to_string(),
            data: Some("C:\\Prog\\upd.exe".to_string()),
        }]),
        None,
    ];
    let items = windows::get_startup_apps(&keys, &None);
    assert_eq!(items.len(), 1);
    assert_eq!(items[0].label, "Updater");
    assert_eq!(items[0].path.as_deref(), Some("C:\\Prog\\upd.exe"));
    assert_eq!(items[0].item_type, windows::StartupType::Registry);
}

#[test]
fn registry_non_string_value_is_skipped() {
    let keys = vec![Some(vec![
        RegistryValue {
            name: "A".to_string(),
            data: Some("a.exe".to_string()),
        },
        RegistryValue {
            name: "Binary".to_string(),
            data: None,
        },
        RegistryValue {
            name: "C".to_string(),
            data: Some("c.exe".to_string()),
        },
    ])];
    let items = windows::get_startup_apps(&keys, &None);
    let labels: Vec<&str> = items.iter().map(|i| i.label.as_str()).collect();
    assert_eq!(labels, vec!["A", "C"]);
}

#[test]
fn startup_folder_lists_regular_files_after_run_values() {
    let dir = "C:\\Users\\me\\Startup";
    let mut sub = file(dir, "folder");
    sub.is_file = false;
    let keys = vec![Some(vec![RegistryValue {
        name: "R".to_string(),
        data: Some("r.exe".to_string()),
    }])];
    let folder = Some(vec![sub, file(dir, "App.lnk")]);
    let items = windows::get_startup_apps(&keys, &folder);
    assert_eq!(items.len(), 2);
    assert_eq!(items[0].item_type, windows::StartupType::Registry);
    assert_eq!(items[1].label, "App.lnk");
    assert_eq!(items[1].path.as_deref(), Some("C:\\Users\\me\\Startup/App.lnk"));
    assert_eq!(items[1].item_type, windows::StartupType::StartupFolder);
}

#[test]
fn run_key_path_is_the_run_key() {
    assert_eq!(
        windows::run_key_path(),
        "Software\\Microsoft\\Windows\\CurrentVersion\\Run"
    );
}

#[test]
fn unsupported_platform_has_no_items() {
    let mut sources = no_sources();
    sources.launch_dirs = vec![Some(vec![file("/Library/LaunchAgents", "a.plist")])];
    assert!(get_all_startup_items(Platform::Unsupported, &sources).is_empty());
}

#[test]
fn platform_names() {
    assert_eq!(platform_of("macos"), Platform::MacOs);
    assert_eq!(platform_of("windows"), Platform::Windows);
    assert_eq!(platform_of("linux"), Platform::Unsupported);
    assert_eq!(platform_of(""), Platform::Unsupported);
}

#[test]
fn aggregation_normalizes_each_platform() {
    let mut sources = no_sources();
    sources.launch_dirs = vec![Some(vec![file("/Library/LaunchAgents", "a.plist")])];
    sources.login_items = Some(CommandOutput {
        success: true,
        stdout: b"Mail".to_vec(),
        stderr: vec![],
    });
    sources.run_keys = vec![Some(vec![RegistryValue {
        name: "R".to_string(),
        data: Some("r.exe".to_string()),
    }])];
    sources.startup_folder = Some(vec![file("C:\\S", "x.lnk")]);

    let mac = get_all_startup_items(Platform::MacOs, &sources);
    let kinds: Vec<StartupType> = mac.iter().map(|i| i.item_type).collect();
    assert_eq!(kinds, vec![StartupType::Plist, StartupType::LoginItem]);
    assert_eq!(mac[0].label, "a.plist");
    assert_eq!(mac[0].path.as_deref(), Some("/Library/LaunchAgents/a.plist"));

    let win = get_all_startup_items(Platform::Windows, &sources);
    let kinds: Vec<StartupType> = win.iter().map(|i| i.item_type).collect();
    assert_eq!(kinds, vec![StartupType::Registry, StartupType::StartupFolder]);
    assert_eq!(win[0].path.as_deref(), Some("r.exe"));
    assert_eq!(win[1].label, "x.lnk");
}

#[test]
fn console_text_decodes_gbk() {
    assert_eq!(console_text(&vec![0xB4, 0xED, 0xCE, 0xF3]), "错误");
    assert_eq!(console_text(&vec![]), "");
}
