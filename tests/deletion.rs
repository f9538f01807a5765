use bootwatch::platform::deletion::{
    resume_deletion, DeletionError, DeletionStep, ExternalCommand, Operation, Outcome,
};
use bootwatch::platform::{delete, StartupItem, StartupType};
use bootwatch::platform::{macos, windows};

fn item(label: &str, path: Option<&str>, item_type: StartupType) -> StartupItem {
    StartupItem {
        label: label.to_string(),
        path: path.map(|p| p.to_string()),
        item_type,
    }
}

fn args(c: &ExternalCommand) -> Vec<&str> {
    c.args.iter().map(|a| a.as_str()).collect()
}

#[test]
fn plist_deletion_starts_with_unload() {
    let p = "/Library/LaunchAgents/com.example.Helper.plist";
    match delete(&item("com.example.Helper.plist", Some(p), StartupType::Plist)) {
        DeletionStep::Perform(Operation::UnloadJob { command, path }) => {
            assert_eq!(command.program, "launchctl");
            assert_eq!(args(&command), vec!["unload", p]);
            assert_eq!(path, p);
        }
        other => panic!("unexpected step {:?}", other),
    }
}

#[test]
fn plist_unload_then_remove_same_path() {
    let p = "/Library/LaunchAgents/a.plist";
    let first = match delete(&item("a.plist", Some(p), StartupType::Plist)) {
        DeletionStep::Perform(op) => op,
        other => panic!("unexpected step {:?}", other),
    };
    let second = match resume_deletion(&first, &Outcome::Succeeded) {
        DeletionStep::Perform(op) => op,
        other => panic!("unexpected step {:?}", other),
    };
    match &second {
        Operation::RemoveFile { path, unloaded } => {
            assert_eq!(path, p);
            assert!(*unloaded);
        }
        other => panic!("unexpected operation {:?}", other),
    }
    assert!(matches!(
        resume_deletion(&second, &Outcome::Succeeded),
        DeletionStep::Finished(Ok(()))
    ));
}

#[test]
fn failed_unload_never_removes() {
    let p = "/Library/LaunchAgents/a.plist";
    let first = match delete(&item("a.plist", Some(p), StartupType::Plist)) {
        DeletionStep::Perform(op) => op,
        other => panic!("unexpected step {:?}", other),
    };
    let failed = Outcome::ExitFailure {
        stderr: vec![b'n', b'o', 0xFF],
    };
    match resume_deletion(&first, &failed) {
        DeletionStep::Finished(Err(DeletionError::UnloadFailed { path, diagnostic })) => {
            assert_eq!(path, p);
            assert_eq!(diagnostic, "no\u{FFFD}");
        }
        other => panic!("unexpected step {:?}", other),
    }
}

#[test]
fn failed_remove_after_unload_is_partial() {
    let op = Operation::RemoveFile {
        path: "/x.plist".to_string(),
        unloaded: true,
    };
    let failed = Outcome::Error {
        message: "permission denied".to_string(),
    };
    match resume_deletion(&op, &failed) {
        DeletionStep::Finished(Err(DeletionError::FileRemoveFailed {
            path,
            unloaded,
            diagnostic,
        })) => {
            assert_eq!(path, "/x.plist");
            assert!(unloaded);
            assert_eq!(diagnostic, "permission denied");
        }
        other => panic!("unexpected step {:?}", other),
    }
}

#[test]
fn login_item_deletion_runs_script_on_label() {
    match delete(&item("Dropbox", None, StartupType::LoginItem)) {
        DeletionStep::Perform(Operation::RemoveLoginItem { command, name }) => {
            assert_eq!(command.program, "osascript");
            assert_eq!(
                args(&command),
                vec![
                    "-e",
                    "tell application \"System Events\" to delete login item \"Dropbox\""
                ]
            );
            assert_eq!(name, "Dropbox");
        }
        other => panic!("unexpected step {:?}", other),
    }
}

#[test]
fn login_item_failure_is_automation_failed() {
    let op = match delete(&item("Dropbox", None, StartupType::LoginItem)) {
        DeletionStep::Perform(op) => op,
        other => panic!("unexpected step {:?}", other),
    };
    let failed = Outcome::ExitFailure {
        stderr: b"execution error".to_vec(),
    };
    match resume_deletion(&op, &failed) {
        DeletionStep::Finished(Err(DeletionError::AutomationFailed { name, diagnostic })) => {
            assert_eq!(name, "Dropbox");
            assert_eq!(diagnostic, "execution error");
        }
        other => panic!("unexpected step {:?}", other),
    }
}

#[test]
fn registry_deletion_targets_user_run_key_by_label() {
    let it = item("Updater", Some("C:\\Prog\\upd.exe"), StartupType::Registry);
    match delete(&it) {
        DeletionStep::Perform(Operation::DeleteRunValue { command, name }) => {
            assert_eq!(command.program, "reg");
            assert_eq!(
                args(&command),
                vec![
                    "delete",
                    "HKEY_CURRENT_USER\\SOFTWARE\\Microsoft\\Windows\\CurrentVersion\\Run",
                    "/v",
                    "Updater",
                    "/f"
                ]
            );
            assert_eq!(name, "Updater");
        }
        other => panic!("unexpected step {:?}", other),
    }
}

#[test]
fn registry_failure_decodes_console_output() {
    let op = match delete(&item("Updater", Some("u.exe"), StartupType::Registry)) {
        DeletionStep::Perform(op) => op,
        other => panic!("unexpected step {:?}", other),
    };
    let failed = Outcome::ExitFailure {
        stderr: vec![0xB4, 0xED, 0xCE, 0xF3],
    };
    match resume_deletion(&op, &failed) {
        DeletionStep::Finished(Err(DeletionError::RegistryDeleteFailed { name, diagnostic })) => {
            assert_eq!(name, "Updater");
            assert_eq!(diagnostic, "错误");
        }
        other => panic!("unexpected step {:?}", other),
    }
}

#[test]
fn registry_success_finishes() {
    let op = match delete(&item("Updater", Some("u.exe"), StartupType::Registry)) {
        DeletionStep::Perform(op) => op,
        other => panic!("unexpected step {:?}", other),
    };
    assert!(matches!(
        resume_deletion(&op, &Outcome::Succeeded),
        DeletionStep::Finished(Ok(()))
    ));
}

#[test]
fn startup_folder_deletion_removes_file() {
    let p = "C:\\Users\\me\\Startup\\App.lnk";
    let op = match delete(&item("App.lnk", Some(p), StartupType::StartupFolder)) {
        DeletionStep::Perform(op) => op,
        other => panic!("unexpected step {:?}", other),
    };
    match &op {
        Operation::RemoveFile { path, unloaded } => {
            assert_eq!(path, p);
            assert!(!*unloaded);
        }
        other => panic!("unexpected operation {:?}", other),
    }
    match resume_deletion(&op, &Outcome::Error { message: "busy".to_string() }) {
        DeletionStep::Finished(Err(DeletionError::FileRemoveFailed {
            unloaded,
            diagnostic,
            ..
        })) => {
            assert!(!unloaded);
            assert_eq!(diagnostic, "busy");
        }
        other => panic!("unexpected step {:?}", other),
    }
}

#[test]
fn record_without_path_cannot_be_removed() {
    for kind in [StartupType::Plist, StartupType::StartupFolder] {
        match delete(&item("x", None, kind)) {
            DeletionStep::Finished(Err(DeletionError::MissingPath { label })) => {
                assert_eq!(label, "x")
            }
            other => panic!("unexpected step {:?}", other),
        }
    }
}

#[test]
fn platform_dispatchers_agree() {
    let m = macos::StartupItem {
        label: "a.plist".to_string(),
        path: Some("/a.plist".to_string()),
        item_type: macos::StartupType::Plist,
    };
    assert!(matches!(
        macos::delete_startup_item(&m),
        DeletionStep::Perform(Operation::UnloadJob { .. })
    ));
    let w = windows::StartupItem {
        label: "App.lnk".to_string(),
        path: Some("C:\\App.lnk".to_string()),
        item_type: windows::StartupType::StartupFolder,
    };
    assert!(matches!(
        windows::delete_startup_item(&w),
        DeletionStep::Perform(Operation::RemoveFile { unloaded: false, .. })
    ));
}
