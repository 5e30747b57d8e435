use isofetch::command::{
    detect_aur_helper, resolve_command, Command, CommandResult, CommandType, TaskStatus,
};

#[test]
fn new_copies_everything() {
    let c = Command::new(CommandType::Privileged, "pacman", &["-S", "docker"], "Install");
    assert_eq!(c.command_type, CommandType::Privileged);
    assert_eq!(c.program, "pacman");
    assert_eq!(c.args, vec!["-S".to_string(), "docker".to_string()]);
    assert_eq!(c.description, "Install");
}

#[test]
fn constructors_set_type() {
    assert_eq!(Command::normal("ls", &[], "List").command_type, CommandType::Normal);
    assert_eq!(Command::privileged("ls", &[], "List").command_type, CommandType::Privileged);
    let a = Command::aur(&["-S", "obs"], "Install OBS");
    assert_eq!(a.command_type, CommandType::Aur);
    assert_eq!(a.program, "aur");
    assert_eq!(a.args, vec!["-S".to_string(), "obs".to_string()]);
}

#[test]
fn resolve_normal() {
    let c = Command::normal("flatpak", &["install", "x"], "d");
    let (p, a) = resolve_command(&c, None).unwrap();
    assert_eq!(p, "flatpak");
    assert_eq!(a, vec!["install".to_string(), "x".to_string()]);
}

#[test]
fn resolve_privileged() {
    let c = Command::privileged("systemctl", &["enable", "docker"], "d");
    let (p, a) = resolve_command(&c, Some("paru")).unwrap();
    assert_eq!(p, "pkexec");
    assert_eq!(a, vec!["systemctl".to_string(), "enable".to_string(), "docker".to_string()]);
}

#[test]
fn resolve_aur_with_helper() {
    let c = Command::aur(&["-S", "--noconfirm", "obs"], "d");
    let (p, a) = resolve_command(&c, Some("yay")).unwrap();
    assert_eq!(p, "yay");
    assert_eq!(
        a,
        vec!["--sudo", "pkexec", "-S", "--noconfirm", "obs"]
            .into_iter()
            .map(String::from)
            .collect::<Vec<String>>()
    );
}

#[test]
fn resolve_aur_without_helper() {
    let c = Command::aur(&["-S", "obs"], "d");
    assert_eq!(
        resolve_command(&c, None),
        Err("AUR helper not initialized (paru or yay required).".to_string())
    );
}

#[test]
fn helper_preference() {
    assert_eq!(detect_aur_helper(true, true), Some("paru"));
    assert_eq!(detect_aur_helper(true, false), Some("paru"));
    assert_eq!(detect_aur_helper(false, true), Some("yay"));
    assert_eq!(detect_aur_helper(false, false), None);
}

#[test]
fn command_result_queries() {
    let ok = CommandResult::Success;
    let failed = CommandResult::Failure { exit_code: Some(3) };
    let killed = CommandResult::Failure { exit_code: None };
    assert!(ok.is_success() && !ok.is_failure());
    assert!(failed.is_failure() && !failed.is_success());
    assert_eq!(ok.exit_code(), None);
    assert_eq!(failed.exit_code(), Some(3));
    assert_eq!(killed.exit_code(), None);
}

#[test]
fn task_status_compares() {
    assert_eq!(TaskStatus::Pending, TaskStatus::Pending);
    assert_ne!(TaskStatus::Running, TaskStatus::Success);
    assert_ne!(TaskStatus::Failed, TaskStatus::Cancelled);
}
