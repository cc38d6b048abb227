use greenboot::command::command_line;
use greenboot::host::{Output, Reply, Request};
use greenboot::mount::{is_boot_rw, remount_boot_ro, remount_boot_rw, MountError, Remount};

/// A system in memory that answers the library's requests.
#[allow(dead_code)]
struct Sim {
    boot_writable: bool,
    mount_table_readable: bool,
    remount_succeeds: bool,
    vars: Vec<(String, String)>,
    directories: Vec<String>,
    /// Path, whether the script passes, what it prints.
    scripts: Vec<(String, bool, String)>,
    deployment_status: Option<String>,
    rollback_succeeds: bool,
    journal: String,
    banner: Option<String>,
    banner_writable: bool,
    log: Vec<Request>,
    /// Whether every edit found the boot partition writable.
    edits_were_bracketed: bool,
}

#[allow(dead_code)]
impl Sim {
    fn new() -> Sim {
        Sim {
            boot_writable: false,
            mount_table_readable: true,
            remount_succeeds: true,
            vars: Vec::new(),
            directories: Vec::new(),
            scripts: Vec::new(),
            deployment_status: None,
            rollback_succeeds: true,
            journal: String::new(),
            banner: None,
            banner_writable: true,
            log: Vec::new(),
            edits_were_bracketed: true,
        }
    }

    fn exited(success: bool, stdout: &str, stderr: &str) -> Reply {
        Reply::Exited(Output {
            success,
            status: String::from(if success { "exit status: 0" } else { "exit status: 1" }),
            stdout: stdout.as_bytes().to_vec(),
            stderr: stderr.as_bytes().to_vec(),
        })
    }

    fn set_var(&mut self, key: &str, value: &str) {
        match self.vars.iter_mut().find(|(k, _)| k == key) {
            Some(entry) => entry.1 = String::from(value),
            None => self.vars.push((String::from(key), String::from(value))),
        }
    }

    fn var(&self, key: &str) -> Option<String> {
        self.vars.iter().find(|(k, _)| k == key).map(|(_, v)| v.clone())
    }

    fn add_script(&mut self, directory: &str, name: &str, passes: bool) {
        if !self.directories.iter().any(|d| d == directory) {
            self.directories.push(String::from(directory));
        }
        self.scripts.push((format!("{}{}", directory, name), passes, format!("{} ran", name)));
    }

    fn executed(&self) -> Vec<String> {
        let mut paths = Vec::new();
        for request in &self.log {
            if let Request::RunScript(path) = request {
                paths.push(path.clone());
            }
        }
        paths
    }

    fn listing(&self) -> String {
        let mut text = String::new();
        for (key, value) in &self.vars {
            text.push_str(&format!("{}={}\n", key, value));
        }
        text
    }

    fn perform(&mut self, request: Request) -> Reply {
        self.log.push(request.clone());
        match request {
            Request::ReadMountTable => {
                if self.mount_table_readable {
                    let options = if self.boot_writable { "rw,relatime" } else { "ro,relatime" };
                    Reply::Text(format!(
                        "rootfs / rootfs rw 0 0\nnone /boot tmpfs {} 0 0\n",
                        options
                    ))
                } else {
                    Reply::Unreadable
                }
            }
            Request::Remount { writable } => {
                if self.remount_succeeds {
                    self.boot_writable = writable;
                    Sim::exited(true, "", "")
                } else {
                    Sim::exited(false, "", "mount: /boot: permission denied")
                }
            }
            Request::ListVariables => {
                let text = self.listing();
                Sim::exited(true, &text, "")
            }
            Request::EditVariable(edit) => {
                if !self.boot_writable {
                    self.edits_were_bracketed = false;
                }
                let words = command_line(&Request::EditVariable(edit), "grubenv").unwrap();
                if words[2] == "set" {
                    let (key, value) = words[3].split_once('=').unwrap();
                    self.set_var(key, value);
                } else {
                    self.vars.retain(|(k, _)| *k != words[3]);
                }
                Sim::exited(true, "", "")
            }
            Request::IsDirectory(path) => Reply::Flag(self.directories.iter().any(|d| *d == path)),
            Request::FindScripts(pattern) => {
                let directory = pattern.strip_suffix("*.sh").unwrap();
                let mut found = Vec::new();
                for (path, _, _) in &self.scripts {
                    if let Some(name) = path.strip_prefix(directory) {
                        if !name.contains('/') && name.ends_with(".sh") {
                            found.push(path.clone());
                        }
                    }
                }
                Reply::Paths(found)
            }
            Request::RunScript(path) => match self.scripts.iter().find(|(p, _, _)| *p == path) {
                Some((_, passes, prints)) => Sim::exited(*passes, prints, ""),
                None => Reply::NotLaunched(String::from("No such file or directory")),
            },
            Request::DeploymentStatus => match &self.deployment_status {
                Some(document) => Sim::exited(true, document, ""),
                None => Reply::NotLaunched(String::from("bootc: command not found")),
            },
            Request::Rollback(_) => Sim::exited(self.rollback_succeeds, "", ""),
            Request::Reboot => Sim::exited(true, "", ""),
            Request::PreviousBootJournal => {
                let text = self.journal.clone();
                Sim::exited(true, &text, "")
            }
            Request::WriteBanner(text) => {
                if self.banner_writable {
                    self.banner = Some(text);
                    Reply::Written
                } else {
                    Reply::NotWritten(String::from("Permission denied"))
                }
            }
        }
    }
}

fn finish(machine: Remount) -> Result<(), MountError> {
    assert!(machine.pending().is_none());
    machine.outcome().unwrap()
}

#[test]
fn test_remount_boot_ro_when_already_ro() {
    let mounts_content = "rootfs / rootfs rw 0 0\n\
                         none /boot tmpfs ro 0 0\n";
    let machine = remount_boot_ro();
    assert!(matches!(machine.pending(), Some(Request::ReadMountTable)));
    let machine = machine.resume(Reply::Text(String::from(mounts_content)));

    let result = finish(machine);
    assert!(result.is_ok());
}

#[test]
fn test_remount_boot_rw_when_already_rw() {
    let mounts_content = "rootfs / rootfs rw 0 0\n\
                         none /boot tmpfs rw 0 0\n";
    let machine = remount_boot_rw();
    assert!(matches!(machine.pending(), Some(Request::ReadMountTable)));
    let machine = machine.resume(Reply::Text(String::from(mounts_content)));

    let result = finish(machine);
    assert!(result.is_ok());
}

#[test]
fn test_is_boot_rw_detection() {
    // Test RW case - should return true
    assert!(is_boot_rw(Some("device /boot ext4 rw,relatime 0 0")).unwrap());

    // Test RO case - should return false
    assert!(!is_boot_rw(Some("device /boot ext4 ro,relatime 0 0")).unwrap());

    // Test missing /boot - should error
    assert!(is_boot_rw(Some("device /other ext4 rw 0 0")).is_err());

    // Test malformed line - should error
    assert!(is_boot_rw(Some("incomplete fields")).is_err());
}

#[test]
fn unreadable_mount_table_is_an_error() {
    let error = is_boot_rw(None).unwrap_err();
    assert!(matches!(error, MountError::MountInfoError));
    assert_eq!(error.message(), "Failed to read mount info");
    assert!(is_boot_rw(Some("")).is_err());
}

#[test]
fn options_are_searched_for_rw_and_ro() {
    assert!(!is_boot_rw(Some("d /boot ext4 rw,errors=remount-ro 0 0")).unwrap());
    assert!(!is_boot_rw(Some("d /boot ext4 relatime 0 0")).unwrap());
    assert!(is_boot_rw(Some("d /boot ext4 relatime,rw")).unwrap());
    assert!(is_boot_rw(Some("d /boot ext4 xrwx")).unwrap());
    assert!(!is_boot_rw(Some("d /boot ext4 r,w")).unwrap());
}

#[test]
fn first_boot_entry_decides() {
    assert!(is_boot_rw(Some("a /boot ext4 rw 0 0\nb /boot ext4 ro 0 0\n")).unwrap());
    assert!(!is_boot_rw(Some("a /boot ext4 ro 0 0\nb /boot ext4 rw 0 0\n")).unwrap());
    assert!(is_boot_rw(Some("a /boot ext4\nb /boot ext4 rw 0 0\n")).unwrap());
    assert!(is_boot_rw(Some("a /boot/efi vfat ro 0 0\nb /boot ext4 rw 0 0\n")).unwrap());
    assert!(is_boot_rw(Some("/boot a ext4 ro 0 0\nb /boot ext4 rw 0 0\n")).unwrap());
}

#[test]
fn fields_are_split_at_any_white_space() {
    assert!(is_boot_rw(Some("  d \t /boot\u{a0}ext4\u{3000}rw\r\n")).unwrap());
    assert!(is_boot_rw(Some("d\u{2003}/boot\u{85}ext4\u{1680}rw")).unwrap());
    assert!(is_boot_rw(Some("d /boot ext4 rw\u{200b}ro")).is_ok());
    assert!(!is_boot_rw(Some("d /boot ext4 rw\u{200b}ro")).unwrap());
}

#[test]
fn remount_is_asked_for_only_when_needed() {
    let machine = remount_boot_rw();
    let machine = machine.resume(Reply::Text(String::from("none /boot tmpfs ro 0 0\n")));
    assert!(matches!(machine.pending(), Some(Request::Remount { writable: true })));
    let machine = machine.resume(Sim::exited(true, "", ""));
    assert!(finish(machine).is_ok());

    let machine = remount_boot_ro();
    let machine = machine.resume(Reply::Text(String::from("none /boot tmpfs rw 0 0\n")));
    assert!(matches!(machine.pending(), Some(Request::Remount { writable: false })));
    let machine = machine.resume(Sim::exited(true, "", ""));
    assert!(finish(machine).is_ok());
}

#[test]
fn remount_command_lines() {
    let words = command_line(&Request::Remount { writable: true }, "").unwrap();
    assert_eq!(words, vec!["mount", "-o", "remount,rw", "/boot"]);
    let words = command_line(&Request::Remount { writable: false }, "").unwrap();
    assert_eq!(words, vec!["mount", "-o", "remount,bind,ro", "/boot"]);
    assert!(command_line(&Request::ReadMountTable, "").is_none());
}

#[test]
fn failed_remount_carries_what_the_tool_said() {
    let machine = remount_boot_rw();
    let machine = machine.resume(Reply::Text(String::from("none /boot tmpfs ro 0 0\n")));
    let machine = machine.resume(Sim::exited(false, "", "mount: only root can do that"));
    let error = finish(machine).unwrap_err();
    assert_eq!(error.message(), "Failed to remount /boot: mount: only root can do that");
}

#[test]
fn remount_that_did_not_start_says_so() {
    let machine = remount_boot_ro();
    let machine = machine.resume(Reply::Text(String::from("none /boot tmpfs rw 0 0\n")));
    let machine = machine.resume(Reply::NotLaunched(String::from("No such file or directory")));
    let error = finish(machine).unwrap_err();
    assert_eq!(
        error.message(),
        "Failed to remount /boot: Failed to execute mount: No such file or directory"
    );
}

#[test]
fn remount_without_a_mount_table_fails() {
    let machine = remount_boot_rw().resume(Reply::Unreadable);
    assert!(matches!(finish(machine), Err(MountError::MountInfoError)));
    let machine = remount_boot_ro().resume(Reply::Text(String::from("d /other ext4 rw 0 0")));
    assert!(matches!(finish(machine), Err(MountError::MountInfoError)));
}

#[test]
fn ill_formed_error_stream_is_read_leniently() {
    let machine = remount_boot_rw();
    let machine = machine.resume(Reply::Text(String::from("none /boot tmpfs ro 0 0\n")));
    let machine = machine.resume(Reply::Exited(Output {
        success: false,
        status: String::from("exit status: 32"),
        stdout: Vec::new(),
        stderr: vec![0x6e, 0x6f, 0xff],
    }));
    match finish(machine).unwrap_err() {
        MountError::RemountFailed(why) => assert_eq!(why, "no\u{fffd}"),
        other => panic!("unexpected error: {:?}", other),
    }
}
