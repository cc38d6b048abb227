use greenboot::command::command_line;
use greenboot::grub::{
    counter_in_listing, get_boot_counter, get_rollback_trigger, set_boot_counter, set_boot_status,
    set_grub_var, set_rollback_trigger, trigger_in_listing, unset_boot_counter, unset_grub_var,
    unset_rollback_trigger, GrubError, Update,
};
use greenboot::host::{Output, Reply, Request, VarEdit, Variable};
use greenboot::mount::MountError;

/// A system in memory that answers the library's requests.
#[allow(dead_code)]
struct Sim {
    boot_writable: bool,
    mount_table_readable: bool,
    remount_succeeds: bool,
    vars: Vec<(String, String)>,
    directories: Vec<String>,
    /// Path, whether the script passes, what it prints.
    scripts: Vec<(String, bool, String)>,
    deployment_status: Option<String>,
    rollback_succeeds: bool,
    journal: String,
    banner: Option<String>,
    banner_writable: bool,
    log: Vec<Request>,
    /// Whether every edit found the boot partition writable.
    edits_were_bracketed: bool,
}

#[allow(dead_code)]
impl Sim {
    fn new() -> Sim {
        Sim {
            boot_writable: false,
            mount_table_readable: true,
            remount_succeeds: true,
            vars: Vec::new(),
            directories: Vec::new(),
            scripts: Vec::new(),
            deployment_status: None,
            rollback_succeeds: true,
            journal: String::new(),
            banner: None,
            banner_writable: true,
            log: Vec::new(),
            edits_were_bracketed: true,
        }
    }

    fn exited(success: bool, stdout: &str, stderr: &str) -> Reply {
        Reply::Exited(Output {
            success,
            status: String::from(if success { "exit status: 0" } else { "exit status: 1" }),
            stdout: stdout.as_bytes().to_vec(),
            stderr: stderr.as_bytes().to_vec(),
        })
    }

    fn set_var(&mut self, key: &str, value: &str) {
        match self.vars.iter_mut().find(|(k, _)| k == key) {
            Some(entry) => entry.1 = String::from(value),
            None => self.vars.push((String::from(key), String::from(value))),
        }
    }

    fn var(&self, key: &str) -> Option<String> {
        self.vars.iter().find(|(k, _)| k == key).map(|(_, v)| v.clone())
    }

    fn add_script(&mut self, directory: &str, name: &str, passes: bool) {
        if !self.directories.iter().any(|d| d == directory) {
            self.directories.push(String::from(directory));
        }
        self.scripts.push((format!("{}{}", directory, name), passes, format!("{} ran", name)));
    }

    fn executed(&self) -> Vec<String> {
        let mut paths = Vec::new();
        for request in &self.log {
            if let Request::RunScript(path) = request {
                paths.push(path.clone());
            }
        }
        paths
    }

    fn listing(&self) -> String {
        let mut text = String::new();
        for (key, value) in &self.vars {
            text.push_str(&format!("{}={}\n", key, value));
        }
        text
    }

    fn perform(&mut self, request: Request) -> Reply {
        self.log.push(request.clone());
        match request {
            Request::ReadMountTable => {
                if self.mount_table_readable {
                    let options = if self.boot_writable { "rw,relatime" } else { "ro,relatime" };
                    Reply::Text(format!(
                        "rootfs / rootfs rw 0 0\nnone /boot tmpfs {} 0 0\n",
                        options
                    ))
                } else {
                    Reply::Unreadable
                }
            }
            Request::Remount { writable } => {
                if self.remount_succeeds {
                    self.boot_writable = writable;
                    Sim::exited(true, "", "")
                } else {
                    Sim::exited(false, "", "mount: /boot: permission denied")
                }
            }
            Request::ListVariables => {
                let text = self.listing();
                Sim::exited(true, &text, "")
            }
            Request::EditVariable(edit) => {
                if !self.boot_writable {
                    self.edits_were_bracketed = false;
                }
                let words = command_line(&Request::EditVariable(edit), "grubenv").unwrap();
                if words[2] == "set" {
                    let (key, value) = words[3].split_once('=').unwrap();
                    self.set_var(key, value);
                } else {
                    self.vars.retain(|(k, _)| *k != words[3]);
                }
                Sim::exited(true, "", "")
            }
            Request::IsDirectory(path) => Reply::Flag(self.directories.iter().any(|d| *d == path)),
            Request::FindScripts(pattern) => {
                let directory = pattern.strip_suffix("*.sh").unwrap();
                let mut found = Vec::new();
                for (path, _, _) in &self.scripts {
                    if let Some(name) = path.strip_prefix(directory) {
                        if !name.contains('/') && name.ends_with(".sh") {
                            found.push(path.clone());
                        }
                    }
                }
                Reply::Paths(found)
            }
            Request::RunScript(path) => match self.scripts.iter().find(|(p, _, _)| *p == path) {
                Some((_, passes, prints)) => Sim::exited(*passes, prints, ""),
                None => Reply::NotLaunched(String::from("No such file or directory")),
            },
            Request::DeploymentStatus => match &self.deployment_status {
                Some(document) => Sim::exited(true, document, ""),
                None => Reply::NotLaunched(String::from("bootc: command not found")),
            },
            Request::Rollback(_) => Sim::exited(self.rollback_succeeds, "", ""),
            Request::Reboot => Sim::exited(true, "", ""),
            Request::PreviousBootJournal => {
                let text = self.journal.clone();
                Sim::exited(true, &text, "")
            }
            Request::WriteBanner(text) => {
                if self.banner_writable {
                    self.banner = Some(text);
                    Reply::Written
                } else {
                    Reply::NotWritten(String::from("Permission denied"))
                }
            }
        }
    }
}

fn run_update(sim: &mut Sim, update: Update) -> Result<(), GrubError> {
    let mut machine = update;
    loop {
        match machine.pending() {
            Some(request) => {
                let reply = sim.perform(request);
                machine = machine.resume(reply);
            }
            None => return machine.outcome().unwrap(),
        }
    }
}

fn read_counter(sim: &mut Sim) -> Result<Option<i32>, GrubError> {
    let listing = sim.perform(Request::ListVariables);
    get_boot_counter(&listing)
}

fn read_trigger(sim: &mut Sim) -> Result<bool, GrubError> {
    let listing = sim.perform(Request::ListVariables);
    get_rollback_trigger(&listing)
}

fn setup() -> Sim {
    let mut sim = Sim::new();
    sim.set_var("saved_entry", "0");
    sim
}

#[test]
fn test_boot_counter_set() {
    let mut sim = setup();
    run_update(&mut sim, set_boot_counter(10)).unwrap();
    assert_eq!(read_counter(&mut sim).unwrap(), Some(10));
}

#[test]
fn test_boot_counter_re_set() {
    let mut sim = setup();
    sim.set_var("boot_counter", "99");
    run_update(&mut sim, set_boot_counter(20)).ok();
    assert_eq!(read_counter(&mut sim).unwrap(), Some(99));
}

#[test]
fn test_boot_counter_having_invalid_value() {
    let mut sim = setup();
    sim.set_var("boot_counter", "foo");
    run_update(&mut sim, set_boot_counter(13)).unwrap();
    assert_eq!(read_counter(&mut sim).unwrap(), Some(13));
}

#[test]
fn test_unset_boot_counter() {
    let mut sim = setup();
    sim.set_var("boot_counter", "199");
    run_update(&mut sim, unset_boot_counter()).unwrap();
    assert_eq!(read_counter(&mut sim).unwrap(), None);
}

#[test]
fn test_get_boot_counter() {
    let mut sim = setup();
    sim.set_var("boot_counter", "99");
    assert_eq!(read_counter(&mut sim).unwrap(), Some(99));
}

#[test]
fn test_rollback_trigger_functions() {
    let mut sim = setup();

    // Test when rollback trigger is not set
    assert!(!read_trigger(&mut sim).unwrap());

    // Test setting rollback trigger
    run_update(&mut sim, set_rollback_trigger()).unwrap();
    assert!(read_trigger(&mut sim).unwrap());

    // Test unsetting rollback trigger
    run_update(&mut sim, unset_rollback_trigger()).unwrap();
    assert!(!read_trigger(&mut sim).unwrap());
}

#[test]
fn test_rollback_trigger_with_other_vars() {
    let mut sim = setup();

    // Set boot counter
    run_update(&mut sim, set_boot_counter(3)).unwrap();

    // Set rollback trigger
    run_update(&mut sim, set_rollback_trigger()).unwrap();

    // Both should coexist
    assert_eq!(read_counter(&mut sim).unwrap(), Some(3));
    assert!(read_trigger(&mut sim).unwrap());

    // Unset rollback trigger, boot_counter should remain
    run_update(&mut sim, unset_rollback_trigger()).unwrap();
    assert_eq!(read_counter(&mut sim).unwrap(), Some(3));
    assert!(!read_trigger(&mut sim).unwrap());
}

#[test]
fn refused_budget_names_the_counter() {
    let mut sim = setup();
    sim.set_var("boot_counter", "2");
    let error = run_update(&mut sim, set_boot_counter(5)).unwrap_err();
    assert!(matches!(error, GrubError::AlreadySet(2)));
    assert_eq!(error.message(), "already set boot_counter=2");
    assert_eq!(sim.log.len(), 1);
    assert_eq!(sim.var("boot_counter"), Some(String::from("2")));
}

#[test]
fn refused_budget_keeps_a_negative_counter() {
    let mut sim = setup();
    sim.set_var("boot_counter", "-1");
    let error = run_update(&mut sim, set_boot_counter(5)).unwrap_err();
    assert_eq!(error.message(), "already set boot_counter=-1");
}

#[test]
fn each_edit_is_bracketed_by_remounts() {
    let mut sim = setup();
    run_update(&mut sim, set_boot_status(true)).unwrap();
    assert!(sim.edits_were_bracketed);
    assert!(!sim.boot_writable);
    let kinds: Vec<String> = sim.log.iter().map(|r| format!("{:?}", r)).collect();
    assert_eq!(
        kinds,
        vec![
            "ReadMountTable",
            "Remount { writable: true }",
            "EditVariable(Assign { key: BootSuccess, value: 1 })",
            "ReadMountTable",
            "Remount { writable: false }",
            "ReadMountTable",
            "Remount { writable: true }",
            "EditVariable(Clear { key: BootCounter })",
            "ReadMountTable",
            "Remount { writable: false }",
        ]
    );
}

#[test]
fn healthy_verdict_clears_the_counter() {
    let mut sim = setup();
    sim.set_var("boot_counter", "2");
    run_update(&mut sim, set_boot_status(true)).unwrap();
    assert_eq!(sim.var("boot_success"), Some(String::from("1")));
    assert_eq!(sim.var("boot_counter"), None);
    assert_eq!(read_counter(&mut sim).unwrap(), None);
}

#[test]
fn unhealthy_verdict_keeps_the_counter() {
    let mut sim = setup();
    sim.set_var("boot_counter", "2");
    run_update(&mut sim, set_boot_status(false)).unwrap();
    assert_eq!(sim.var("boot_success"), Some(String::from("0")));
    assert_eq!(sim.var("boot_counter"), Some(String::from("2")));
}

#[test]
fn unreadable_mount_table_stops_before_the_edit() {
    let mut sim = setup();
    sim.mount_table_readable = false;
    let error = run_update(&mut sim, set_rollback_trigger()).unwrap_err();
    assert!(matches!(error, GrubError::RemountReadWrite(MountError::MountInfoError)));
    assert_eq!(error.message(), "Failed to remount /boot as rw");
    assert_eq!(sim.var("greenboot_rollback_trigger"), None);
    assert_eq!(sim.log.len(), 1);
}

#[test]
fn failed_remount_stops_before_the_edit() {
    let mut sim = setup();
    sim.remount_succeeds = false;
    let error = run_update(&mut sim, set_rollback_trigger()).unwrap_err();
    match error {
        GrubError::RemountReadWrite(MountError::RemountFailed(why)) => {
            assert_eq!(why, "mount: /boot: permission denied")
        }
        other => panic!("unexpected error: {:?}", other),
    }
    assert_eq!(sim.var("greenboot_rollback_trigger"), None);
}

#[test]
fn read_only_is_restored_after_an_edit_that_did_not_start() {
    let update = set_grub_var(Variable::BootSuccess, 1);
    let update = update.resume(Reply::Text(String::from("none /boot tmpfs rw 0 0\n")));
    assert!(matches!(update.pending(), Some(Request::EditVariable(_))));
    let update = update.resume(Reply::NotLaunched(String::from("No such file or directory")));
    assert!(matches!(update.pending(), Some(Request::ReadMountTable)));
    let update = update.resume(Reply::Text(String::from("none /boot tmpfs rw 0 0\n")));
    assert!(matches!(update.pending(), Some(Request::Remount { writable: false })));
    let update = update.resume(Sim::exited(true, "", ""));
    assert!(update.pending().is_none());
    let error = update.outcome().unwrap().unwrap_err();
    assert_eq!(error.message(), "Unable to set grubenv");
    match error {
        GrubError::EditFailed { edit, why } => {
            assert_eq!(edit, VarEdit::Assign { key: Variable::BootSuccess, value: 1 });
            assert_eq!(why, "No such file or directory");
        }
        other => panic!("unexpected error: {:?}", other),
    }
}

#[test]
fn failure_to_restore_read_only_is_reported() {
    let update = unset_grub_var(Variable::BootCounter);
    let update = update.resume(Reply::Text(String::from("none /boot tmpfs rw 0 0\n")));
    let update = update.resume(Sim::exited(true, "", ""));
    let update = update.resume(Reply::Text(String::from("none /boot tmpfs rw 0 0\n")));
    let update = update.resume(Sim::exited(false, "", "busy"));
    let error = update.outcome().unwrap().unwrap_err();
    assert_eq!(error.message(), "Failed to remount /boot as read-only");
    assert!(matches!(error, GrubError::RemountReadOnly(MountError::RemountFailed(_))));
}

#[test]
fn counter_is_read_from_the_first_matching_line() {
    let listing = Sim::exited(true, "saved_entry=0\nboot_counter=3\nboot_counter=7\n", "");
    assert_eq!(get_boot_counter(&listing).unwrap(), Some(3));
    assert_eq!(counter_in_listing("boot_counter=-4\r\nother=1\r\n").unwrap(), Some(-4));
    assert_eq!(counter_in_listing("boot_counter=+12").unwrap(), Some(12));
    assert_eq!(counter_in_listing("xboot_counter=1\nboot_counter_=2\n").unwrap(), None);
    assert_eq!(counter_in_listing("").unwrap(), None);
    assert_eq!(counter_in_listing("boot_counter=2147483647").unwrap(), Some(2147483647));
    assert_eq!(counter_in_listing("boot_counter=-2147483648").unwrap(), Some(-2147483648));
}

#[test]
fn malformed_counter_is_told_from_an_absent_one() {
    let error = counter_in_listing("boot_counter=foo\n").unwrap_err();
    assert_eq!(error.message(), "boot_counter has invalid value: foo");
    assert!(counter_in_listing("boot_counter=\n").is_err());
    assert!(counter_in_listing("boot_counter= 3\n").is_err());
    assert!(counter_in_listing("boot_counter=3 \n").is_err());
    assert!(counter_in_listing("boot_counter=2147483648\n").is_err());
    assert!(counter_in_listing("boot_counter=-2147483649\n").is_err());
    assert!(counter_in_listing("boot_counter=99999999999999999999999\n").is_err());
    assert!(counter_in_listing("boot_counter=-\n").is_err());
    assert!(counter_in_listing("boot_counter=1=2\n").is_err());
    assert!(counter_in_listing("boot_counter=3\r").is_err());
}

#[test]
fn listing_that_is_not_text_is_an_error() {
    let listing = Reply::Exited(Output {
        success: true,
        status: String::from("exit status: 0"),
        stdout: vec![0x62, 0xff, 0xfe],
        stderr: Vec::new(),
    });
    let error = get_boot_counter(&listing).unwrap_err();
    assert!(matches!(error, GrubError::InvalidListing));
    assert!(!get_rollback_trigger(&listing).unwrap());
}

#[test]
fn listing_that_did_not_start_is_an_error() {
    let error = get_boot_counter(&Reply::NotLaunched(String::from("not found"))).unwrap_err();
    assert_eq!(error.message(), "Unable to list grubenv variables: not found");
    assert!(get_rollback_trigger(&Reply::NotLaunched(String::from("not found"))).is_err());
}

#[test]
fn trigger_is_the_text_up_to_the_next_equals_sign() {
    assert!(trigger_in_listing("greenboot_rollback_trigger=1\n"));
    assert!(trigger_in_listing("a=b\ngreenboot_rollback_trigger=1=2\n"));
    assert!(!trigger_in_listing("greenboot_rollback_trigger=0\n"));
    assert!(!trigger_in_listing("greenboot_rollback_trigger=11\n"));
    assert!(!trigger_in_listing("greenboot_rollback_trigger=\n"));
    assert!(!trigger_in_listing("greenboot_rollback_trigger=0\ngreenboot_rollback_trigger=1\n"));
    assert!(!trigger_in_listing("xgreenboot_rollback_trigger=1\n"));
    assert!(!trigger_in_listing(""));
}

#[test]
fn editor_command_lines() {
    let words = command_line(&Request::ListVariables, "/boot/grub2/grubenv").unwrap();
    assert_eq!(words, vec!["grub2-editenv", "/boot/grub2/grubenv", "list"]);
    let edit = VarEdit::Assign { key: Variable::BootCounter, value: 65535 };
    let words = command_line(&Request::EditVariable(edit), "env").unwrap();
    assert_eq!(words, vec!["grub2-editenv", "env", "set", "boot_counter=65535"]);
    let edit = VarEdit::Assign { key: Variable::BootSuccess, value: 0 };
    let words = command_line(&Request::EditVariable(edit), "env").unwrap();
    assert_eq!(words, vec!["grub2-editenv", "env", "set", "boot_success=0"]);
    let edit = VarEdit::Clear { key: Variable::RollbackTrigger };
    let words = command_line(&Request::EditVariable(edit), "env").unwrap();
    assert_eq!(words, vec!["grub2-editenv", "env", "unset", "greenboot_rollback_trigger"]);
}

#[test]
fn removal_that_did_not_start_is_reported() {
    let update = unset_rollback_trigger();
    let update = update.resume(Reply::Text(String::from("none /boot tmpfs rw 0 0\n")));
    let update = update.resume(Reply::NotLaunched(String::from("not found")));
    let update = update.resume(Reply::Text(String::from("none /boot tmpfs ro 0 0\n")));
    let error = update.outcome().unwrap().unwrap_err();
    assert_eq!(error.message(), "Unable to clear boot_counter");
    assert!(matches!(
        error,
        GrubError::EditFailed { edit: VarEdit::Clear { key: Variable::RollbackTrigger }, .. }
    ));
}

#[test]
fn what_is_written_for_the_counter_is_read_back() {
    for value in [0u16, 1, 9, 10, 255, 65535] {
        let edit = VarEdit::Assign { key: Variable::BootCounter, value };
        let words = command_line(&Request::EditVariable(edit), "env").unwrap();
        let listing = format!("{}\nsaved_entry=0\n", words[3]);
        assert_eq!(counter_in_listing(&listing).unwrap(), Some(value as i32));
    }
}
