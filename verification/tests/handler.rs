use greenboot::command::command_line;
use greenboot::grub::GrubError;
use greenboot::handler::{
    deployment_of, detect_os_deployment, handle_motd, handle_reboot, handle_rollback,
    motd_outcome, RebootError, RollbackError,
};
use greenboot::host::{Deployment, Output, Reply, Request};
use greenboot::json::Json;

/// A system in memory that answers the library's requests.
#[allow(dead_code)]
struct Sim {
    boot_writable: bool,
    mount_table_readable: bool,
    remount_succeeds: bool,
    vars: Vec<(String, String)>,
    directories: Vec<String>,
    /// Path, whether the script passes, what it prints.
    scripts: Vec<(String, bool, String)>,
    deployment_status: Option<String>,
    rollback_succeeds: bool,
    journal: String,
    banner: Option<String>,
    banner_writable: bool,
    log: Vec<Request>,
    /// Whether every edit found the boot partition writable.
    edits_were_bracketed: bool,
}

#[allow(dead_code)]
impl Sim {
    fn new() -> Sim {
        Sim {
            boot_writable: false,
            mount_table_readable: true,
            remount_succeeds: true,
            vars: Vec::new(),
            directories: Vec::new(),
            scripts: Vec::new(),
            deployment_status: None,
            rollback_succeeds: true,
            journal: String::new(),
            banner: None,
            banner_writable: true,
            log: Vec::new(),
            edits_were_bracketed: true,
        }
    }

    fn exited(success: bool, stdout: &str, stderr: &str) -> Reply {
        Reply::Exited(Output {
            success,
            status: String::from(if success { "exit status: 0" } else { "exit status: 1" }),
            stdout: stdout.as_bytes().to_vec(),
            stderr: stderr.as_bytes().to_vec(),
        })
    }

    fn set_var(&mut self, key: &str, value: &str) {
        match self.vars.iter_mut().find(|(k, _)| k == key) {
            Some(entry) => entry.1 = String::from(value),
            None => self.vars.push((String::from(key), String::from(value))),
        }
    }

    fn var(&self, key: &str) -> Option<String> {
        self.vars.iter().find(|(k, _)| k == key).map(|(_, v)| v.clone())
    }

    fn add_script(&mut self, directory: &str, name: &str, passes: bool) {
        if !self.directories.iter().any(|d| d == directory) {
            self.directories.push(String::from(directory));
        }
        self.scripts.push((format!("{}{}", directory, name), passes, format!("{} ran", name)));
    }

    fn executed(&self) -> Vec<String> {
        let mut paths = Vec::new();
        for request in &self.log {
            if let Request::RunScript(path) = request {
                paths.push(path.clone());
            }
        }
        paths
    }

    fn listing(&self) -> String {
        let mut text = String::new();
        for (key, value) in &self.vars {
            text.push_str(&format!("{}={}\n", key, value));
        }
        text
    }

    fn perform(&mut self, request: Request) -> Reply {
        self.log.push(request.clone());
        match request {
            Request::ReadMountTable => {
                if self.mount_table_readable {
                    let options = if self.boot_writable { "rw,relatime" } else { "ro,relatime" };
                    Reply::Text(format!(
                        "rootfs / rootfs rw 0 0\nnone /boot tmpfs {} 0 0\n",
                        options
                    ))
                } else {
                    Reply::Unreadable
                }
            }
            Request::Remount { writable } => {
                if self.remount_succeeds {
                    self.boot_writable = writable;
                    Sim::exited(true, "", "")
                } else {
                    Sim::exited(false, "", "mount: /boot: permission denied")
                }
            }
            Request::ListVariables => {
                let text = self.listing();
                Sim::exited(true, &text, "")
            }
            Request::EditVariable(edit) => {
                if !self.boot_writable {
                    self.edits_were_bracketed = false;
                }
                let words = command_line(&Request::EditVariable(edit), "grubenv").unwrap();
                if words[2] == "set" {
                    let (key, value) = words[3].split_once('=').unwrap();
                    self.set_var(key, value);
                } else {
                    self.vars.retain(|(k, _)| *k != words[3]);
                }
                Sim::exited(true, "", "")
            }
            Request::IsDirectory(path) => Reply::Flag(self.directories.iter().any(|d| *d == path)),
            Request::FindScripts(pattern) => {
                let directory = pattern.strip_suffix("*.sh").unwrap();
                let mut found = Vec::new();
                for (path, _, _) in &self.scripts {
                    if let Some(name) = path.strip_prefix(directory) {
                        if !name.contains('/') && name.ends_with(".sh") {
                            found.push(path.clone());
                        }
                    }
                }
                Reply::Paths(found)
            }
            Request::RunScript(path) => match self.scripts.iter().find(|(p, _, _)| *p == path) {
                Some((_, passes, prints)) => Sim::exited(*passes, prints, ""),
                None => Reply::NotLaunched(String::from("No such file or directory")),
            },
            Request::DeploymentStatus => match &self.deployment_status {
                Some(document) => Sim::exited(true, document, ""),
                None => Reply::NotLaunched(String::from("bootc: command not found")),
            },
            Request::Rollback(_) => Sim::exited(self.rollback_succeeds, "", ""),
            Request::Reboot => Sim::exited(true, "", ""),
            Request::PreviousBootJournal => {
                let text = self.journal.clone();
                Sim::exited(true, &text, "")
            }
            Request::WriteBanner(text) => {
                if self.banner_writable {
                    self.banner = Some(text);
                    Reply::Written
                } else {
                    Reply::NotWritten(String::from("Permission denied"))
                }
            }
        }
    }
}

fn status(document: &str) -> Reply {
    Sim::exited(true, document, "")
}

fn roll_back(sim: &mut Sim) -> Result<(), RollbackError> {
    let mut machine = handle_rollback();
    loop {
        match machine.pending() {
            Some(request) => {
                let reply = sim.perform(request);
                machine = machine.resume(reply);
            }
            None => {
                assert!(machine.is_finished());
                return machine.outcome().unwrap();
            }
        }
    }
}

fn restart(sim: &mut Sim, force: bool) -> Result<(), RebootError> {
    let mut machine = handle_reboot(force);
    loop {
        match machine.pending() {
            Some(request) => {
                let reply = sim.perform(request);
                machine = machine.resume(reply);
            }
            None => {
                assert!(machine.is_finished());
                return machine.outcome().unwrap();
            }
        }
    }
}

fn count(sim: &Sim, wanted: &str) -> usize {
    sim.log.iter().filter(|r| format!("{:?}", r).starts_with(wanted)).count()
}

#[test]
fn deployment_is_told_by_the_incompatible_flag() {
    let bootc = status("{\"status\":{\"booted\":{\"incompatible\":false,\"image\":null}}}");
    assert_eq!(detect_os_deployment(&bootc), Some(Deployment::Bootc));
    let ostree = status("{ \"apiVersion\": \"org.containers.bootc/v1\", \"status\": { \"booted\": { \"incompatible\": true } } }");
    assert_eq!(detect_os_deployment(&ostree), Some(Deployment::RpmOstree));
    assert_eq!(Deployment::Bootc.command(), "bootc");
    assert_eq!(Deployment::RpmOstree.command(), "rpm-ostree");
}

#[test]
fn deployment_is_unknown_without_the_flag() {
    assert_eq!(detect_os_deployment(&status("{\"status\":{\"booted\":{}}}")), None);
    assert_eq!(detect_os_deployment(&status("{\"status\":{\"booted\":null}}")), None);
    assert_eq!(detect_os_deployment(&status("{\"status\":{\"booted\":{\"incompatible\":\"no\"}}}")), None);
    assert_eq!(detect_os_deployment(&status("{\"status\":{\"booted\":{\"incompatible\":0}}}")), None);
    assert_eq!(detect_os_deployment(&status("{\"status\":[{\"booted\":{\"incompatible\":true}}]}")), None);
    assert_eq!(detect_os_deployment(&status("{\"booted\":{\"incompatible\":true}}")), None);
    assert_eq!(detect_os_deployment(&status("not json")), None);
    assert_eq!(detect_os_deployment(&status("")), None);
    assert_eq!(detect_os_deployment(&status("{\"status\":{\"booted\":{\"incompatible\":true}}} x")), None);
}

#[test]
fn deployment_is_unknown_when_the_query_fails() {
    let failed = Sim::exited(false, "{\"status\":{\"booted\":{\"incompatible\":false}}}", "");
    assert_eq!(detect_os_deployment(&failed), None);
    assert_eq!(detect_os_deployment(&Reply::NotLaunched(String::from("not found"))), None);
    assert_eq!(detect_os_deployment(&Reply::Flag(true)), None);
}

#[test]
fn last_of_repeated_keys_decides() {
    let doc = status("{\"status\":{\"booted\":{\"incompatible\":true,\"incompatible\":false}}}");
    assert_eq!(detect_os_deployment(&doc), Some(Deployment::Bootc));
}

#[test]
fn deployment_of_a_document_built_by_hand() {
    let flag = Json::Object(vec![(String::from("incompatible"), Json::Bool(true))]);
    let booted = Json::Object(vec![
        (String::from("other"), Json::Number),
        (String::from("booted"), flag),
    ]);
    let document = Json::Object(vec![(String::from("status"), booted)]);
    assert_eq!(deployment_of(&document), Some(Deployment::RpmOstree));
    assert_eq!(deployment_of(&Json::Null), None);
    assert_eq!(deployment_of(&Json::List(vec![Json::Bool(true)])), None);
    assert_eq!(deployment_of(&Json::Text(String::from("status"))), None);
    assert!(document.get("status").is_some());
    assert!(document.get("Status").is_none());
    assert_eq!(Json::Bool(false).as_bool(), Some(false));
    assert_eq!(Json::Null.as_bool(), None);
}

#[test]
fn rollback_is_refused_without_a_counter() {
    let mut sim = Sim::new();
    sim.deployment_status = Some(String::from("{\"status\":{\"booted\":{\"incompatible\":false}}}"));
    let error = roll_back(&mut sim).unwrap_err();
    assert!(matches!(error, RollbackError::ManualIntervention));
    assert_eq!(
        error.message(),
        "System is unhealthy but boot_counter is not set, manual intervention required"
    );
    assert_eq!(sim.log.len(), 1);
}

#[test]
fn rollback_is_refused_while_attempts_are_left() {
    let mut sim = Sim::new();
    sim.set_var("boot_counter", "2");
    sim.deployment_status = Some(String::from("{\"status\":{\"booted\":{\"incompatible\":false}}}"));
    let error = roll_back(&mut sim).unwrap_err();
    assert!(matches!(error, RollbackError::NotExhausted(2)));
    assert_eq!(error.message(), "Rollback not initiated as boot_counter is 2");
    assert_eq!(count(&sim, "Rollback"), 0);
    assert_eq!(count(&sim, "DeploymentStatus"), 0);
}

#[test]
fn rollback_is_attempted_once_the_budget_is_used_up() {
    for value in ["0", "-1", "-2147483648"] {
        let mut sim = Sim::new();
        sim.set_var("boot_counter", value);
        sim.deployment_status =
            Some(String::from("{\"status\":{\"booted\":{\"incompatible\":false}}}"));
        roll_back(&mut sim).unwrap();
        let asked: Vec<String> = sim.log.iter().map(|r| format!("{:?}", r)).collect();
        assert_eq!(asked, vec!["ListVariables", "DeploymentStatus", "Rollback(Bootc)"]);
    }
}

#[test]
fn rollback_uses_the_manager_that_was_detected() {
    let mut sim = Sim::new();
    sim.set_var("boot_counter", "0");
    sim.deployment_status = Some(String::from("{\"status\":{\"booted\":{\"incompatible\":true}}}"));
    roll_back(&mut sim).unwrap();
    assert_eq!(count(&sim, "Rollback(RpmOstree)"), 1);
    let words = command_line(&Request::Rollback(Deployment::RpmOstree), "").unwrap();
    assert_eq!(words, vec!["rpm-ostree", "rollback"]);
    let words = command_line(&Request::Rollback(Deployment::Bootc), "").unwrap();
    assert_eq!(words, vec!["bootc", "rollback"]);
    let words = command_line(&Request::DeploymentStatus, "").unwrap();
    assert_eq!(words, vec!["bootc", "status", "--booted", "--json"]);
}

#[test]
fn rollback_is_unsupported_without_a_manager() {
    let mut sim = Sim::new();
    sim.set_var("boot_counter", "0");
    let error = roll_back(&mut sim).unwrap_err();
    assert!(matches!(error, RollbackError::Unsupported));
    assert_eq!(error.message(), "Rollback only supported in bootc or rpm-ostree environment.");
    assert_eq!(count(&sim, "Rollback"), 0);
}

#[test]
fn failed_rollback_is_not_tried_again() {
    let mut sim = Sim::new();
    sim.set_var("boot_counter", "0");
    sim.deployment_status = Some(String::from("{\"status\":{\"booted\":{\"incompatible\":false}}}"));
    sim.rollback_succeeds = false;
    let error = roll_back(&mut sim).unwrap_err();
    assert_eq!(error.message(), "Rollback with 'bootc' failed with status: exit status: 1");
    assert_eq!(count(&sim, "Rollback"), 1);

    let machine = handle_rollback();
    let machine = machine.resume(Sim::exited(true, "boot_counter=0\n", ""));
    let machine = machine.resume(status("{\"status\":{\"booted\":{\"incompatible\":true}}}"));
    let machine = machine.resume(Reply::NotLaunched(String::from("not found")));
    let error = machine.outcome().unwrap().unwrap_err();
    assert_eq!(error.message(), "Failed to execute 'rpm-ostree rollback'");
}

#[test]
fn rollback_needs_a_readable_counter() {
    let mut sim = Sim::new();
    sim.set_var("boot_counter", "zero");
    let error = roll_back(&mut sim).unwrap_err();
    assert_eq!(error.message(), "boot_counter has invalid value: zero");
    assert!(matches!(error, RollbackError::CounterUnreadable(GrubError::InvalidCounter(_))));
}

#[test]
fn forced_reboot_reads_no_counter() {
    let mut sim = Sim::new();
    restart(&mut sim, true).unwrap();
    let asked: Vec<String> = sim.log.iter().map(|r| format!("{:?}", r)).collect();
    assert_eq!(asked, vec!["Reboot"]);
    assert_eq!(command_line(&Request::Reboot, "").unwrap(), vec!["systemctl", "reboot"]);
}

#[test]
fn reboot_is_made_while_attempts_are_left() {
    let mut sim = Sim::new();
    sim.set_var("boot_counter", "1");
    restart(&mut sim, false).unwrap();
    assert_eq!(count(&sim, "Reboot"), 1);
}

#[test]
fn reboot_is_refused_when_the_countdown_has_ended() {
    for value in [Some("0"), Some("-3"), None] {
        let mut sim = Sim::new();
        if let Some(value) = value {
            sim.set_var("boot_counter", value);
        }
        let error = restart(&mut sim, false).unwrap_err();
        assert!(matches!(error, RebootError::CountdownEnded));
        assert_eq!(error.message(), "countdown ended, check greenboot-rollback status");
        assert_eq!(count(&sim, "Reboot"), 0);
    }
}

#[test]
fn reboot_that_did_not_start_is_an_error() {
    let machine = handle_reboot(true);
    let machine = machine.resume(Reply::NotLaunched(String::from("systemctl: not found")));
    let error = machine.outcome().unwrap().unwrap_err();
    assert_eq!(error.message(), "systemctl: not found");
    let machine = handle_reboot(true).resume(Sim::exited(false, "", ""));
    assert!(machine.outcome().unwrap().is_ok());
}

#[test]
fn banner_text_ends_with_a_full_stop() {
    match handle_motd("Greenboot healthcheck is in progress") {
        Request::WriteBanner(text) => assert_eq!(text, "Greenboot healthcheck is in progress."),
        other => panic!("unexpected request: {:?}", other),
    }
    assert!(motd_outcome(Reply::Written).is_ok());
    let error = motd_outcome(Reply::NotWritten(String::from("Permission denied"))).unwrap_err();
    assert_eq!(error.message(), "Error writing motd: Permission denied");
    assert!(motd_outcome(Reply::Flag(true)).is_err());
}

#[test]
fn reboot_needs_a_readable_counter() {
    let mut sim = Sim::new();
    sim.set_var("boot_counter", "many");
    let error = restart(&mut sim, false).unwrap_err();
    assert!(matches!(error, RebootError::CounterUnreadable(GrubError::InvalidCounter(_))));
    assert_eq!(error.message(), "boot_counter has invalid value: many");
    assert_eq!(count(&sim, "Reboot"), 0);
}
