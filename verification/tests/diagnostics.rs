use greenboot::command::command_line;
use greenboot::diagnostics::{run_diagnostics, unused_names, Diagnosis, DiagnosticsError};
use greenboot::host::{Output, Reply, Request};
use greenboot::scripts::{
    root_path, run_green, run_red, script_name, ScriptFailure, ScriptRun, ScriptRunResult, Sweep,
    Tier,
};

/// A system in memory that answers the library's requests.
#[allow(dead_code)]
struct Sim {
    boot_writable: bool,
    mount_table_readable: bool,
    remount_succeeds: bool,
    vars: Vec<(String, String)>,
    directories: Vec<String>,
    /// Path, whether the script passes, what it prints.
    scripts: Vec<(String, bool, String)>,
    deployment_status: Option<String>,
    rollback_succeeds: bool,
    journal: String,
    banner: Option<String>,
    banner_writable: bool,
    log: Vec<Request>,
    /// Whether every edit found the boot partition writable.
    edits_were_bracketed: bool,
}

#[allow(dead_code)]
impl Sim {
    fn new() -> Sim {
        Sim {
            boot_writable: false,
            mount_table_readable: true,
            remount_succeeds: true,
            vars: Vec::new(),
            directories: Vec::new(),
            scripts: Vec::new(),
            deployment_status: None,
            rollback_succeeds: true,
            journal: String::new(),
            banner: None,
            banner_writable: true,
            log: Vec::new(),
            edits_were_bracketed: true,
        }
    }

    fn exited(success: bool, stdout: &str, stderr: &str) -> Reply {
        Reply::Exited(Output {
            success,
            status: String::from(if success { "exit status: 0" } else { "exit status: 1" }),
            stdout: stdout.as_bytes().to_vec(),
            stderr: stderr.as_bytes().to_vec(),
        })
    }

    fn set_var(&mut self, key: &str, value: &str) {
        match self.vars.iter_mut().find(|(k, _)| k == key) {
            Some(entry) => entry.1 = String::from(value),
            None => self.vars.push((String::from(key), String::from(value))),
        }
    }

    fn var(&self, key: &str) -> Option<String> {
        self.vars.iter().find(|(k, _)| k == key).map(|(_, v)| v.clone())
    }

    fn add_script(&mut self, directory: &str, name: &str, passes: bool) {
        if !self.directories.iter().any(|d| d == directory) {
            self.directories.push(String::from(directory));
        }
        self.scripts.push((format!("{}{}", directory, name), passes, format!("{} ran", name)));
    }

    fn executed(&self) -> Vec<String> {
        let mut paths = Vec::new();
        for request in &self.log {
            if let Request::RunScript(path) = request {
                paths.push(path.clone());
            }
        }
        paths
    }

    fn listing(&self) -> String {
        let mut text = String::new();
        for (key, value) in &self.vars {
            text.push_str(&format!("{}={}\n", key, value));
        }
        text
    }

    fn perform(&mut self, request: Request) -> Reply {
        self.log.push(request.clone());
        match request {
            Request::ReadMountTable => {
                if self.mount_table_readable {
                    let options = if self.boot_writable { "rw,relatime" } else { "ro,relatime" };
                    Reply::Text(format!(
                        "rootfs / rootfs rw 0 0\nnone /boot tmpfs {} 0 0\n",
                        options
                    ))
                } else {
                    Reply::Unreadable
                }
            }
            Request::Remount { writable } => {
                if self.remount_succeeds {
                    self.boot_writable = writable;
                    Sim::exited(true, "", "")
                } else {
                    Sim::exited(false, "", "mount: /boot: permission denied")
                }
            }
            Request::ListVariables => {
                let text = self.listing();
                Sim::exited(true, &text, "")
            }
            Request::EditVariable(edit) => {
                if !self.boot_writable {
                    self.edits_were_bracketed = false;
                }
                let words = command_line(&Request::EditVariable(edit), "grubenv").unwrap();
                if words[2] == "set" {
                    let (key, value) = words[3].split_once('=').unwrap();
                    self.set_var(key, value);
                } else {
                    self.vars.retain(|(k, _)| *k != words[3]);
                }
                Sim::exited(true, "", "")
            }
            Request::IsDirectory(path) => Reply::Flag(self.directories.iter().any(|d| *d == path)),
            Request::FindScripts(pattern) => {
                let directory = pattern.strip_suffix("*.sh").unwrap();
                let mut found = Vec::new();
                for (path, _, _) in &self.scripts {
                    if let Some(name) = path.strip_prefix(directory) {
                        if !name.contains('/') && name.ends_with(".sh") {
                            found.push(path.clone());
                        }
                    }
                }
                Reply::Paths(found)
            }
            Request::RunScript(path) => match self.scripts.iter().find(|(p, _, _)| *p == path) {
                Some((_, passes, prints)) => Sim::exited(*passes, prints, ""),
                None => Reply::NotLaunched(String::from("No such file or directory")),
            },
            Request::DeploymentStatus => match &self.deployment_status {
                Some(document) => Sim::exited(true, document, ""),
                None => Reply::NotLaunched(String::from("bootc: command not found")),
            },
            Request::Rollback(_) => Sim::exited(self.rollback_succeeds, "", ""),
            Request::Reboot => Sim::exited(true, "", ""),
            Request::PreviousBootJournal => {
                let text = self.journal.clone();
                Sim::exited(true, &text, "")
            }
            Request::WriteBanner(text) => {
                if self.banner_writable {
                    self.banner = Some(text);
                    Reply::Written
                } else {
                    Reply::NotWritten(String::from("Permission denied"))
                }
            }
        }
    }
}

static GREENBOOT_INSTALL_PATHS: [&str; 2] = ["/usr/lib/greenboot", "/etc/greenboot"];

fn check(sim: &mut Sim, disabled: Vec<String>) -> Diagnosis {
    let mut machine = run_diagnostics(disabled);
    loop {
        match machine.pending() {
            Some(request) => {
                let reply = sim.perform(request);
                machine = machine.resume(reply);
            }
            None => {
                assert!(machine.is_finished());
                return machine.outcome().unwrap();
            }
        }
    }
}

fn sweep(sim: &mut Sim, start: Sweep) -> ScriptRunResult {
    let mut machine = start;
    loop {
        match machine.pending() {
            Some(request) => {
                let reply = sim.perform(request);
                machine = machine.resume(reply);
            }
            None => return machine.outcome().unwrap(),
        }
    }
}

fn setup_folder_structure(passing: bool) -> Sim {
    let required_path = format!("{}/check/required.d/", GREENBOOT_INSTALL_PATHS[1]);
    let wanted_path = format!("{}/check/wanted.d/", GREENBOOT_INSTALL_PATHS[1]);
    let mut sim = Sim::new();

    // Create passing script in both required and wanted
    sim.add_script(&required_path, "passing_script.sh", true);
    sim.add_script(&wanted_path, "passing_script.sh", true);

    // Create failing script in wanted.d
    sim.add_script(&wanted_path, "failing_script.sh", false);

    if !passing {
        // Create failing script in required.d for failure cases
        sim.add_script(&required_path, "failing_script.sh", false);
    }
    sim
}

/// validate when the required folder is not found
#[test]
fn missing_required_folder() {
    let mut sim = Sim::new();
    assert_eq!(
        check(&mut sim, vec![]).result.unwrap_err().message(),
        String::from("cannot find any required.d folder")
    );
}

#[test]
fn test_passed_diagnostics() {
    let mut sim = setup_folder_structure(true);
    let state = check(&mut sim, vec![]).result;
    assert!(state.is_ok());
}

#[test]
fn test_skip_nonexistent_script() {
    let nonexistent_script_name = "nonexistent_script.sh".to_string();
    let mut sim = setup_folder_structure(true);

    // Try to skip a script that doesn't exist
    let state = check(&mut sim, vec![nonexistent_script_name.clone()]).result;
    assert!(
        state.unwrap().contains(&nonexistent_script_name),
        "non existent script names did not match"
    );
}

#[test]
fn test_skip_failing_script() {
    let mut sim = setup_folder_structure(false);

    // Skip the failing script in required.d
    let state = check(&mut sim, vec!["failing_script.sh".to_string()]).result;
    assert!(
        state.is_ok(),
        "Should pass when skipping failing required script"
    );
}

#[test]
fn required_failure_fails_the_check() {
    let mut sim = setup_folder_structure(false);
    let diagnosis = check(&mut sim, vec![]);
    let error = diagnosis.result.unwrap_err();
    assert_eq!(
        error.message(),
        "required health-check failed, skipping remaining scripts"
    );
    match error {
        DiagnosticsError::RequiredFailed(failures) => {
            assert_eq!(failures.len(), 1);
            assert_eq!(
                failures[0].message(),
                "required script /etc/greenboot/check/required.d/failing_script.sh failed!\nfailing_script.sh ran\n"
            );
        }
        other => panic!("unexpected error: {:?}", other),
    }
    // No wanted script ran.
    assert!(sim.executed().iter().all(|path| path.contains("/required.d/")));
    assert!(diagnosis.wanted_failures.is_empty());
}

#[test]
fn missing_required_folder_whatever_is_disabled() {
    let mut sim = Sim::new();
    sim.add_script("/etc/greenboot/check/wanted.d/", "a.sh", true);
    let disabled = vec![String::from("a.sh"), String::from("b.sh")];
    let diagnosis = check(&mut sim, disabled);
    assert!(matches!(diagnosis.result, Err(DiagnosticsError::ConfigurationMissing)));
    assert!(sim.executed().is_empty());
    let asked: Vec<String> = sim.log.iter().map(|r| format!("{:?}", r)).collect();
    assert_eq!(
        asked,
        vec![
            "IsDirectory(\"/usr/lib/greenboot/check/required.d/\")",
            "IsDirectory(\"/etc/greenboot/check/required.d/\")",
        ]
    );
}

#[test]
fn wanted_failure_is_reported_and_does_not_fail_the_check() {
    let mut sim = setup_folder_structure(true);
    let diagnosis = check(&mut sim, vec![]);
    assert_eq!(diagnosis.result.unwrap(), Vec::<String>::new());
    assert_eq!(diagnosis.wanted_failures.len(), 1);
    match &diagnosis.wanted_failures[0] {
        ScriptFailure::Exited { tier, path, .. } => {
            assert_eq!(*tier, Tier::Wanted);
            assert_eq!(path, "/etc/greenboot/check/wanted.d/failing_script.sh");
        }
        other => panic!("unexpected failure: {:?}", other),
    }
    assert_eq!(
        sim.executed(),
        vec![
            "/etc/greenboot/check/required.d/passing_script.sh",
            "/etc/greenboot/check/wanted.d/passing_script.sh",
            "/etc/greenboot/check/wanted.d/failing_script.sh",
        ]
    );
}

#[test]
fn disabled_script_is_skipped_and_never_run() {
    let mut sim = setup_folder_structure(false);
    let disabled = vec![
        String::from("failing_script.sh"),
        String::from("absent.sh"),
        String::from("absent.sh"),
    ];
    let diagnosis = check(&mut sim, disabled);
    assert_eq!(diagnosis.result.unwrap(), vec![String::from("absent.sh")]);
    assert!(diagnosis.wanted_failures.is_empty());
    assert!(sim.executed().iter().all(|path| !path.ends_with("failing_script.sh")));
    assert_eq!(sim.executed().len(), 2);
}

#[test]
fn both_roots_are_checked_in_order() {
    let mut sim = Sim::new();
    sim.add_script("/usr/lib/greenboot/check/required.d/", "one.sh", true);
    sim.add_script("/etc/greenboot/check/required.d/", "two.sh", true);
    sim.add_script("/usr/lib/greenboot/check/wanted.d/", "three.sh", false);
    sim.add_script("/etc/greenboot/check/wanted.d/", "four.sh", false);
    let diagnosis = check(&mut sim, vec![]);
    assert!(diagnosis.result.is_ok());
    assert_eq!(diagnosis.wanted_failures.len(), 2);
    assert_eq!(
        sim.executed(),
        vec![
            "/usr/lib/greenboot/check/required.d/one.sh",
            "/etc/greenboot/check/required.d/two.sh",
            "/usr/lib/greenboot/check/wanted.d/three.sh",
            "/etc/greenboot/check/wanted.d/four.sh",
        ]
    );
}

#[test]
fn required_failure_at_the_first_root_ends_the_check() {
    let mut sim = Sim::new();
    sim.add_script("/usr/lib/greenboot/check/required.d/", "a.sh", false);
    sim.add_script("/usr/lib/greenboot/check/required.d/", "b.sh", true);
    sim.add_script("/etc/greenboot/check/required.d/", "c.sh", true);
    let diagnosis = check(&mut sim, vec![]);
    assert!(matches!(diagnosis.result, Err(DiagnosticsError::RequiredFailed(_))));
    assert_eq!(sim.executed(), vec!["/usr/lib/greenboot/check/required.d/a.sh"]);
    assert!(!sim
        .log
        .iter()
        .any(|r| matches!(r, Request::IsDirectory(p) if p.starts_with("/etc/"))));
}

#[test]
fn required_run_stops_at_the_first_failure() {
    let run = ScriptRun::start(Tier::Required, "/r/", Vec::new());
    assert!(matches!(run.pending(), Some(Request::FindScripts(p)) if p == "/r/*.sh"));
    let found = vec![String::from("/r/a.sh"), String::from("/r/b.sh"), String::from("/r/c.sh")];
    let run = run.resume(Reply::Paths(found));
    assert!(matches!(run.pending(), Some(Request::RunScript(p)) if p == "/r/a.sh"));
    let run = run.resume(Sim::exited(true, "", ""));
    assert!(matches!(run.pending(), Some(Request::RunScript(p)) if p == "/r/b.sh"));
    let run = run.resume(Sim::exited(false, "out", "err"));
    assert!(run.pending().is_none());
    assert!(run.is_finished());
    let result = run.outcome().unwrap();
    assert_eq!(result.errors.len(), 1);
    assert_eq!(result.errors[0].message(), "required script /r/b.sh failed!\nout\nerr");
    assert!(result.skipped.is_empty());
}

#[test]
fn other_tiers_run_every_script() {
    let run = ScriptRun::start(Tier::Wanted, "/w/", vec![String::from("b.sh")]);
    let found = vec![
        String::from("/w/a.sh"),
        String::from("/w/b.sh"),
        String::from("/w/c.sh"),
        String::from("/w/b.sh"),
    ];
    let run = run.resume(Reply::Paths(found));
    assert!(matches!(run.pending(), Some(Request::RunScript(p)) if p == "/w/a.sh"));
    let run = run.resume(Reply::NotLaunched(String::from("Exec format error")));
    assert!(matches!(run.pending(), Some(Request::RunScript(p)) if p == "/w/c.sh"));
    let run = run.resume(Sim::exited(false, "", ""));
    assert!(run.pending().is_none());
    let result = run.outcome().unwrap();
    assert_eq!(result.skipped, vec!["b.sh", "b.sh"]);
    assert_eq!(result.errors.len(), 2);
    assert_eq!(result.errors[0].message(), "Exec format error");
    assert_eq!(result.errors[1].message(), "wanted script /w/c.sh failed!\n\n");
}

#[test]
fn run_without_scripts_ends_at_once() {
    let run = ScriptRun::start(Tier::Green, "/g/", Vec::new());
    let run = run.resume(Reply::Paths(Vec::new()));
    assert!(run.pending().is_none());
    let result = run.outcome().unwrap();
    assert!(result.errors.is_empty());
    assert!(result.skipped.is_empty());

    let run = ScriptRun::start(Tier::Wanted, "/w/", vec![String::from("only.sh")]);
    let run = run.resume(Reply::Paths(vec![String::from("/w/only.sh")]));
    assert!(run.pending().is_none());
    assert_eq!(run.outcome().unwrap().skipped, vec!["only.sh"]);
}

#[test]
fn refused_pattern_is_the_single_failure() {
    let run = ScriptRun::start(Tier::Required, "/r/[/", Vec::new());
    assert!(run.pending().is_none());
    let result = run.outcome().unwrap();
    assert_eq!(result.errors.len(), 1);
    assert!(matches!(&result.errors[0], ScriptFailure::Pattern { pattern, .. } if pattern == "/r/[/*.sh"));
    assert_eq!(
        result.errors[0].message(),
        "Pattern syntax error near position 3: invalid range pattern"
    );
    let run = ScriptRun::start(Tier::Required, "/r/***/", Vec::new());
    assert_eq!(
        run.outcome().unwrap().errors[0].message(),
        "Pattern syntax error near position 5: wildcards are either regular `*` or recursive `**`"
    );
}

#[test]
fn accepted_pattern_waits_for_the_scripts() {
    let run = ScriptRun::start(Tier::Wanted, "/etc/greenboot/check/wanted.d/", Vec::new());
    assert!(!run.is_finished());
    assert!(run.outcome().is_none());
}

#[test]
fn script_names_are_what_follows_the_last_slash() {
    assert_eq!(script_name("/etc/greenboot/green.d/a.sh"), Some(String::from("a.sh")));
    assert_eq!(script_name("a.sh"), Some(String::from("a.sh")));
    assert_eq!(script_name("/a/b/"), None);
    assert_eq!(script_name(""), None);
    assert_eq!(script_name("/a/.."), None);
    assert_eq!(script_name("/a/."), None);
    assert_eq!(script_name(".."), None);
    assert_eq!(script_name("/a/..."), Some(String::from("...")));
}

#[test]
fn entries_without_a_name_are_passed_over() {
    let run = ScriptRun::start(Tier::Wanted, "/w/", Vec::new());
    let run = run.resume(Reply::Paths(vec![String::from("/w/"), String::from("/w/x.sh")]));
    assert!(matches!(run.pending(), Some(Request::RunScript(p)) if p == "/w/x.sh"));
}

#[test]
fn remediation_runs_at_every_root_and_reports_failures() {
    let mut sim = Sim::new();
    sim.add_script("/usr/lib/greenboot/red.d/", "a.sh", false);
    sim.add_script("/etc/greenboot/red.d/", "b.sh", false);
    sim.add_script("/etc/greenboot/red.d/", "c.sh", true);
    sim.add_script("/etc/greenboot/green.d/", "d.sh", true);
    let result = sweep(&mut sim, run_red());
    assert_eq!(result.errors.len(), 2);
    assert_eq!(
        result.errors[0].message(),
        "red script /usr/lib/greenboot/red.d/a.sh failed!\na.sh ran\n"
    );
    assert_eq!(
        sim.executed(),
        vec![
            "/usr/lib/greenboot/red.d/a.sh",
            "/etc/greenboot/red.d/b.sh",
            "/etc/greenboot/red.d/c.sh",
        ]
    );
    let mut sim = Sim::new();
    sim.add_script("/etc/greenboot/green.d/", "d.sh", true);
    sim.add_script("/etc/greenboot/red.d/", "e.sh", true);
    let result = sweep(&mut sim, run_green());
    assert!(result.errors.is_empty());
    assert_eq!(sim.executed(), vec!["/etc/greenboot/green.d/d.sh"]);
}

#[test]
fn unused_disables_keep_the_order_of_the_list() {
    let disabled = vec![
        String::from("c.sh"),
        String::from("a.sh"),
        String::from("c.sh"),
        String::from("b.sh"),
    ];
    let skipped = vec![String::from("a.sh")];
    assert_eq!(unused_names(&disabled, &skipped), vec!["c.sh", "b.sh"]);
    assert_eq!(unused_names(&Vec::new(), &skipped), Vec::<String>::new());
}

#[test]
fn script_command_line() {
    let words = command_line(&Request::RunScript(String::from("/x/y.sh")), "").unwrap();
    assert_eq!(words, vec!["bash", "-C", "/x/y.sh"]);
    assert!(command_line(&Request::FindScripts(String::from("/x/*.sh")), "").is_none());
    assert!(command_line(&Request::IsDirectory(String::from("/x")), "").is_none());
}

#[test]
fn tier_directories() {
    assert_eq!(Tier::Required.directory("/etc/greenboot"), "/etc/greenboot/check/required.d/");
    assert_eq!(Tier::Wanted.directory("/etc/greenboot"), "/etc/greenboot/check/wanted.d/");
    assert_eq!(Tier::Green.directory("/usr/lib/greenboot"), "/usr/lib/greenboot/green.d/");
    assert_eq!(Tier::Red.directory("/usr/lib/greenboot"), "/usr/lib/greenboot/red.d/");
    assert_eq!(root_path(0), "/usr/lib/greenboot");
    assert_eq!(root_path(1), "/etc/greenboot");
}
