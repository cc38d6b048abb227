//! The two commands of the program: the health check of a boot with all that
//! follows from its verdict, and the rollback.

use crate::diagnostics::{
    law_diagnostics_wf, run_diagnostics, Diagnosis, DiagnosisView, Diagnostics,
    DiagnosticsStage, DiagnosticsView,
};
use crate::grub::{
    law_update_wf, set_boot_counter, set_boot_status, unset_boot_counter, GrubError,
    GrubErrorView, Update, UpdateStage, UpdateView,
};
use crate::handler::{
    handle_motd, handle_reboot, handle_rollback, law_rollback_wf, Reboot, RebootError,
    RebootErrorView, RebootView, Rollback, RollbackError, RollbackErrorView, RollbackView,
};
use crate::health::{
    check_previous_rollback, generate_motd_message, motd_message, previous_rollback, JournalError,
    JournalErrorView,
};
use crate::host::{
    optional_request, strings, Reply, ReplyView, Request, RequestView, VarEdit, Variable,
};
use crate::scripts::{
    failures, law_sweep_wf, run_green, run_red, ScriptFailure, ScriptFailureView, Sweep,
    SweepView, Tier,
};
use vstd::prelude::*;
use vstd::string::StringExecFns;

verus! {

/// Why a health check ended with an error.
#[derive(Debug)]
pub enum HealthError {
    /// The boot is healthy, and the verdict could not be recorded.
    Status(GrubError),
    /// The boot is unhealthy.
    Unhealthy,
}

/// The model of a [`HealthError`].
pub enum HealthErrorView {
    Status(GrubErrorView),
    Unhealthy,
}

impl View for HealthError {
    type V = HealthErrorView;

    open spec fn view(&self) -> HealthErrorView {
        match self {
            HealthError::Status(e) => HealthErrorView::Status(e@),
            HealthError::Unhealthy => HealthErrorView::Unhealthy,
        }
    }
}

impl HealthErrorView {
    /// The error in words.
    pub open spec fn message(self) -> Seq<char> {
        match self {
            HealthErrorView::Status(e) => e.message(),
            HealthErrorView::Unhealthy => "greenboot healthcheck failed"@,
        }
    }
}

impl HealthError {
    /// The error in words.
    pub fn message(&self) -> (r: String)
        ensures
            r@ == self@.message(),
    {
        match self {
            HealthError::Status(e) => e.message(),
            HealthError::Unhealthy => String::from_str("greenboot healthcheck failed"),
        }
    }
}

/// What a health check found and did, for the log. Only `failure` decides
/// how the command ends; every other failure here was passed over.
#[derive(Debug)]
pub struct HealthReport {
    pub failure: Option<HealthError>,
    /// Whether the previous boot was rolled back.
    pub previous_rollback: bool,
    pub journal_failure: Option<JournalError>,
    /// Why the banner that announces the check was not written.
    pub announce_failure: Option<String>,
    pub diagnosis: Option<Diagnosis>,
    /// The failures of the scripts that ran after the verdict.
    pub remediation_failures: Vec<ScriptFailure>,
    /// Why the banner with the verdict was not written.
    pub banner_failure: Option<String>,
    /// Why the verdict of an unhealthy boot was not recorded.
    pub status_failure: Option<GrubError>,
    /// Why the attempt budget was not set.
    pub counter_failure: Option<GrubError>,
    /// Why the system was not restarted.
    pub reboot_failure: Option<RebootError>,
}

/// The model of a [`HealthReport`].
pub struct HealthReportView {
    pub failure: Option<HealthErrorView>,
    pub previous_rollback: bool,
    pub journal_failure: Option<JournalErrorView>,
    pub announce_failure: Option<Seq<char>>,
    pub diagnosis: Option<DiagnosisView>,
    pub remediation_failures: Seq<ScriptFailureView>,
    pub banner_failure: Option<Seq<char>>,
    pub status_failure: Option<GrubErrorView>,
    pub counter_failure: Option<GrubErrorView>,
    pub reboot_failure: Option<RebootErrorView>,
}

impl View for HealthReport {
    type V = HealthReportView;

    open spec fn view(&self) -> HealthReportView {
        HealthReportView {
            failure: match self.failure {
                Some(e) => Some(e@),
                None => None,
            },
            previous_rollback: self.previous_rollback,
            journal_failure: match self.journal_failure {
                Some(e) => Some(e@),
                None => None,
            },
            announce_failure: match self.announce_failure {
                Some(why) => Some(why@),
                None => None,
            },
            diagnosis: match self.diagnosis {
                Some(d) => Some(d@),
                None => None,
            },
            remediation_failures: failures(self.remediation_failures@),
            banner_failure: match self.banner_failure {
                Some(why) => Some(why@),
                None => None,
            },
            status_failure: match self.status_failure {
                Some(e) => Some(e@),
                None => None,
            },
            counter_failure: match self.counter_failure {
                Some(e) => Some(e@),
                None => None,
            },
            reboot_failure: match self.reboot_failure {
                Some(e) => Some(e@),
                None => None,
            },
        }
    }
}

/// Where a health check stands.
#[derive(Clone, Copy, Debug, PartialEq, Eq, Structural)]
pub enum HealthStage {
    /// Reads the journal of the previous boot.
    Journal,
    /// Writes the banner that says the check is in progress.
    Announcing,
    /// Runs the required and the wanted scripts.
    Checking,
    /// Runs the scripts that follow a healthy boot.
    Green,
    /// Writes the banner of a healthy boot.
    BannerGreen,
    /// Records the healthy verdict.
    StatusGreen,
    /// Writes the banner of an unhealthy boot.
    BannerRed,
    /// Runs the scripts that follow an unhealthy boot.
    Red,
    /// Records the unhealthy verdict.
    StatusRed,
    /// Gives the system its attempt budget.
    Counter,
    /// Restarts the system, if attempts are left.
    Rebooting,
    Finished,
}

/// The health check of a boot, with all that follows from its verdict.
#[derive(Debug)]
pub struct HealthCheck {
    /// The attempt budget that an unhealthy boot is given.
    pub max_reboot: u16,
    pub stage: HealthStage,
    pub diagnostics: Option<Diagnostics>,
    pub sweep: Option<Sweep>,
    pub update: Option<Update>,
    pub reboot: Option<Reboot>,
    pub report: HealthReport,
}

/// The model of a [`HealthCheck`]: the state that the machine is proved to follow.
pub struct HealthCheckView {
    pub max_reboot: u16,
    pub stage: HealthStage,
    pub diagnostics: Option<DiagnosticsView>,
    pub sweep: Option<SweepView>,
    pub update: Option<UpdateView>,
    pub reboot: Option<RebootView>,
    pub report: HealthReportView,
}

impl View for HealthCheck {
    type V = HealthCheckView;

    open spec fn view(&self) -> HealthCheckView {
        HealthCheckView {
            max_reboot: self.max_reboot,
            stage: self.stage,
            diagnostics: match self.diagnostics {
                Some(m) => Some(m@),
                None => None,
            },
            sweep: match self.sweep {
                Some(m) => Some(m@),
                None => None,
            },
            update: match self.update {
                Some(m) => Some(m@),
                None => None,
            },
            reboot: match self.reboot {
                Some(m) => Some(m@),
                None => None,
            },
            report: self.report@,
        }
    }
}

/// The request that puts a status message on the banner.
pub open spec fn banner(base_msg: Seq<char>, previous_rollback: bool) -> RequestView {
    RequestView::WriteBanner(motd_message(base_msg, previous_rollback) + "."@)
}

/// The edits that record a verdict.
pub open spec fn verdict_update(success: bool) -> UpdateView {
    UpdateView::start(
        false,
        VarEdit::Assign {
            key: Variable::BootSuccess,
            value: if success {
                1u16
            } else {
                0u16
            },
        },
        if success {
            Some(VarEdit::Clear { key: Variable::BootCounter })
        } else {
            None
        },
    )
}

impl HealthCheckView {
    /// A health check that has asked for nothing yet.
    pub open spec fn start(max_reboot: u16, disabled: Seq<Seq<char>>) -> HealthCheckView {
        HealthCheckView {
            max_reboot,
            stage: HealthStage::Journal,
            diagnostics: Some(DiagnosticsView::start(disabled)),
            sweep: None,
            update: None,
            reboot: None,
            report: HealthReportView {
                failure: None,
                previous_rollback: false,
                journal_failure: None,
                announce_failure: None,
                diagnosis: None,
                remediation_failures: Seq::empty(),
                banner_failure: None,
                status_failure: None,
                counter_failure: None,
                reboot_failure: None,
            },
        }
    }

    /// The check as it takes up the scripts that follow the verdict; where
    /// they end at once it goes on to what comes after them.
    pub open spec fn remediate(self, tier: Tier) -> HealthCheckView {
        let sweep = SweepView::start(tier, Seq::empty());
        match sweep.outcome() {
            Some((errors, _)) => self.remediated(tier, errors),
            None => HealthCheckView {
                stage: if tier == Tier::Green {
                    HealthStage::Green
                } else {
                    HealthStage::Red
                },
                sweep: Some(sweep),
                ..self
            },
        }
    }

    /// The check once the scripts that follow the verdict have ended: after
    /// a healthy boot the banner is written, after an unhealthy one the
    /// verdict is recorded. Their failures are kept for the report.
    pub open spec fn remediated(
        self,
        tier: Tier,
        errors: Seq<ScriptFailureView>,
    ) -> HealthCheckView {
        let noted = HealthCheckView {
            sweep: None,
            report: HealthReportView { remediation_failures: errors, ..self.report },
            ..self
        };
        if tier == Tier::Green {
            HealthCheckView { stage: HealthStage::BannerGreen, ..noted }
        } else {
            HealthCheckView {
                stage: HealthStage::StatusRed,
                update: Some(verdict_update(false)),
                ..noted
            }
        }
    }

    /// The outside work that the check waits for.
    pub open spec fn pending(self) -> Option<RequestView> {
        match self.stage {
            HealthStage::Journal => Some(RequestView::PreviousBootJournal),
            HealthStage::Announcing => Some(
                banner("Greenboot healthcheck is in progress"@, self.report.previous_rollback),
            ),
            HealthStage::Checking => match self.diagnostics {
                Some(m) => m.pending(),
                None => None,
            },
            HealthStage::Green | HealthStage::Red => match self.sweep {
                Some(m) => m.pending(),
                None => None,
            },
            HealthStage::BannerGreen => Some(
                banner(
                    "Greenboot healthcheck passed - status is GREEN"@,
                    self.report.previous_rollback,
                ),
            ),
            HealthStage::BannerRed => Some(
                banner(
                    "Greenboot healthcheck failed - status is RED"@,
                    self.report.previous_rollback,
                ),
            ),
            HealthStage::StatusGreen
            | HealthStage::StatusRed
            | HealthStage::Counter => match self.update {
                Some(m) => m.pending(),
                None => None,
            },
            HealthStage::Rebooting => match self.reboot {
                Some(m) => m.pending(),
                None => None,
            },
            HealthStage::Finished => None,
        }
    }

    /// The check after the reply to what it waited for.
    ///
    /// A journal that cannot be read counts as no rollback, and a banner that
    /// cannot be written is passed over. After a healthy verdict only the
    /// failure to record it is an error. After an unhealthy verdict nothing
    /// that fails keeps the next step from being taken, and the command ends
    /// with an error.
    pub open spec fn resume(self, reply: ReplyView) -> HealthCheckView {
        match self.stage {
            HealthStage::Journal => HealthCheckView {
                stage: HealthStage::Announcing,
                report: HealthReportView {
                    previous_rollback: match previous_rollback(reply) {
                        Ok(found) => found,
                        Err(_) => false,
                    },
                    journal_failure: match previous_rollback(reply) {
                        Ok(_) => None,
                        Err(e) => Some(e),
                    },
                    ..self.report
                },
                ..self
            },
            HealthStage::Announcing => HealthCheckView {
                stage: HealthStage::Checking,
                report: HealthReportView { announce_failure: reply.write_failure(), ..self.report },
                ..self
            },
            HealthStage::Checking => match self.diagnostics {
                Some(m) => match m.resume(reply).outcome() {
                    Some(diagnosis) => {
                        let checked = HealthCheckView {
                            diagnostics: None,
                            report: HealthReportView {
                                diagnosis: Some(diagnosis),
                                ..self.report
                            },
                            ..self
                        };
                        if diagnosis.result is Ok {
                            checked.remediate(Tier::Green)
                        } else {
                            HealthCheckView { stage: HealthStage::BannerRed, ..checked }
                        }
                    },
                    None => HealthCheckView { diagnostics: Some(m.resume(reply)), ..self },
                },
                None => self,
            },
            HealthStage::Green => match self.sweep {
                Some(m) => match m.resume(reply).outcome() {
                    Some((errors, _)) => self.remediated(Tier::Green, errors),
                    None => HealthCheckView { sweep: Some(m.resume(reply)), ..self },
                },
                None => self,
            },
            HealthStage::BannerGreen => HealthCheckView {
                stage: HealthStage::StatusGreen,
                update: Some(verdict_update(true)),
                report: HealthReportView { banner_failure: reply.write_failure(), ..self.report },
                ..self
            },
            HealthStage::StatusGreen => match self.update {
                Some(m) => match m.resume(reply).outcome() {
                    Some(recorded) => HealthCheckView {
                        stage: HealthStage::Finished,
                        update: None,
                        report: HealthReportView {
                            failure: match recorded {
                                Ok(()) => None,
                                Err(e) => Some(HealthErrorView::Status(e)),
                            },
                            ..self.report
                        },
                        ..self
                    },
                    None => HealthCheckView { update: Some(m.resume(reply)), ..self },
                },
                None => self,
            },
            HealthStage::BannerRed => HealthCheckView {
                report: HealthReportView { banner_failure: reply.write_failure(), ..self.report },
                ..self
            }.remediate(Tier::Red),
            HealthStage::Red => match self.sweep {
                Some(m) => match m.resume(reply).outcome() {
                    Some((errors, _)) => self.remediated(Tier::Red, errors),
                    None => HealthCheckView { sweep: Some(m.resume(reply)), ..self },
                },
                None => self,
            },
            HealthStage::StatusRed => match self.update {
                Some(m) => match m.resume(reply).outcome() {
                    Some(recorded) => HealthCheckView {
                        stage: HealthStage::Counter,
                        update: Some(
                            UpdateView::start(
                                true,
                                VarEdit::Assign {
                                    key: Variable::BootCounter,
                                    value: self.max_reboot,
                                },
                                None,
                            ),
                        ),
                        report: HealthReportView {
                            status_failure: match recorded {
                                Ok(()) => None,
                                Err(e) => Some(e),
                            },
                            ..self.report
                        },
                        ..self
                    },
                    None => HealthCheckView { update: Some(m.resume(reply)), ..self },
                },
                None => self,
            },
            HealthStage::Counter => match self.update {
                Some(m) => match m.resume(reply).outcome() {
                    Some(counted) => HealthCheckView {
                        stage: HealthStage::Rebooting,
                        update: None,
                        reboot: Some(RebootView::start(false)),
                        report: HealthReportView {
                            counter_failure: match counted {
                                Ok(()) => None,
                                Err(e) => Some(e),
                            },
                            ..self.report
                        },
                        ..self
                    },
                    None => HealthCheckView { update: Some(m.resume(reply)), ..self },
                },
                None => self,
            },
            HealthStage::Rebooting => match self.reboot {
                Some(m) => match m.resume(reply).outcome() {
                    Some(restarted) => HealthCheckView {
                        stage: HealthStage::Finished,
                        reboot: None,
                        report: HealthReportView {
                            failure: Some(HealthErrorView::Unhealthy),
                            reboot_failure: match restarted {
                                Ok(()) => None,
                                Err(e) => Some(e),
                            },
                            ..self.report
                        },
                        ..self
                    },
                    None => HealthCheckView { reboot: Some(m.resume(reply)), ..self },
                },
                None => self,
            },
            HealthStage::Finished => self,
        }
    }

    /// What the check found and did, once it has ended.
    pub open spec fn outcome(self) -> Option<HealthReportView> {
        match self.stage {
            HealthStage::Finished => Some(self.report),
            _ => None,
        }
    }
}

/// Starts the health check of a boot. An unhealthy boot is given the attempt
/// budget; the names on the list are the health checks that must not run.
pub fn health_check(max_reboot: u16, disabled_healthchecks: Vec<String>) -> (m: HealthCheck)
    ensures
        m@ == HealthCheckView::start(max_reboot, strings(disabled_healthchecks@)),
{
    let m = HealthCheck {
        max_reboot,
        stage: HealthStage::Journal,
        diagnostics: Some(run_diagnostics(disabled_healthchecks)),
        sweep: None,
        update: None,
        reboot: None,
        report: HealthReport {
            failure: None,
            previous_rollback: false,
            journal_failure: None,
            announce_failure: None,
            diagnosis: None,
            remediation_failures: Vec::new(),
            banner_failure: None,
            status_failure: None,
            counter_failure: None,
            reboot_failure: None,
        },
    };
    proof {
        assert(m@.report.remediation_failures =~= Seq::<ScriptFailureView>::empty());
    }
    m
}

impl HealthCheck {
    fn remediated(self, tier: Tier, errors: Vec<ScriptFailure>) -> (r: HealthCheck)
        ensures
            r@ == self@.remediated(tier, failures(errors@)),
    {
        let HealthCheck { max_reboot, stage, diagnostics, sweep: _, update, reboot, report } = self;
        let report = HealthReport { remediation_failures: errors, ..report };
        match tier {
            Tier::Green => HealthCheck {
                max_reboot,
                stage: HealthStage::BannerGreen,
                diagnostics,
                sweep: None,
                update,
                reboot,
                report,
            },
            _ => HealthCheck {
                max_reboot,
                stage: HealthStage::StatusRed,
                diagnostics,
                sweep: None,
                update: Some(set_boot_status(false)),
                reboot,
                report,
            },
        }
    }

    fn remediate(self, tier: Tier) -> (r: HealthCheck)
        ensures
            r@ == self@.remediate(tier),
    {
        let sweep = match tier {
            Tier::Green => run_green(),
            Tier::Red => run_red(),
            _ => Sweep::start(tier, Vec::new()),
        };
        proof {
            assert(strings(Seq::<String>::empty()) =~= Seq::<Seq<char>>::empty());
        }
        if sweep.is_finished() {
            match sweep.outcome() {
                Some(result) => self.remediated(tier, result.errors),
                None => self,
            }
        } else {
            let HealthCheck {
                max_reboot,
                stage: _,
                diagnostics,
                sweep: _,
                update,
                reboot,
                report,
            } = self;
            HealthCheck {
                max_reboot,
                stage: match tier {
                    Tier::Green => HealthStage::Green,
                    _ => HealthStage::Red,
                },
                diagnostics,
                sweep: Some(sweep),
                update,
                reboot,
                report,
            }
        }
    }

    /// The outside work that the check waits for; none once it has ended.
    pub fn pending(&self) -> (r: Option<Request>)
        ensures
            optional_request(r) == self@.pending(),
    {
        match self.stage {
            HealthStage::Journal => Some(Request::PreviousBootJournal),
            HealthStage::Announcing => Some(
                handle_motd(
                    generate_motd_message(
                        "Greenboot healthcheck is in progress",
                        self.report.previous_rollback,
                    ).as_str(),
                ),
            ),
            HealthStage::Checking => match &self.diagnostics {
                Some(m) => m.pending(),
                None => None,
            },
            HealthStage::Green | HealthStage::Red => match &self.sweep {
                Some(m) => m.pending(),
                None => None,
            },
            HealthStage::BannerGreen => Some(
                handle_motd(
                    generate_motd_message(
                        "Greenboot healthcheck passed - status is GREEN",
                        self.report.previous_rollback,
                    ).as_str(),
                ),
            ),
            HealthStage::BannerRed => Some(
                handle_motd(
                    generate_motd_message(
                        "Greenboot healthcheck failed - status is RED",
                        self.report.previous_rollback,
                    ).as_str(),
                ),
            ),
            HealthStage::StatusGreen
            | HealthStage::StatusRed
            | HealthStage::Counter => match &self.update {
                Some(m) => m.pending(),
                None => None,
            },
            HealthStage::Rebooting => match &self.reboot {
                Some(m) => m.pending(),
                None => None,
            },
            HealthStage::Finished => None,
        }
    }

    /// The check after the reply to the request it waited for.
    pub fn resume(self, reply: Reply) -> (next: HealthCheck)
        ensures
            next@ == self@.resume(reply@),
    {
        let HealthCheck { max_reboot, stage, diagnostics, sweep, update, reboot, report } = self;
        match stage {
            HealthStage::Journal => {
                let (found, journal_failure) = match check_previous_rollback(&reply) {
                    Ok(found) => (found, None),
                    Err(e) => (false, Some(e)),
                };
                HealthCheck {
                    max_reboot,
                    stage: HealthStage::Announcing,
                    diagnostics,
                    sweep,
                    update,
                    reboot,
                    report: HealthReport { previous_rollback: found, journal_failure, ..report },
                }
            },
            HealthStage::Announcing => HealthCheck {
                max_reboot,
                stage: HealthStage::Checking,
                diagnostics,
                sweep,
                update,
                reboot,
                report: HealthReport { announce_failure: reply.into_write_failure(), ..report },
            },
            HealthStage::Checking => match diagnostics {
                Some(m) => {
                    let m = m.resume(reply);
                    if m.is_finished() {
                        match m.outcome() {
                            Some(diagnosis) => {
                                let passed = diagnosis.result.is_ok();
                                let checked = HealthCheck {
                                    max_reboot,
                                    stage,
                                    diagnostics: None,
                                    sweep,
                                    update,
                                    reboot,
                                    report: HealthReport { diagnosis: Some(diagnosis), ..report },
                                };
                                if passed {
                                    checked.remediate(Tier::Green)
                                } else {
                                    HealthCheck { stage: HealthStage::BannerRed, ..checked }
                                }
                            },
                            None => HealthCheck {
                                max_reboot,
                                stage,
                                diagnostics: None,
                                sweep,
                                update,
                                reboot,
                                report,
                            },
                        }
                    } else {
                        HealthCheck {
                            max_reboot,
                            stage,
                            diagnostics: Some(m),
                            sweep,
                            update,
                            reboot,
                            report,
                        }
                    }
                },
                None => HealthCheck {
                    max_reboot,
                    stage,
                    diagnostics: None,
                    sweep,
                    update,
                    reboot,
                    report,
                },
            },
            HealthStage::Green | HealthStage::Red => {
                let tier = match stage {
                    HealthStage::Green => Tier::Green,
                    _ => Tier::Red,
                };
                match sweep {
                    Some(m) => {
                        let m = m.resume(reply);
                        let rest = HealthCheck {
                            max_reboot,
                            stage,
                            diagnostics,
                            sweep: None,
                            update,
                            reboot,
                            report,
                        };
                        if m.is_finished() {
                            match m.outcome() {
                                Some(result) => rest.remediated(tier, result.errors),
                                None => rest,
                            }
                        } else {
                            HealthCheck { sweep: Some(m), ..rest }
                        }
                    },
                    None => HealthCheck {
                        max_reboot,
                        stage,
                        diagnostics,
                        sweep: None,
                        update,
                        reboot,
                        report,
                    },
                }
            },
            HealthStage::BannerGreen => HealthCheck {
                max_reboot,
                stage: HealthStage::StatusGreen,
                diagnostics,
                sweep,
                update: Some(set_boot_status(true)),
                reboot,
                report: HealthReport { banner_failure: reply.into_write_failure(), ..report },
            },
            HealthStage::BannerRed => {
                let noted = HealthCheck {
                    max_reboot,
                    stage,
                    diagnostics,
                    sweep,
                    update,
                    reboot,
                    report: HealthReport { banner_failure: reply.into_write_failure(), ..report },
                };
                noted.remediate(Tier::Red)
            },
            HealthStage::StatusGreen => match update {
                Some(m) => {
                    let m = m.resume(reply);
                    match m.stage {
                        UpdateStage::Finished => HealthCheck {
                            max_reboot,
                            stage: HealthStage::Finished,
                            diagnostics,
                            sweep,
                            update: None,
                            reboot,
                            report: HealthReport {
                                failure: match m.outcome() {
                                    Some(Err(e)) => Some(HealthError::Status(e)),
                                    _ => None,
                                },
                                ..report
                            },
                        },
                        _ => HealthCheck {
                            max_reboot,
                            stage,
                            diagnostics,
                            sweep,
                            update: Some(m),
                            reboot,
                            report,
                        },
                    }
                },
                None => HealthCheck {
                    max_reboot,
                    stage,
                    diagnostics,
                    sweep,
                    update: None,
                    reboot,
                    report,
                },
            },
            HealthStage::StatusRed => match update {
                Some(m) => {
                    let m = m.resume(reply);
                    match m.stage {
                        UpdateStage::Finished => HealthCheck {
                            max_reboot,
                            stage: HealthStage::Counter,
                            diagnostics,
                            sweep,
                            update: Some(set_boot_counter(max_reboot)),
                            reboot,
                            report: HealthReport {
                                status_failure: match m.outcome() {
                                    Some(Err(e)) => Some(e),
                                    _ => None,
                                },
                                ..report
                            },
                        },
                        _ => HealthCheck {
                            max_reboot,
                            stage,
                            diagnostics,
                            sweep,
                            update: Some(m),
                            reboot,
                            report,
                        },
                    }
                },
                None => HealthCheck {
                    max_reboot,
                    stage,
                    diagnostics,
                    sweep,
                    update: None,
                    reboot,
                    report,
                },
            },
            HealthStage::Counter => match update {
                Some(m) => {
                    let m = m.resume(reply);
                    match m.stage {
                        UpdateStage::Finished => HealthCheck {
                            max_reboot,
                            stage: HealthStage::Rebooting,
                            diagnostics,
                            sweep,
                            update: None,
                            reboot: Some(handle_reboot(false)),
                            report: HealthReport {
                                counter_failure: match m.outcome() {
                                    Some(Err(e)) => Some(e),
                                    _ => None,
                                },
                                ..report
                            },
                        },
                        _ => HealthCheck {
                            max_reboot,
                            stage,
                            diagnostics,
                            sweep,
                            update: Some(m),
                            reboot,
                            report,
                        },
                    }
                },
                None => HealthCheck {
                    max_reboot,
                    stage,
                    diagnostics,
                    sweep,
                    update: None,
                    reboot,
                    report,
                },
            },
            HealthStage::Rebooting => match reboot {
                Some(m) => {
                    let m = m.resume(reply);
                    if m.is_finished() {
                        HealthCheck {
                            max_reboot,
                            stage: HealthStage::Finished,
                            diagnostics,
                            sweep,
                            update,
                            reboot: None,
                            report: HealthReport {
                                failure: Some(HealthError::Unhealthy),
                                reboot_failure: match m.outcome() {
                                    Some(Err(e)) => Some(e),
                                    _ => None,
                                },
                                ..report
                            },
                        }
                    } else {
                        HealthCheck {
                            max_reboot,
                            stage,
                            diagnostics,
                            sweep,
                            update,
                            reboot: Some(m),
                            report,
                        }
                    }
                },
                None => HealthCheck {
                    max_reboot,
                    stage,
                    diagnostics,
                    sweep,
                    update,
                    reboot: None,
                    report,
                },
            },
            HealthStage::Finished => HealthCheck {
                max_reboot,
                stage,
                diagnostics,
                sweep,
                update,
                reboot,
                report,
            },
        }
    }

    /// What the check found and did; nothing while it still waits.
    pub fn outcome(self) -> (r: Option<HealthReport>)
        ensures
            match r {
                Some(report) => self@.outcome() == Some(report@),
                None => self@.outcome() is None,
            },
    {
        match self.stage {
            HealthStage::Finished => Some(self.report),
            _ => None,
        }
    }
}

/// How far a health check has come on the way that follows an unhealthy
/// verdict; zero before that way is taken.
pub open spec fn red_rank(stage: HealthStage) -> int {
    match stage {
        HealthStage::BannerRed => 1,
        HealthStage::Red => 2,
        HealthStage::StatusRed => 3,
        HealthStage::Counter => 4,
        HealthStage::Rebooting => 5,
        HealthStage::Finished => 6,
        _ => 0,
    }
}

/// After an unhealthy verdict nothing that fails stops the sequence: whatever
/// the reply, the check stays on its way or moves forward on it, one step at
/// most at a time from the recording of the verdict on, so that the budget is
/// set after the verdict and the restart is tried after the budget. It ends
/// only out of the restart, and then as unhealthy.
pub proof fn law_unhealthy_runs_to_the_end(m: HealthCheckView, reply: ReplyView)
    requires
        red_rank(m.stage) >= 1,
        m.stage != HealthStage::Finished,
    ensures
        red_rank(m.resume(reply).stage) >= red_rank(m.stage),
        red_rank(m.stage) >= 3 ==> red_rank(m.resume(reply).stage) <= red_rank(m.stage) + 1,
        red_rank(m.resume(reply).stage) <= 3 || red_rank(m.stage) >= 3,
        m.resume(reply).stage == HealthStage::Finished ==> m.stage == HealthStage::Rebooting
            && m.resume(reply).report.failure == Some(HealthErrorView::Unhealthy),
        m.resume(reply).stage == HealthStage::Counter && m.stage != HealthStage::Counter
            ==> m.resume(reply).update == Some(
            UpdateView::start(
                true,
                VarEdit::Assign { key: Variable::BootCounter, value: m.max_reboot },
                None,
            ),
        ),
        m.resume(reply).stage == HealthStage::Rebooting && m.stage != HealthStage::Rebooting
            ==> m.resume(reply).reboot == Some(RebootView::start(false)),
{
}

/// What follows the checks is chosen by their verdict alone: a pass leads to
/// the scripts and the banner of a healthy boot, a failure to the banner of an
/// unhealthy one; and the diagnosis is kept for the report as it came.
pub proof fn law_verdict_decides(m: HealthCheckView, reply: ReplyView)
    requires
        m.stage == HealthStage::Checking,
        m.diagnostics is Some,
        m.diagnostics->0.resume(reply).outcome() is Some,
    ensures
        m.resume(reply).report.diagnosis == m.diagnostics->0.resume(reply).outcome(),
        m.diagnostics->0.resume(reply).outcome()->0.result is Ok ==> m.resume(reply).stage
            == HealthStage::Green || m.resume(reply).stage == HealthStage::BannerGreen,
        m.diagnostics->0.resume(reply).outcome()->0.result is Err ==> m.resume(reply).stage
            == HealthStage::BannerRed,
{
}

/// After a healthy verdict the success flag is set and the counter cleared,
/// and the command ends with an error exactly if that update failed.
pub proof fn law_healthy_is_recorded(m: HealthCheckView, reply: ReplyView)
    requires
        m.stage == HealthStage::BannerGreen || (m.stage == HealthStage::StatusGreen
            && m.update is Some && m.update->0.resume(reply).outcome() is Some),
    ensures
        m.stage == HealthStage::BannerGreen ==> m.resume(reply).stage == HealthStage::StatusGreen
            && m.resume(reply).update == Some(verdict_update(true)),
        m.stage == HealthStage::StatusGreen ==> m.resume(reply).stage == HealthStage::Finished
            && m.resume(reply).report.failure == match m.update->0.resume(reply).outcome()->0 {
            Ok(()) => None::<HealthErrorView>,
            Err(e) => Some(HealthErrorView::Status(e)),
        },
{
}

/// Why a rollback command ended with an error.
#[derive(Debug)]
pub enum TriggerError {
    /// The rollback was refused or failed.
    NotInitiated(RollbackError),
    /// The system was rolled back, and the attempt counter could not be cleared.
    Counter(GrubError),
    /// The system was rolled back, and could not be restarted.
    Reboot(RebootError),
}

/// The model of a [`TriggerError`].
pub enum TriggerErrorView {
    NotInitiated(RollbackErrorView),
    Counter(GrubErrorView),
    Reboot(RebootErrorView),
}

impl View for TriggerError {
    type V = TriggerErrorView;

    open spec fn view(&self) -> TriggerErrorView {
        match self {
            TriggerError::NotInitiated(e) => TriggerErrorView::NotInitiated(e@),
            TriggerError::Counter(e) => TriggerErrorView::Counter(e@),
            TriggerError::Reboot(e) => TriggerErrorView::Reboot(e@),
        }
    }
}

impl TriggerErrorView {
    /// The error in words.
    pub open spec fn message(self) -> Seq<char> {
        match self {
            TriggerErrorView::NotInitiated(e) => e.message() + ", Rollback is not initiated"@,
            TriggerErrorView::Counter(e) => e.message(),
            TriggerErrorView::Reboot(e) => e.message(),
        }
    }
}

impl TriggerError {
    /// The error in words.
    pub fn message(&self) -> (r: String)
        ensures
            r@ == self@.message(),
    {
        match self {
            TriggerError::NotInitiated(e) => {
                let mut out = e.message();
                out.append(", Rollback is not initiated");
                out
            },
            TriggerError::Counter(e) => e.message(),
            TriggerError::Reboot(e) => e.message(),
        }
    }
}

/// Where a rollback command stands.
#[derive(Clone, Copy, Debug, PartialEq, Eq, Structural)]
pub enum TriggerStage {
    /// Rolls the system back, if that is due.
    RollingBack,
    /// Clears the attempt counter.
    Clearing,
    /// Restarts the system.
    Rebooting,
    Finished,
}

/// The rollback command: the rollback, and after a rollback that succeeded
/// the clearing of the attempt counter and an unconditional restart.
#[derive(Debug)]
pub struct TriggerRollback {
    pub stage: TriggerStage,
    pub rollback: Option<Rollback>,
    pub update: Option<Update>,
    pub reboot: Option<Reboot>,
    pub failure: Option<TriggerError>,
}

/// The model of a [`TriggerRollback`]: the state that the machine is proved to follow.
pub struct TriggerRollbackView {
    pub stage: TriggerStage,
    pub rollback: Option<RollbackView>,
    pub update: Option<UpdateView>,
    pub reboot: Option<RebootView>,
    pub failure: Option<TriggerErrorView>,
}

impl View for TriggerRollback {
    type V = TriggerRollbackView;

    open spec fn view(&self) -> TriggerRollbackView {
        TriggerRollbackView {
            stage: self.stage,
            rollback: match self.rollback {
                Some(m) => Some(m@),
                None => None,
            },
            update: match self.update {
                Some(m) => Some(m@),
                None => None,
            },
            reboot: match self.reboot {
                Some(m) => Some(m@),
                None => None,
            },
            failure: match self.failure {
                Some(e) => Some(e@),
                None => None,
            },
        }
    }
}

impl TriggerRollbackView {
    /// A rollback command that has asked for nothing yet.
    pub open spec fn start() -> TriggerRollbackView {
        TriggerRollbackView {
            stage: TriggerStage::RollingBack,
            rollback: Some(RollbackView::start()),
            update: None,
            reboot: None,
            failure: None,
        }
    }

    /// The command, ended by a failure.
    pub open spec fn fail(self, e: TriggerErrorView) -> TriggerRollbackView {
        TriggerRollbackView {
            stage: TriggerStage::Finished,
            rollback: None,
            update: None,
            reboot: None,
            failure: Some(e),
        }
    }

    /// The outside work that the command waits for.
    pub open spec fn pending(self) -> Option<RequestView> {
        match self.stage {
            TriggerStage::RollingBack => match self.rollback {
                Some(m) => m.pending(),
                None => None,
            },
            TriggerStage::Clearing => match self.update {
                Some(m) => m.pending(),
                None => None,
            },
            TriggerStage::Rebooting => match self.reboot {
                Some(m) => m.pending(),
                None => None,
            },
            TriggerStage::Finished => None,
        }
    }

    /// The command after the reply to what it waited for. Each step is taken
    /// only after the one before it has succeeded.
    pub open spec fn resume(self, reply: ReplyView) -> TriggerRollbackView {
        match self.stage {
            TriggerStage::RollingBack => match self.rollback {
                Some(m) => match m.resume(reply).outcome() {
                    Some(Ok(())) => TriggerRollbackView {
                        stage: TriggerStage::Clearing,
                        rollback: None,
                        update: Some(
                            UpdateView::start(
                                false,
                                VarEdit::Clear { key: Variable::BootCounter },
                                None,
                            ),
                        ),
                        ..self
                    },
                    Some(Err(e)) => self.fail(TriggerErrorView::NotInitiated(e)),
                    None => TriggerRollbackView { rollback: Some(m.resume(reply)), ..self },
                },
                None => self,
            },
            TriggerStage::Clearing => match self.update {
                Some(m) => match m.resume(reply).outcome() {
                    Some(Ok(())) => TriggerRollbackView {
                        stage: TriggerStage::Rebooting,
                        update: None,
                        reboot: Some(RebootView::start(true)),
                        ..self
                    },
                    Some(Err(e)) => self.fail(TriggerErrorView::Counter(e)),
                    None => TriggerRollbackView { update: Some(m.resume(reply)), ..self },
                },
                None => self,
            },
            TriggerStage::Rebooting => match self.reboot {
                Some(m) => match m.resume(reply).outcome() {
                    Some(Ok(())) => TriggerRollbackView {
                        stage: TriggerStage::Finished,
                        reboot: None,
                        ..self
                    },
                    Some(Err(e)) => self.fail(TriggerErrorView::Reboot(e)),
                    None => TriggerRollbackView { reboot: Some(m.resume(reply)), ..self },
                },
                None => self,
            },
            TriggerStage::Finished => self,
        }
    }

    /// How the command ended, once it has.
    pub open spec fn outcome(self) -> Option<Result<(), TriggerErrorView>> {
        match self.stage {
            TriggerStage::Finished => Some(
                match self.failure {
                    Some(e) => Err(e),
                    None => Ok(()),
                },
            ),
            _ => None,
        }
    }
}

/// Starts the rollback command.
pub fn trigger_rollback() -> (m: TriggerRollback)
    ensures
        m@ == TriggerRollbackView::start(),
{
    TriggerRollback {
        stage: TriggerStage::RollingBack,
        rollback: Some(handle_rollback()),
        update: None,
        reboot: None,
        failure: None,
    }
}

impl TriggerRollback {
    fn fail(e: TriggerError) -> (r: TriggerRollback)
        ensures
            r.stage == TriggerStage::Finished,
            r.rollback is None,
            r.update is None,
            r.reboot is None,
            r.failure == Some(e),
    {
        TriggerRollback {
            stage: TriggerStage::Finished,
            rollback: None,
            update: None,
            reboot: None,
            failure: Some(e),
        }
    }

    /// The outside work that the command waits for; none once it has ended.
    pub fn pending(&self) -> (r: Option<Request>)
        ensures
            optional_request(r) == self@.pending(),
    {
        match self.stage {
            TriggerStage::RollingBack => match &self.rollback {
                Some(m) => m.pending(),
                None => None,
            },
            TriggerStage::Clearing => match &self.update {
                Some(m) => m.pending(),
                None => None,
            },
            TriggerStage::Rebooting => match &self.reboot {
                Some(m) => m.pending(),
                None => None,
            },
            TriggerStage::Finished => None,
        }
    }

    /// The command after the reply to the request it waited for.
    pub fn resume(self, reply: Reply) -> (next: TriggerRollback)
        ensures
            next@ == self@.resume(reply@),
    {
        let TriggerRollback { stage, rollback, update, reboot, failure } = self;
        match stage {
            TriggerStage::RollingBack => match rollback {
                Some(m) => {
                    let m = m.resume(reply);
                    if m.is_finished() {
                        match m.outcome() {
                            Some(Err(e)) => TriggerRollback::fail(TriggerError::NotInitiated(e)),
                            _ => TriggerRollback {
                                stage: TriggerStage::Clearing,
                                rollback: None,
                                update: Some(unset_boot_counter()),
                                reboot,
                                failure,
                            },
                        }
                    } else {
                        TriggerRollback { stage, rollback: Some(m), update, reboot, failure }
                    }
                },
                None => TriggerRollback { stage, rollback: None, update, reboot, failure },
            },
            TriggerStage::Clearing => match update {
                Some(m) => {
                    let m = m.resume(reply);
                    match m.stage {
                        UpdateStage::Finished => match m.outcome() {
                            Some(Err(e)) => TriggerRollback::fail(TriggerError::Counter(e)),
                            _ => TriggerRollback {
                                stage: TriggerStage::Rebooting,
                                rollback,
                                update: None,
                                reboot: Some(handle_reboot(true)),
                                failure,
                            },
                        },
                        _ => TriggerRollback { stage, rollback, update: Some(m), reboot, failure },
                    }
                },
                None => TriggerRollback { stage, rollback, update: None, reboot, failure },
            },
            TriggerStage::Rebooting => match reboot {
                Some(m) => {
                    let m = m.resume(reply);
                    if m.is_finished() {
                        match m.outcome() {
                            Some(Err(e)) => TriggerRollback::fail(TriggerError::Reboot(e)),
                            _ => TriggerRollback {
                                stage: TriggerStage::Finished,
                                rollback,
                                update,
                                reboot: None,
                                failure,
                            },
                        }
                    } else {
                        TriggerRollback { stage, rollback, update, reboot: Some(m), failure }
                    }
                },
                None => TriggerRollback { stage, rollback, update, reboot: None, failure },
            },
            TriggerStage::Finished => TriggerRollback { stage, rollback, update, reboot, failure },
        }
    }

    /// How the command ended; nothing while it still waits.
    pub fn outcome(self) -> (r: Option<Result<(), TriggerError>>)
        ensures
            match r {
                None => self@.outcome() is None,
                Some(Ok(())) => self@.outcome() == Some(Ok::<(), TriggerErrorView>(())),
                Some(Err(e)) => self@.outcome() == Some(Err::<(), TriggerErrorView>(e@)),
            },
    {
        match self.stage {
            TriggerStage::Finished => match self.failure {
                Some(e) => Some(Err(e)),
                None => Some(Ok(())),
            },
            _ => None,
        }
    }
}

/// A rollback that was refused or failed ends the command at once: the
/// counter is left as it is and the system is not restarted. After a rollback
/// that succeeded the counter is cleared, and after that the system is
/// restarted without a look at the counter.
pub proof fn law_trigger_rollback(m: TriggerRollbackView, reply: ReplyView)
    requires
        m.failure is None,
    ensures
        m.stage == TriggerStage::RollingBack && m.rollback is Some ==> match m.rollback->0.resume(
            reply,
        ).outcome() {
            Some(Ok(())) => m.resume(reply).stage == TriggerStage::Clearing && m.resume(
                reply,
            ).update == Some(
                UpdateView::start(false, VarEdit::Clear { key: Variable::BootCounter }, None),
            ),
            Some(Err(e)) => m.resume(reply).pending() is None && m.resume(reply).outcome()
                == Some(Err::<(), TriggerErrorView>(TriggerErrorView::NotInitiated(e))),
            None => m.resume(reply).stage == TriggerStage::RollingBack,
        },
        m.stage == TriggerStage::Clearing && m.update is Some ==> match m.update->0.resume(
            reply,
        ).outcome() {
            Some(Ok(())) => m.resume(reply).stage == TriggerStage::Rebooting && m.resume(
                reply,
            ).pending() == Some(RequestView::Reboot),
            Some(Err(e)) => m.resume(reply).pending() is None && m.resume(reply).outcome()
                == Some(Err::<(), TriggerErrorView>(TriggerErrorView::Counter(e))),
            None => m.resume(reply).stage == TriggerStage::Clearing,
        },
{
}

impl HealthCheckView {
    /// What holds of every health check that was started and resumed: the
    /// machine of its stage is there, is in order, and has not ended.
    pub open spec fn wf(self) -> bool {
        match self.stage {
            HealthStage::Journal
            | HealthStage::Announcing
            | HealthStage::Checking => match self.diagnostics {
                Some(m) => m.wf() && m.stage != DiagnosticsStage::Finished,
                None => false,
            },
            HealthStage::Green | HealthStage::Red => match self.sweep {
                Some(m) => m.wf() && m.outcome() is None,
                None => false,
            },
            HealthStage::StatusGreen
            | HealthStage::StatusRed
            | HealthStage::Counter => match self.update {
                Some(m) => m.wf() && m.stage != UpdateStage::Finished,
                None => false,
            },
            HealthStage::Rebooting => match self.reboot {
                Some(m) => m.outcome() is None,
                None => false,
            },
            _ => true,
        }
    }
}

impl TriggerRollbackView {
    /// What holds of every rollback command that was started and resumed:
    /// the machine of its stage is there, is in order, and has not ended.
    pub open spec fn wf(self) -> bool {
        match self.stage {
            TriggerStage::RollingBack => match self.rollback {
                Some(m) => m.wf() && m.outcome() is None,
                None => false,
            },
            TriggerStage::Clearing => match self.update {
                Some(m) => m.wf() && m.stage != UpdateStage::Finished,
                None => false,
            },
            TriggerStage::Rebooting => match self.reboot {
                Some(m) => m.outcome() is None,
                None => false,
            },
            TriggerStage::Finished => true,
        }
    }
}

/// A health check starts in order and stays so, and a health check in order
/// has a report exactly when it waits for nothing: it never comes to a halt
/// in between.
pub proof fn law_health_check_wf(
    m: HealthCheckView,
    max_reboot: u16,
    disabled: Seq<Seq<char>>,
    reply: ReplyView,
)
    ensures
        HealthCheckView::start(max_reboot, disabled).wf(),
        m.wf() ==> m.resume(reply).wf(),
        m.wf() ==> (m.pending() is None <==> m.outcome() is Some),
{
    law_diagnostics_wf(DiagnosticsView::start(disabled), disabled, reply);
    law_sweep_wf(SweepView::start(Tier::Green, Seq::empty()), Tier::Green, Seq::empty(), reply);
    law_sweep_wf(SweepView::start(Tier::Red, Seq::empty()), Tier::Red, Seq::empty(), reply);
    law_update_wf(verdict_update(true), false, verdict_update(false).edit, None, reply);
    law_update_wf(
        verdict_update(true),
        false,
        verdict_update(true).edit,
        verdict_update(true).following,
        reply,
    );
    law_update_wf(
        verdict_update(true),
        true,
        VarEdit::Assign { key: Variable::BootCounter, value: m.max_reboot },
        None,
        reply,
    );
    if m.wf() {
        match m.stage {
            HealthStage::Checking => {
                law_diagnostics_wf(m.diagnostics->0, disabled, reply);
            },
            HealthStage::Green | HealthStage::Red => {
                law_sweep_wf(m.sweep->0, Tier::Green, Seq::empty(), reply);
            },
            HealthStage::StatusGreen | HealthStage::StatusRed | HealthStage::Counter => {
                law_update_wf(m.update->0, false, m.update->0.edit, None, reply);
            },
            HealthStage::Rebooting => {
                law_rollback_wf(RollbackView::start(), m.reboot->0, reply);
                law_rollback_wf(RollbackView::start(), m.reboot->0.resume(reply), reply);
            },
            _ => {},
        }
    }
}

/// A rollback command starts in order and stays so, and a command in order
/// has an outcome exactly when it waits for nothing.
pub proof fn law_trigger_rollback_wf(m: TriggerRollbackView, reply: ReplyView)
    ensures
        TriggerRollbackView::start().wf(),
        m.wf() ==> m.resume(reply).wf(),
        m.wf() ==> (m.pending() is None <==> m.outcome() is Some),
{
    law_update_wf(
        verdict_update(true),
        false,
        VarEdit::Clear { key: Variable::BootCounter },
        None,
        reply,
    );
    if m.wf() {
        match m.stage {
            TriggerStage::RollingBack => {
                law_rollback_wf(m.rollback->0, RebootView::start(true), reply);
                law_rollback_wf(m.rollback->0.resume(reply), RebootView::start(true), reply);
            },
            TriggerStage::Clearing => {
                law_update_wf(m.update->0, false, m.update->0.edit, None, reply);
            },
            TriggerStage::Rebooting => {
                law_rollback_wf(RollbackView::start(), m.reboot->0, reply);
                law_rollback_wf(RollbackView::start(), m.reboot->0.resume(reply), reply);
            },
            TriggerStage::Finished => {},
        }
    }
}

} // verus!
