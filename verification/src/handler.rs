//! After the health check: rolling the system back, restarting it, and the
//! status banner.

use crate::grub::{boot_counter, get_boot_counter, GrubError, GrubErrorView};
use crate::host::{
    optional_request, Deployment, OutputView, Reply, ReplyView, Request, RequestView,
};
use crate::json::{json_document, parse_json, Json, JsonView};
use crate::text::{push_signed_decimal, signed_decimal};
use vstd::prelude::*;
use vstd::string::StringExecFns;

verus! {

impl Deployment {
    /// The command of the deployment manager.
    pub open spec fn command_text(self) -> Seq<char> {
        match self {
            Deployment::Bootc => "bootc"@,
            Deployment::RpmOstree => "rpm-ostree"@,
        }
    }

    /// The command of the deployment manager.
    pub fn command(self) -> (r: &'static str)
        ensures
            r@ == self.command_text(),
    {
        match self {
            Deployment::Bootc => "bootc",
            Deployment::RpmOstree => "rpm-ostree",
        }
    }
}

/// The deployment manager that a status document names: the boolean at
/// `status.booted.incompatible` tells the two apart, and a document without
/// it names none.
pub open spec fn document_deployment(document: JsonView) -> Option<Deployment> {
    match document.member("status"@) {
        Some(status) => match status.member("booted"@) {
            Some(booted) => match booted.member("incompatible"@) {
                Some(incompatible) => match incompatible.as_flag() {
                    Some(true) => Some(Deployment::RpmOstree),
                    Some(false) => Some(Deployment::Bootc),
                    None => None,
                },
                None => None,
            },
            None => None,
        },
        None => None,
    }
}

/// The deployment manager that the reply to a status query shows: none where
/// the query did not start, did not succeed, or printed no JSON document.
pub open spec fn deployment(status: ReplyView) -> Option<Deployment> {
    match status.exit() {
        Err(_) => None,
        Ok(output) => if output.success {
            match json_document(output.stdout) {
                Some(document) => document_deployment(document),
                None => None,
            }
        } else {
            None
        },
    }
}

/// Reads the deployment manager off a status document.
pub fn deployment_of(document: &Json) -> (r: Option<Deployment>)
    ensures
        r == document_deployment(document@),
{
    let status = match document.get("status") {
        Some(status) => status,
        None => {
            return None;
        },
    };
    let booted = match status.get("booted") {
        Some(booted) => booted,
        None => {
            return None;
        },
    };
    let incompatible = match booted.get("incompatible") {
        Some(incompatible) => incompatible,
        None => {
            return None;
        },
    };
    match incompatible.as_bool() {
        Some(true) => Some(Deployment::RpmOstree),
        Some(false) => Some(Deployment::Bootc),
        None => None,
    }
}

/// Tells from the reply to a status query which deployment manager runs the
/// system.
pub fn detect_os_deployment(status: &Reply) -> (r: Option<Deployment>)
    ensures
        r == deployment(status@),
{
    match status {
        Reply::Exited(output) => {
            if !output.success {
                return None;
            }
            match parse_json(output.stdout.as_slice()) {
                Some(document) => deployment_of(&document),
                None => None,
            }
        },
        _ => None,
    }
}

/// Why the status banner was not written.
#[derive(Debug)]
pub struct MotdError {
    pub why: String,
}

/// The model of a [`MotdError`].
pub struct MotdErrorView {
    pub why: Seq<char>,
}

impl View for MotdError {
    type V = MotdErrorView;

    open spec fn view(&self) -> MotdErrorView {
        MotdErrorView { why: self.why@ }
    }
}

impl MotdErrorView {
    /// The error in words.
    pub open spec fn message(self) -> Seq<char> {
        "Error writing motd: "@ + self.why
    }
}

impl MotdError {
    /// The error in words.
    pub fn message(&self) -> (r: String)
        ensures
            r@ == self@.message(),
    {
        let mut out = String::from_str("Error writing motd: ");
        out.append(self.why.as_str());
        out
    }
}

/// The request that puts a status on the banner: the status and a full stop.
pub fn handle_motd(state: &str) -> (r: Request)
    ensures
        r@ == RequestView::WriteBanner(state@ + "."@),
{
    let mut text = String::from_str(state);
    text.append(".");
    Request::WriteBanner(text)
}

/// What came of writing the banner.
pub fn motd_outcome(reply: Reply) -> (r: Result<(), MotdError>)
    ensures
        match r {
            Ok(()) => reply@.write_failure() is None,
            Err(e) => reply@.write_failure() == Some(e.why@),
        },
{
    match reply.into_write_failure() {
        None => Ok(()),
        Some(why) => Err(MotdError { why }),
    }
}

/// Why the system was not restarted.
#[derive(Debug)]
pub enum RebootError {
    /// The attempt counter could not be read.
    CounterUnreadable(GrubError),
    /// No attempt is left, or none was ever counted: a rollback is due, not a
    /// restart.
    CountdownEnded,
    /// The restart could not be started.
    NotLaunched(String),
}

/// The model of a [`RebootError`].
pub enum RebootErrorView {
    CounterUnreadable(GrubErrorView),
    CountdownEnded,
    NotLaunched(Seq<char>),
}

impl View for RebootError {
    type V = RebootErrorView;

    open spec fn view(&self) -> RebootErrorView {
        match self {
            RebootError::CounterUnreadable(e) => RebootErrorView::CounterUnreadable(e@),
            RebootError::CountdownEnded => RebootErrorView::CountdownEnded,
            RebootError::NotLaunched(why) => RebootErrorView::NotLaunched(why@),
        }
    }
}

impl RebootErrorView {
    /// The error in words.
    pub open spec fn message(self) -> Seq<char> {
        match self {
            RebootErrorView::CounterUnreadable(e) => e.message(),
            RebootErrorView::CountdownEnded => "countdown ended, check greenboot-rollback status"@,
            RebootErrorView::NotLaunched(why) => why,
        }
    }
}

impl RebootError {
    /// The error in words.
    pub fn message(&self) -> (r: String)
        ensures
            r@ == self@.message(),
    {
        match self {
            RebootError::CounterUnreadable(e) => e.message(),
            RebootError::CountdownEnded => String::from_str(
                "countdown ended, check greenboot-rollback status",
            ),
            RebootError::NotLaunched(why) => why.clone(),
        }
    }
}

/// Where a restart stands.
#[derive(Clone, Copy, Debug, PartialEq, Eq, Structural)]
pub enum RebootStage {
    /// Waits for the listing that shows the attempt counter.
    Listing,
    /// Waits for the restart to be started.
    Restarting,
    Finished,
}

/// A restart of the system. Unless it is forced, it is made only while
/// attempts are left.
#[derive(Debug)]
pub struct Reboot {
    pub stage: RebootStage,
    pub failure: Option<RebootError>,
}

/// The model of a [`Reboot`]: the state that the machine is proved to follow.
pub struct RebootView {
    pub stage: RebootStage,
    pub failure: Option<RebootErrorView>,
}

impl View for Reboot {
    type V = RebootView;

    open spec fn view(&self) -> RebootView {
        RebootView {
            stage: self.stage,
            failure: match self.failure {
                Some(e) => Some(e@),
                None => None,
            },
        }
    }
}

impl RebootView {
    /// A restart that has asked for nothing yet.
    pub open spec fn start(force: bool) -> RebootView {
        RebootView {
            stage: if force {
                RebootStage::Restarting
            } else {
                RebootStage::Listing
            },
            failure: None,
        }
    }

    /// The restart, refused or failed.
    pub open spec fn fail(self, e: RebootErrorView) -> RebootView {
        RebootView { stage: RebootStage::Finished, failure: Some(e) }
    }

    /// The outside work that the restart waits for.
    pub open spec fn pending(self) -> Option<RequestView> {
        match self.stage {
            RebootStage::Listing => Some(RequestView::ListVariables),
            RebootStage::Restarting => Some(RequestView::Reboot),
            RebootStage::Finished => None,
        }
    }

    /// The restart after the reply to what it waited for. A counter that is
    /// absent, zero or negative refuses the restart; the exit status of the
    /// restart itself is not looked at.
    pub open spec fn resume(self, reply: ReplyView) -> RebootView {
        match self.stage {
            RebootStage::Listing => match boot_counter(reply) {
                Err(e) => self.fail(RebootErrorView::CounterUnreadable(e)),
                Ok(None) => self.fail(RebootErrorView::CountdownEnded),
                Ok(Some(count)) => if count <= 0 {
                    self.fail(RebootErrorView::CountdownEnded)
                } else {
                    RebootView { stage: RebootStage::Restarting, ..self }
                },
            },
            RebootStage::Restarting => match reply.exit() {
                Err(why) => self.fail(RebootErrorView::NotLaunched(why)),
                Ok(_) => RebootView { stage: RebootStage::Finished, ..self },
            },
            RebootStage::Finished => self,
        }
    }

    /// How the restart ended, once it has.
    pub open spec fn outcome(self) -> Option<Result<(), RebootErrorView>> {
        match self.stage {
            RebootStage::Finished => Some(
                match self.failure {
                    Some(e) => Err(e),
                    None => Ok(()),
                },
            ),
            _ => None,
        }
    }
}

/// Starts a restart of the system.
pub fn handle_reboot(force: bool) -> (m: Reboot)
    ensures
        m@ == RebootView::start(force),
{
    Reboot {
        stage: if force {
            RebootStage::Restarting
        } else {
            RebootStage::Listing
        },
        failure: None,
    }
}

impl Reboot {
    /// The outside work that the restart waits for; none once it has ended.
    pub fn pending(&self) -> (r: Option<Request>)
        ensures
            optional_request(r) == self@.pending(),
    {
        match self.stage {
            RebootStage::Listing => Some(Request::ListVariables),
            RebootStage::Restarting => Some(Request::Reboot),
            RebootStage::Finished => None,
        }
    }

    /// The restart after the reply to the request it waited for.
    pub fn resume(self, reply: Reply) -> (next: Reboot)
        ensures
            next@ == self@.resume(reply@),
    {
        match self.stage {
            RebootStage::Listing => match get_boot_counter(&reply) {
                Err(e) => Reboot {
                    stage: RebootStage::Finished,
                    failure: Some(RebootError::CounterUnreadable(e)),
                },
                Ok(None) => Reboot {
                    stage: RebootStage::Finished,
                    failure: Some(RebootError::CountdownEnded),
                },
                Ok(Some(count)) => {
                    if count <= 0 {
                        Reboot {
                            stage: RebootStage::Finished,
                            failure: Some(RebootError::CountdownEnded),
                        }
                    } else {
                        Reboot { stage: RebootStage::Restarting, failure: self.failure }
                    }
                },
            },
            RebootStage::Restarting => match reply.into_exit() {
                Err(why) => Reboot {
                    stage: RebootStage::Finished,
                    failure: Some(RebootError::NotLaunched(why)),
                },
                Ok(_) => Reboot { stage: RebootStage::Finished, failure: self.failure },
            },
            RebootStage::Finished => self,
        }
    }

    /// Whether the restart has ended.
    pub fn is_finished(&self) -> (r: bool)
        ensures
            r == self@.outcome() is Some,
    {
        match self.stage {
            RebootStage::Finished => true,
            _ => false,
        }
    }

    /// How the restart ended; nothing while it still waits.
    pub fn outcome(self) -> (r: Option<Result<(), RebootError>>)
        ensures
            match r {
                None => self@.outcome() is None,
                Some(Ok(())) => self@.outcome() == Some(Ok::<(), RebootErrorView>(())),
                Some(Err(e)) => self@.outcome() == Some(Err::<(), RebootErrorView>(e@)),
            },
    {
        match self.stage {
            RebootStage::Finished => match self.failure {
                Some(e) => Some(Err(e)),
                None => Some(Ok(())),
            },
            _ => None,
        }
    }
}

/// A forced restart asks for the restart at once and reads no counter. One
/// that is not forced is refused, without asking for a restart, unless the
/// counter is present and positive.
pub proof fn law_reboot(listing: ReplyView)
    ensures
        RebootView::start(true).pending() == Some(RequestView::Reboot),
        RebootView::start(false).pending() == Some(RequestView::ListVariables),
        match boot_counter(listing) {
            Ok(Some(count)) => if count > 0 {
                RebootView::start(false).resume(listing).pending() == Some(RequestView::Reboot)
            } else {
                RebootView::start(false).resume(listing).outcome() == Some(
                    Err::<(), RebootErrorView>(RebootErrorView::CountdownEnded),
                )
            },
            Ok(None) => RebootView::start(false).resume(listing).outcome() == Some(
                Err::<(), RebootErrorView>(RebootErrorView::CountdownEnded),
            ),
            Err(e) => RebootView::start(false).resume(listing).outcome() == Some(
                Err::<(), RebootErrorView>(RebootErrorView::CounterUnreadable(e)),
            ),
        },
{
}

/// Why the system was not rolled back.
#[derive(Debug)]
pub enum RollbackError {
    /// The attempt counter could not be read.
    CounterUnreadable(GrubError),
    /// The attempt counter is not set: whether a budget was ever given is
    /// unknown, so nothing is touched.
    ManualIntervention,
    /// Attempts are left.
    NotExhausted(i32),
    /// No deployment manager that can roll back was found.
    Unsupported,
    /// The rollback command could not be started.
    NotLaunched { deployment: Deployment, why: String },
    /// The rollback command ran and did not report success.
    Failed { deployment: Deployment, status: String },
}

/// The model of a [`RollbackError`].
pub enum RollbackErrorView {
    CounterUnreadable(GrubErrorView),
    ManualIntervention,
    NotExhausted(i32),
    Unsupported,
    NotLaunched { deployment: Deployment, why: Seq<char> },
    Failed { deployment: Deployment, status: Seq<char> },
}

impl View for RollbackError {
    type V = RollbackErrorView;

    open spec fn view(&self) -> RollbackErrorView {
        match self {
            RollbackError::CounterUnreadable(e) => RollbackErrorView::CounterUnreadable(e@),
            RollbackError::ManualIntervention => RollbackErrorView::ManualIntervention,
            RollbackError::NotExhausted(count) => RollbackErrorView::NotExhausted(*count),
            RollbackError::Unsupported => RollbackErrorView::Unsupported,
            RollbackError::NotLaunched { deployment, why } => RollbackErrorView::NotLaunched {
                deployment: *deployment,
                why: why@,
            },
            RollbackError::Failed { deployment, status } => RollbackErrorView::Failed {
                deployment: *deployment,
                status: status@,
            },
        }
    }
}

impl RollbackErrorView {
    /// The error in words.
    pub open spec fn message(self) -> Seq<char> {
        match self {
            RollbackErrorView::CounterUnreadable(e) => e.message(),
            RollbackErrorView::ManualIntervention =>
                "System is unhealthy but boot_counter is not set, manual intervention required"@,
            RollbackErrorView::NotExhausted(count) => "Rollback not initiated as boot_counter is "@
                + signed_decimal(count as int),
            RollbackErrorView::Unsupported =>
                "Rollback only supported in bootc or rpm-ostree environment."@,
            RollbackErrorView::NotLaunched { deployment, why } => "Failed to execute '"@
                + deployment.command_text() + " rollback'"@,
            RollbackErrorView::Failed { deployment, status } => "Rollback with '"@
                + deployment.command_text() + "' failed with status: "@ + status,
        }
    }
}

impl RollbackError {
    /// The error in words.
    pub fn message(&self) -> (r: String)
        ensures
            r@ == self@.message(),
    {
        match self {
            RollbackError::CounterUnreadable(e) => e.message(),
            RollbackError::ManualIntervention => String::from_str(
                "System is unhealthy but boot_counter is not set, manual intervention required",
            ),
            RollbackError::NotExhausted(count) => {
                let mut out = String::from_str("Rollback not initiated as boot_counter is ");
                push_signed_decimal(&mut out, *count);
                out
            },
            RollbackError::Unsupported => String::from_str(
                "Rollback only supported in bootc or rpm-ostree environment.",
            ),
            RollbackError::NotLaunched { deployment, why } => {
                let mut out = String::from_str("Failed to execute '");
                out.append(deployment.command());
                out.append(" rollback'");
                out
            },
            RollbackError::Failed { deployment, status } => {
                let mut out = String::from_str("Rollback with '");
                out.append(deployment.command());
                out.append("' failed with status: ");
                out.append(status.as_str());
                out
            },
        }
    }
}

/// Where a rollback stands.
#[derive(Clone, Copy, Debug, PartialEq, Eq, Structural)]
pub enum RollbackStage {
    /// Waits for the listing that shows the attempt counter.
    Listing,
    /// Waits for the deployment manager's status.
    Detecting,
    /// Waits for the rollback command.
    RollingBack,
    Finished,
}

/// A rollback to the previous deployment. It is attempted only when the
/// attempt budget is used up, and at most once.
#[derive(Debug)]
pub struct Rollback {
    pub stage: RollbackStage,
    /// The deployment manager that was detected.
    pub deployment: Option<Deployment>,
    pub failure: Option<RollbackError>,
}

/// The model of a [`Rollback`]: the state that the machine is proved to follow.
pub struct RollbackView {
    pub stage: RollbackStage,
    pub deployment: Option<Deployment>,
    pub failure: Option<RollbackErrorView>,
}

impl View for Rollback {
    type V = RollbackView;

    open spec fn view(&self) -> RollbackView {
        RollbackView {
            stage: self.stage,
            deployment: self.deployment,
            failure: match self.failure {
                Some(e) => Some(e@),
                None => None,
            },
        }
    }
}

/// What the end of a rollback command amounts to.
pub open spec fn rollback_failure(
    deployment: Deployment,
    exit: Result<OutputView, Seq<char>>,
) -> Option<RollbackErrorView> {
    match exit {
        Err(why) => Some(RollbackErrorView::NotLaunched { deployment, why }),
        Ok(output) => if output.success {
            None
        } else {
            Some(RollbackErrorView::Failed { deployment, status: output.status })
        },
    }
}

impl RollbackView {
    /// A rollback that has asked for nothing yet.
    pub open spec fn start() -> RollbackView {
        RollbackView { stage: RollbackStage::Listing, deployment: None, failure: None }
    }

    /// The rollback, refused or failed.
    pub open spec fn fail(self, e: RollbackErrorView) -> RollbackView {
        RollbackView { stage: RollbackStage::Finished, failure: Some(e), ..self }
    }

    /// The outside work that the rollback waits for.
    pub open spec fn pending(self) -> Option<RequestView> {
        match self.stage {
            RollbackStage::Listing => Some(RequestView::ListVariables),
            RollbackStage::Detecting => Some(RequestView::DeploymentStatus),
            RollbackStage::RollingBack => match self.deployment {
                Some(deployment) => Some(RequestView::Rollback(deployment)),
                None => None,
            },
            RollbackStage::Finished => None,
        }
    }

    /// The rollback after the reply to what it waited for.
    pub open spec fn resume(self, reply: ReplyView) -> RollbackView {
        match self.stage {
            RollbackStage::Listing => match boot_counter(reply) {
                Err(e) => self.fail(RollbackErrorView::CounterUnreadable(e)),
                Ok(None) => self.fail(RollbackErrorView::ManualIntervention),
                Ok(Some(count)) => if count <= 0 {
                    RollbackView { stage: RollbackStage::Detecting, ..self }
                } else {
                    self.fail(RollbackErrorView::NotExhausted(count))
                },
            },
            RollbackStage::Detecting => match deployment(reply) {
                Some(found) => RollbackView {
                    stage: RollbackStage::RollingBack,
                    deployment: Some(found),
                    ..self
                },
                None => self.fail(RollbackErrorView::Unsupported),
            },
            RollbackStage::RollingBack => match self.deployment {
                Some(found) => match rollback_failure(found, reply.exit()) {
                    Some(e) => self.fail(e),
                    None => RollbackView { stage: RollbackStage::Finished, ..self },
                },
                None => self.fail(RollbackErrorView::Unsupported),
            },
            RollbackStage::Finished => self,
        }
    }

    /// How the rollback ended, once it has.
    pub open spec fn outcome(self) -> Option<Result<(), RollbackErrorView>> {
        match self.stage {
            RollbackStage::Finished => Some(
                match self.failure {
                    Some(e) => Err(e),
                    None => Ok(()),
                },
            ),
            _ => None,
        }
    }
}

/// Starts a rollback to the previous deployment.
pub fn handle_rollback() -> (m: Rollback)
    ensures
        m@ == RollbackView::start(),
{
    Rollback { stage: RollbackStage::Listing, deployment: None, failure: None }
}

impl Rollback {
    /// The outside work that the rollback waits for; none once it has ended.
    pub fn pending(&self) -> (r: Option<Request>)
        ensures
            optional_request(r) == self@.pending(),
    {
        match self.stage {
            RollbackStage::Listing => Some(Request::ListVariables),
            RollbackStage::Detecting => Some(Request::DeploymentStatus),
            RollbackStage::RollingBack => match self.deployment {
                Some(deployment) => Some(Request::Rollback(deployment)),
                None => None,
            },
            RollbackStage::Finished => None,
        }
    }

    /// The rollback after the reply to the request it waited for.
    pub fn resume(self, reply: Reply) -> (next: Rollback)
        ensures
            next@ == self@.resume(reply@),
    {
        let Rollback { stage, deployment, failure } = self;
        match stage {
            RollbackStage::Listing => match get_boot_counter(&reply) {
                Err(e) => Rollback {
                    stage: RollbackStage::Finished,
                    deployment,
                    failure: Some(RollbackError::CounterUnreadable(e)),
                },
                Ok(None) => Rollback {
                    stage: RollbackStage::Finished,
                    deployment,
                    failure: Some(RollbackError::ManualIntervention),
                },
                Ok(Some(count)) => {
                    if count <= 0 {
                        Rollback { stage: RollbackStage::Detecting, deployment, failure }
                    } else {
                        Rollback {
                            stage: RollbackStage::Finished,
                            deployment,
                            failure: Some(RollbackError::NotExhausted(count)),
                        }
                    }
                },
            },
            RollbackStage::Detecting => match detect_os_deployment(&reply) {
                Some(found) => Rollback {
                    stage: RollbackStage::RollingBack,
                    deployment: Some(found),
                    failure,
                },
                None => Rollback {
                    stage: RollbackStage::Finished,
                    deployment,
                    failure: Some(RollbackError::Unsupported),
                },
            },
            RollbackStage::RollingBack => match deployment {
                Some(found) => match reply.into_exit() {
                    Err(why) => Rollback {
                        stage: RollbackStage::Finished,
                        deployment,
                        failure: Some(RollbackError::NotLaunched { deployment: found, why }),
                    },
                    Ok(output) => {
                        if output.success {
                            Rollback { stage: RollbackStage::Finished, deployment, failure }
                        } else {
                            Rollback {
                                stage: RollbackStage::Finished,
                                deployment,
                                failure: Some(
                                    RollbackError::Failed {
                                        deployment: found,
                                        status: output.status,
                                    },
                                ),
                            }
                        }
                    },
                },
                None => Rollback {
                    stage: RollbackStage::Finished,
                    deployment,
                    failure: Some(RollbackError::Unsupported),
                },
            },
            RollbackStage::Finished => Rollback { stage, deployment, failure },
        }
    }

    /// Whether the rollback has ended.
    pub fn is_finished(&self) -> (r: bool)
        ensures
            r == self@.outcome() is Some,
    {
        match self.stage {
            RollbackStage::Finished => true,
            _ => false,
        }
    }

    /// How the rollback ended; nothing while it still waits.
    pub fn outcome(self) -> (r: Option<Result<(), RollbackError>>)
        ensures
            match r {
                None => self@.outcome() is None,
                Some(Ok(())) => self@.outcome() == Some(Ok::<(), RollbackErrorView>(())),
                Some(Err(e)) => self@.outcome() == Some(Err::<(), RollbackErrorView>(e@)),
            },
    {
        match self.stage {
            RollbackStage::Finished => match self.failure {
                Some(e) => Some(Err(e)),
                None => Some(Ok(())),
            },
            _ => None,
        }
    }
}

/// A rollback is refused while the counter is absent or positive, and is
/// attempted, by asking which deployment manager is active, once the counter
/// is zero or negative. A refused rollback asks for nothing more.
pub proof fn law_rollback_eligibility(listing: ReplyView)
    ensures
        RollbackView::start().pending() == Some(RequestView::ListVariables),
        match boot_counter(listing) {
            Ok(None) => {
                &&& RollbackView::start().resume(listing).pending() is None
                &&& RollbackView::start().resume(listing).outcome() == Some(
                    Err::<(), RollbackErrorView>(RollbackErrorView::ManualIntervention),
                )
            },
            Ok(Some(count)) => if count > 0 {
                &&& RollbackView::start().resume(listing).pending() is None
                &&& RollbackView::start().resume(listing).outcome() == Some(
                    Err::<(), RollbackErrorView>(RollbackErrorView::NotExhausted(count)),
                )
            } else {
                RollbackView::start().resume(listing).pending() == Some(
                    RequestView::DeploymentStatus,
                )
            },
            Err(e) => RollbackView::start().resume(listing).outcome() == Some(
                Err::<(), RollbackErrorView>(RollbackErrorView::CounterUnreadable(e)),
            ),
        },
{
}

/// An eligible rollback invokes the deployment manager that was detected, once:
/// whatever comes of the command, the rollback has ended and asks for nothing
/// more. It succeeds exactly if the command ran and reported success, and
/// where no manager was detected it ends as unsupported without any command.
pub proof fn law_rollback_once(m: RollbackView, status: ReplyView, ended: ReplyView)
    requires
        m.stage == RollbackStage::Detecting,
        m.failure is None,
    ensures
        match deployment(status) {
            Some(found) => {
                &&& m.resume(status).pending() == Some(RequestView::Rollback(found))
                &&& m.resume(status).resume(ended).pending() is None
                &&& m.resume(status).resume(ended).outcome() == Some(
                    match rollback_failure(found, ended.exit()) {
                        Some(e) => Err::<(), RollbackErrorView>(e),
                        None => Ok::<(), RollbackErrorView>(()),
                    },
                )
            },
            None => {
                &&& m.resume(status).pending() is None
                &&& m.resume(status).outcome() == Some(
                    Err::<(), RollbackErrorView>(RollbackErrorView::Unsupported),
                )
            },
        },
{
}

impl RollbackView {
    /// What holds of every rollback that was started and resumed: the
    /// command is awaited only for a manager that was detected.
    pub open spec fn wf(self) -> bool {
        self.stage == RollbackStage::RollingBack ==> self.deployment is Some
    }
}

/// A rollback starts in order and stays so, and a rollback in order has an
/// outcome exactly when it waits for nothing. A restart has an outcome
/// exactly when it waits for nothing.
pub proof fn law_rollback_wf(m: RollbackView, restart: RebootView, reply: ReplyView)
    ensures
        RollbackView::start().wf(),
        m.wf() ==> m.resume(reply).wf(),
        m.wf() ==> (m.pending() is None <==> m.outcome() is Some),
        restart.pending() is None <==> restart.outcome() is Some,
{
}

} // verus!
