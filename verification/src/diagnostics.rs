//! The health check of a boot.
//!
//! The required scripts run first, root by root; a root without a directory
//! for them is passed over, but one such directory must exist somewhere. The
//! first required failure ends the check as failed. Only when every required
//! script has passed do the wanted scripts run, and their failures are
//! reported without changing the verdict. At the end the disable list is held
//! against what was actually passed over.

use crate::host::{optional_request, strings, Reply, ReplyView, Request, RequestView};
use crate::scripts::{
    base_name, copy_strings, failures, is_listed, law_run_wf, law_sweep_spares_disabled,
    law_sweep_wf, lemma_enter, lemma_resume_keeps_run, lemma_strings_add,
    lemma_sweep_resume_keeps, root_path, tier_directory, RunStage, RunView,
    ScriptFailure, ScriptFailureView, ScriptRun, ScriptRunResult, Sweep, SweepView, Tier,
    ROOT_COUNT,
};
use vstd::prelude::*;
use vstd::string::StringExecFns;

verus! {

/// Why a health check did not pass.
#[derive(Debug)]
pub enum DiagnosticsError {
    /// No search root has a directory of required scripts.
    ConfigurationMissing,
    /// A required script failed; the failures of its run are attached.
    RequiredFailed(Vec<ScriptFailure>),
}

/// The model of a [`DiagnosticsError`].
pub enum DiagnosticsErrorView {
    ConfigurationMissing,
    RequiredFailed(Seq<ScriptFailureView>),
}

impl View for DiagnosticsError {
    type V = DiagnosticsErrorView;

    open spec fn view(&self) -> DiagnosticsErrorView {
        match self {
            DiagnosticsError::ConfigurationMissing => DiagnosticsErrorView::ConfigurationMissing,
            DiagnosticsError::RequiredFailed(errors) => DiagnosticsErrorView::RequiredFailed(
                failures(errors@),
            ),
        }
    }
}

impl DiagnosticsErrorView {
    /// The error in words.
    pub open spec fn message(self) -> Seq<char> {
        match self {
            DiagnosticsErrorView::ConfigurationMissing => "cannot find any required.d folder"@,
            DiagnosticsErrorView::RequiredFailed(_) =>
                "required health-check failed, skipping remaining scripts"@,
        }
    }
}

impl DiagnosticsError {
    /// The error in words.
    pub fn message(&self) -> (r: String)
        ensures
            r@ == self@.message(),
    {
        match self {
            DiagnosticsError::ConfigurationMissing => String::from_str(
                "cannot find any required.d folder",
            ),
            DiagnosticsError::RequiredFailed(_) => String::from_str(
                "required health-check failed, skipping remaining scripts",
            ),
        }
    }
}

/// The disabled names that no run passed over: each name of the disable list
/// that is not among the skipped ones, once, in the order of the list.
pub open spec fn unused_disables(disabled: Seq<Seq<char>>, skipped: Seq<Seq<char>>) -> Seq<
    Seq<char>,
>
    decreases disabled.len(),
{
    if disabled.len() == 0 {
        Seq::empty()
    } else {
        let before = unused_disables(disabled.drop_last(), skipped);
        let name = disabled.last();
        if skipped.contains(name) || before.contains(name) {
            before
        } else {
            before.push(name)
        }
    }
}

/// A name is among the unused disables exactly if it is disabled and was
/// not passed over.
pub proof fn lemma_unused_member(
    disabled: Seq<Seq<char>>,
    skipped: Seq<Seq<char>>,
    name: Seq<char>,
)
    ensures
        unused_disables(disabled, skipped).contains(name) <==> disabled.contains(name)
            && !skipped.contains(name),
    decreases disabled.len(),
{
    if disabled.len() > 0 {
        let front = disabled.drop_last();
        let before = unused_disables(front, skipped);
        let last = disabled.last();
        let all = unused_disables(disabled, skipped);
        lemma_unused_member(front, skipped, name);
        if all.contains(name) {
            let i = choose|i: int| 0 <= i < all.len() && all[i] == name;
            if i < before.len() {
                assert(before[i] == name);
                assert(before.contains(name));
                assert(front.contains(name));
                let j = choose|j: int| 0 <= j < front.len() && front[j] == name;
                assert(disabled[j] == name);
            } else {
                assert(name == last);
                assert(disabled[disabled.len() - 1] == name);
            }
        }
        if disabled.contains(name) && !skipped.contains(name) {
            let j = choose|j: int| 0 <= j < disabled.len() && disabled[j] == name;
            if j < front.len() {
                assert(front[j] == name);
                assert(front.contains(name));
                assert(before.contains(name));
                let i = choose|i: int| 0 <= i < before.len() && before[i] == name;
                assert(all[i] == name);
            } else {
                assert(name == last);
                if before.contains(name) {
                    let i = choose|i: int| 0 <= i < before.len() && before[i] == name;
                    assert(all[i] == name);
                } else {
                    assert(all[before.len() as int] == name);
                }
            }
        }
    }
}

/// The unused disables are exactly the disabled names that were not passed
/// over, and none of them is listed twice.
pub proof fn law_unused_disables(disabled: Seq<Seq<char>>, skipped: Seq<Seq<char>>)
    ensures
        unused_disables(disabled, skipped).no_duplicates(),
        forall|name: Seq<char>|
            #![trigger unused_disables(disabled, skipped).contains(name)]
            unused_disables(disabled, skipped).contains(name) <==> disabled.contains(name)
                && !skipped.contains(name),
    decreases disabled.len(),
{
    assert forall|name: Seq<char>|
        #![trigger unused_disables(disabled, skipped).contains(name)]
        unused_disables(disabled, skipped).contains(name) <==> disabled.contains(name)
            && !skipped.contains(name) by {
        lemma_unused_member(disabled, skipped, name);
    }
    if disabled.len() > 0 {
        let front = disabled.drop_last();
        let before = unused_disables(front, skipped);
        law_unused_disables(front, skipped);
    }
}

/// The disabled names that no run passed over.
pub fn unused_names(disabled: &Vec<String>, skipped: &Vec<String>) -> (r: Vec<String>)
    ensures
        strings(r@) == unused_disables(strings(disabled@), strings(skipped@)),
{
    let mut out: Vec<String> = Vec::new();
    let mut i: usize = 0;
    proof {
        assert(strings(disabled@).take(0) =~= Seq::<Seq<char>>::empty());
        assert(strings(out@) =~= Seq::<Seq<char>>::empty());
    }
    while i < disabled.len()
        invariant
            i <= disabled.len(),
            strings(out@) == unused_disables(
                strings(disabled@).take(i as int),
                strings(skipped@),
            ),
        decreases disabled.len() - i,
    {
        let name = &disabled[i];
        proof {
            let upto = strings(disabled@).take(i + 1);
            assert(upto.drop_last() =~= strings(disabled@).take(i as int));
            assert(upto.last() == name@);
        }
        if !is_listed(skipped, name.as_str()) && !is_listed(&out, name.as_str()) {
            let copy = name.clone();
            proof {
                assert(strings(out@.push(copy)) =~= strings(out@).push(name@));
            }
            out.push(copy);
        }
        i = i + 1;
    }
    proof {
        assert(strings(disabled@).take(i as int) =~= strings(disabled@));
    }
    out
}

/// What a health check comes to.
#[derive(Debug)]
pub struct Diagnosis {
    /// The disabled names that no run passed over, where the check passed.
    pub result: Result<Vec<String>, DiagnosticsError>,
    /// The failures of wanted scripts, which do not fail the check.
    pub wanted_failures: Vec<ScriptFailure>,
}

/// The model of a [`Diagnosis`].
pub struct DiagnosisView {
    pub result: Result<Seq<Seq<char>>, DiagnosticsErrorView>,
    pub wanted_failures: Seq<ScriptFailureView>,
}

impl View for Diagnosis {
    type V = DiagnosisView;

    open spec fn view(&self) -> DiagnosisView {
        DiagnosisView {
            result: match self.result {
                Ok(unused) => Ok(strings(unused@)),
                Err(e) => Err(e@),
            },
            wanted_failures: failures(self.wanted_failures@),
        }
    }
}

/// Where a health check stands.
#[derive(Clone, Copy, Debug, PartialEq, Eq, Structural)]
pub enum DiagnosticsStage {
    /// Waits to learn whether the root has a directory of required scripts.
    Probing,
    /// Runs the required scripts of the root.
    Required,
    /// Runs the wanted scripts, root by root.
    Wanted,
    Finished,
}

/// A health check: the required tier as a hard gate, then the wanted tier.
#[derive(Debug)]
pub struct Diagnostics {
    /// The names of the scripts that must not run.
    pub disabled: Vec<String>,
    pub stage: DiagnosticsStage,
    /// The index of the root whose required scripts are looked for or run.
    pub root: usize,
    /// The run of required scripts at that root.
    pub run: Option<ScriptRun>,
    /// The sweep of the wanted scripts.
    pub sweep: Option<Sweep>,
    /// Whether some root has a directory of required scripts.
    pub found: bool,
    /// The names passed over so far, in every tier and root.
    pub skipped: Vec<String>,
    pub failure: Option<DiagnosticsError>,
    pub wanted_failures: Vec<ScriptFailure>,
    pub unused: Vec<String>,
}

/// The model of a [`Diagnostics`]: the state that the machine is proved to follow.
pub struct DiagnosticsView {
    pub disabled: Seq<Seq<char>>,
    pub stage: DiagnosticsStage,
    pub root: nat,
    pub run: Option<RunView>,
    pub sweep: Option<SweepView>,
    pub found: bool,
    pub skipped: Seq<Seq<char>>,
    pub failure: Option<DiagnosticsErrorView>,
    pub wanted_failures: Seq<ScriptFailureView>,
    pub unused: Seq<Seq<char>>,
}

impl View for Diagnostics {
    type V = DiagnosticsView;

    open spec fn view(&self) -> DiagnosticsView {
        DiagnosticsView {
            disabled: strings(self.disabled@),
            stage: self.stage,
            root: self.root as nat,
            run: match self.run {
                Some(run) => Some(run@),
                None => None,
            },
            sweep: match self.sweep {
                Some(sweep) => Some(sweep@),
                None => None,
            },
            found: self.found,
            skipped: strings(self.skipped@),
            failure: match self.failure {
                Some(e) => Some(e@),
                None => None,
            },
            wanted_failures: failures(self.wanted_failures@),
            unused: strings(self.unused@),
        }
    }
}

impl DiagnosticsView {
    /// A health check that has asked for nothing yet.
    pub open spec fn start(disabled: Seq<Seq<char>>) -> DiagnosticsView {
        DiagnosticsView {
            disabled,
            stage: DiagnosticsStage::Probing,
            root: 0,
            run: None,
            sweep: None,
            found: false,
            skipped: Seq::empty(),
            failure: None,
            wanted_failures: Seq::empty(),
            unused: Seq::empty(),
        }
    }

    /// The check, passed: the wanted failures are kept for the report, and
    /// the disable list is held against all that was passed over.
    pub open spec fn conclude(
        self,
        errors: Seq<ScriptFailureView>,
        skipped: Seq<Seq<char>>,
    ) -> DiagnosticsView {
        DiagnosticsView {
            stage: DiagnosticsStage::Finished,
            sweep: None,
            skipped: self.skipped + skipped,
            wanted_failures: errors,
            unused: unused_disables(self.disabled, self.skipped + skipped),
            ..self
        }
    }

    /// The check as it takes up the wanted tier.
    pub open spec fn begin_wanted(self) -> DiagnosticsView {
        let sweep = SweepView::start(Tier::Wanted, self.disabled);
        match sweep.outcome() {
            Some((errors, skipped)) => self.conclude(errors, skipped),
            None => DiagnosticsView {
                stage: DiagnosticsStage::Wanted,
                sweep: Some(sweep),
                ..self
            },
        }
    }

    /// The check once it is done with the required tier of its root: the
    /// next root is looked at; after the last one the check fails where no
    /// root had the tier, and else goes on to the wanted tier.
    pub open spec fn probe_next(self) -> DiagnosticsView {
        if self.root + 1 < ROOT_COUNT {
            DiagnosticsView { stage: DiagnosticsStage::Probing, root: self.root + 1, ..self }
        } else if !self.found {
            DiagnosticsView {
                stage: DiagnosticsStage::Finished,
                failure: Some(DiagnosticsErrorView::ConfigurationMissing),
                ..self
            }
        } else {
            self.begin_wanted()
        }
    }

    /// The check after the required run of its root has ended: any failure
    /// fails the check there and then.
    pub open spec fn after_required(
        self,
        errors: Seq<ScriptFailureView>,
        skipped: Seq<Seq<char>>,
    ) -> DiagnosticsView {
        let noted = DiagnosticsView { run: None, skipped: self.skipped + skipped, ..self };
        if errors.len() > 0 {
            DiagnosticsView {
                stage: DiagnosticsStage::Finished,
                failure: Some(DiagnosticsErrorView::RequiredFailed(errors)),
                ..noted
            }
        } else {
            noted.probe_next()
        }
    }

    /// The outside work that the check waits for.
    pub open spec fn pending(self) -> Option<RequestView> {
        match self.stage {
            DiagnosticsStage::Probing => Some(
                RequestView::IsDirectory(tier_directory(Tier::Required, self.root as int)),
            ),
            DiagnosticsStage::Required => match self.run {
                Some(run) => run.pending(),
                None => None,
            },
            DiagnosticsStage::Wanted => match self.sweep {
                Some(sweep) => sweep.pending(),
                None => None,
            },
            DiagnosticsStage::Finished => None,
        }
    }

    /// The check after the reply to what it waited for.
    pub open spec fn resume(self, reply: ReplyView) -> DiagnosticsView {
        match self.stage {
            DiagnosticsStage::Probing => if reply.flag() {
                let run = RunView::start(
                    Tier::Required,
                    tier_directory(Tier::Required, self.root as int),
                    self.disabled,
                );
                let found = DiagnosticsView { found: true, ..self };
                match run.outcome() {
                    Some((errors, skipped)) => found.after_required(errors, skipped),
                    None => DiagnosticsView {
                        stage: DiagnosticsStage::Required,
                        run: Some(run),
                        ..found
                    },
                }
            } else {
                self.probe_next()
            },
            DiagnosticsStage::Required => match self.run {
                Some(run) => match run.resume(reply).outcome() {
                    Some((errors, skipped)) => self.after_required(errors, skipped),
                    None => DiagnosticsView { run: Some(run.resume(reply)), ..self },
                },
                None => self,
            },
            DiagnosticsStage::Wanted => match self.sweep {
                Some(sweep) => match sweep.resume(reply).outcome() {
                    Some((errors, skipped)) => self.conclude(errors, skipped),
                    None => DiagnosticsView { sweep: Some(sweep.resume(reply)), ..self },
                },
                None => self,
            },
            DiagnosticsStage::Finished => self,
        }
    }

    /// What the check came to, once it has ended.
    pub open spec fn outcome(self) -> Option<DiagnosisView> {
        match self.stage {
            DiagnosticsStage::Finished => Some(
                DiagnosisView {
                    result: match self.failure {
                        Some(e) => Err(e),
                        None => Ok(self.unused),
                    },
                    wanted_failures: self.wanted_failures,
                },
            ),
            _ => None,
        }
    }
}

impl Diagnostics {
    fn conclude(self, result: ScriptRunResult) -> (r: Diagnostics)
        ensures
            r@ == self@.conclude(failures(result.errors@), strings(result.skipped@)),
    {
        let Diagnostics {
            disabled,
            stage: _,
            root,
            run,
            sweep: _,
            found,
            skipped,
            failure,
            wanted_failures: _,
            unused: _,
        } = self;
        let ScriptRunResult { errors, skipped: passed } = result;
        let mut passed = passed;
        let mut skipped = skipped;
        proof {
            lemma_strings_add(skipped@, passed@);
        }
        skipped.append(&mut passed);
        let unused = unused_names(&disabled, &skipped);
        Diagnostics {
            disabled,
            stage: DiagnosticsStage::Finished,
            root,
            run,
            sweep: None,
            found,
            skipped,
            failure,
            wanted_failures: errors,
            unused,
        }
    }

    fn begin_wanted(self) -> (r: Diagnostics)
        ensures
            r@ == self@.begin_wanted(),
    {
        let sweep = Sweep::start(Tier::Wanted, copy_strings(&self.disabled));
        if sweep.is_finished() {
            match sweep.outcome() {
                Some(result) => self.conclude(result),
                None => self,
            }
        } else {
            Diagnostics { stage: DiagnosticsStage::Wanted, sweep: Some(sweep), ..self }
        }
    }

    fn probe_next(self) -> (r: Diagnostics)
        ensures
            r@ == self@.probe_next(),
    {
        if self.root < ROOT_COUNT - 1 {
            let root = self.root + 1;
            Diagnostics { stage: DiagnosticsStage::Probing, root, ..self }
        } else if !self.found {
            Diagnostics {
                stage: DiagnosticsStage::Finished,
                failure: Some(DiagnosticsError::ConfigurationMissing),
                ..self
            }
        } else {
            self.begin_wanted()
        }
    }

    fn after_required(self, result: ScriptRunResult) -> (r: Diagnostics)
        ensures
            r@ == self@.after_required(failures(result.errors@), strings(result.skipped@)),
    {
        let Diagnostics {
            disabled,
            stage,
            root,
            run: _,
            sweep,
            found,
            skipped,
            failure,
            wanted_failures,
            unused,
        } = self;
        let ScriptRunResult { errors, skipped: passed } = result;
        let mut passed = passed;
        let mut skipped = skipped;
        proof {
            lemma_strings_add(skipped@, passed@);
        }
        skipped.append(&mut passed);
        if errors.len() > 0 {
            Diagnostics {
                disabled,
                stage: DiagnosticsStage::Finished,
                root,
                run: None,
                sweep,
                found,
                skipped,
                failure: Some(DiagnosticsError::RequiredFailed(errors)),
                wanted_failures,
                unused,
            }
        } else {
            let noted = Diagnostics {
                disabled,
                stage,
                root,
                run: None,
                sweep,
                found,
                skipped,
                failure,
                wanted_failures,
                unused,
            };
            noted.probe_next()
        }
    }

    /// The outside work that the check waits for; none once it has ended.
    pub fn pending(&self) -> (r: Option<Request>)
        ensures
            optional_request(r) == self@.pending(),
    {
        match self.stage {
            DiagnosticsStage::Probing => Some(
                Request::IsDirectory(Tier::Required.directory(root_path(self.root))),
            ),
            DiagnosticsStage::Required => match &self.run {
                Some(run) => run.pending(),
                None => None,
            },
            DiagnosticsStage::Wanted => match &self.sweep {
                Some(sweep) => sweep.pending(),
                None => None,
            },
            DiagnosticsStage::Finished => None,
        }
    }

    /// The check after the reply to the request it waited for.
    pub fn resume(self, reply: Reply) -> (next: Diagnostics)
        ensures
            next@ == self@.resume(reply@),
    {
        match self.stage {
            DiagnosticsStage::Probing => {
                if reply.flag() {
                    let directory = Tier::Required.directory(root_path(self.root));
                    let run = ScriptRun::start(
                        Tier::Required,
                        directory.as_str(),
                        copy_strings(&self.disabled),
                    );
                    let found = Diagnostics { found: true, ..self };
                    if run.is_finished() {
                        match run.outcome() {
                            Some(result) => found.after_required(result),
                            None => found,
                        }
                    } else {
                        Diagnostics {
                            stage: DiagnosticsStage::Required,
                            run: Some(run),
                            ..found
                        }
                    }
                } else {
                    self.probe_next()
                }
            },
            DiagnosticsStage::Required => {
                let Diagnostics {
                    disabled,
                    stage,
                    root,
                    run,
                    sweep,
                    found,
                    skipped,
                    failure,
                    wanted_failures,
                    unused,
                } = self;
                match run {
                    Some(run) => {
                        let run = run.resume(reply);
                        if run.is_finished() {
                            let ghost ended = run@;
                            let rest = Diagnostics {
                                disabled,
                                stage,
                                root,
                                run: None,
                                sweep,
                                found,
                                skipped,
                                failure,
                                wanted_failures,
                                unused,
                            };
                            match run.outcome() {
                                Some(result) => rest.after_required(result),
                                None => rest,
                            }
                        } else {
                            Diagnostics {
                                disabled,
                                stage,
                                root,
                                run: Some(run),
                                sweep,
                                found,
                                skipped,
                                failure,
                                wanted_failures,
                                unused,
                            }
                        }
                    },
                    None => Diagnostics {
                        disabled,
                        stage,
                        root,
                        run: None,
                        sweep,
                        found,
                        skipped,
                        failure,
                        wanted_failures,
                        unused,
                    },
                }
            },
            DiagnosticsStage::Wanted => {
                let Diagnostics {
                    disabled,
                    stage,
                    root,
                    run,
                    sweep,
                    found,
                    skipped,
                    failure,
                    wanted_failures,
                    unused,
                } = self;
                match sweep {
                    Some(sweep) => {
                        let sweep = sweep.resume(reply);
                        if sweep.is_finished() {
                            let rest = Diagnostics {
                                disabled,
                                stage,
                                root,
                                run,
                                sweep: None,
                                found,
                                skipped,
                                failure,
                                wanted_failures,
                                unused,
                            };
                            match sweep.outcome() {
                                Some(result) => rest.conclude(result),
                                None => rest,
                            }
                        } else {
                            Diagnostics {
                                disabled,
                                stage,
                                root,
                                run,
                                sweep: Some(sweep),
                                found,
                                skipped,
                                failure,
                                wanted_failures,
                                unused,
                            }
                        }
                    },
                    None => Diagnostics {
                        disabled,
                        stage,
                        root,
                        run,
                        sweep: None,
                        found,
                        skipped,
                        failure,
                        wanted_failures,
                        unused,
                    },
                }
            },
            DiagnosticsStage::Finished => self,
        }
    }

    /// Whether the check has ended.
    pub fn is_finished(&self) -> (r: bool)
        ensures
            r == self@.outcome() is Some,
    {
        match self.stage {
            DiagnosticsStage::Finished => true,
            _ => false,
        }
    }

    /// What the check came to; nothing while it still waits.
    pub fn outcome(self) -> (r: Option<Diagnosis>)
        ensures
            match r {
                Some(diagnosis) => self@.outcome() == Some(diagnosis@),
                None => self@.outcome() is None,
            },
    {
        match self.stage {
            DiagnosticsStage::Finished => Some(
                Diagnosis {
                    result: match self.failure {
                        Some(e) => Err(e),
                        None => Ok(self.unused),
                    },
                    wanted_failures: self.wanted_failures,
                },
            ),
            _ => None,
        }
    }
}

/// Starts a health check. The names on the list are the scripts that must
/// not run.
pub fn run_diagnostics(skipped: Vec<String>) -> (m: Diagnostics)
    ensures
        m@ == DiagnosticsView::start(strings(skipped@)),
{
    let m = Diagnostics {
        disabled: skipped,
        stage: DiagnosticsStage::Probing,
        root: 0,
        run: None,
        sweep: None,
        found: false,
        skipped: Vec::new(),
        failure: None,
        wanted_failures: Vec::new(),
        unused: Vec::new(),
    };
    proof {
        let spec = DiagnosticsView::start(strings(skipped@));
        assert(m@.skipped =~= spec.skipped);
        assert(m@.wanted_failures =~= spec.wanted_failures);
        assert(m@.unused =~= spec.unused);
    }
    m
}

impl DiagnosticsView {
    /// What holds of every check that was started and resumed: the run or
    /// sweep of its stage is in order and is that of its disable list, a
    /// failure is held only at the end, and at the end the verdict agrees
    /// with what was found.
    pub open spec fn wf(self) -> bool {
        match self.stage {
            DiagnosticsStage::Probing => self.root < ROOT_COUNT && self.failure is None,
            DiagnosticsStage::Required => self.root < ROOT_COUNT && self.failure is None
                && self.found && match self.run {
                Some(run) => {
                    &&& run.wf()
                    &&& run.accounted()
                    &&& run.stage != RunStage::Finished
                    &&& run.tier == Tier::Required
                    &&& run.disabled == self.disabled
                },
                None => false,
            },
            DiagnosticsStage::Wanted => self.failure is None && self.found && match self.sweep {
                Some(sweep) => {
                    &&& sweep.wf()
                    &&& sweep.outcome() is None
                    &&& sweep.tier == Tier::Wanted
                    &&& sweep.disabled == self.disabled
                },
                None => false,
            },
            DiagnosticsStage::Finished => match self.failure {
                None => self.found && self.unused == unused_disables(self.disabled, self.skipped),
                Some(DiagnosticsErrorView::RequiredFailed(errors)) => self.found && errors.len()
                    > 0,
                Some(DiagnosticsErrorView::ConfigurationMissing) => !self.found,
            },
        }
    }
}

proof fn lemma_begin_wanted(m: DiagnosticsView)
    requires
        m.failure is None,
        m.found,
    ensures
        m.begin_wanted().wf(),
{
    law_sweep_wf(
        SweepView::start(Tier::Wanted, m.disabled),
        Tier::Wanted,
        m.disabled,
        ReplyView::Written,
    );
    lemma_enter(
        SweepView {
            tier: Tier::Wanted,
            disabled: m.disabled,
            root: 0,
            run: None,
            errors: Seq::empty(),
            skipped: Seq::empty(),
        },
        0,
    );
}

proof fn lemma_after_required(
    m: DiagnosticsView,
    errors: Seq<ScriptFailureView>,
    skipped: Seq<Seq<char>>,
)
    requires
        m.failure is None,
        m.found,
        m.root < ROOT_COUNT,
    ensures
        m.after_required(errors, skipped).wf(),
{
    let noted = DiagnosticsView { run: None, skipped: m.skipped + skipped, ..m };
    if errors.len() == 0 {
        if noted.root + 1 < ROOT_COUNT {
        } else {
            lemma_begin_wanted(noted);
        }
    }
}

/// A check starts in order and stays so, and a check in order has an outcome
/// exactly when it waits for nothing.
pub proof fn law_diagnostics_wf(m: DiagnosticsView, disabled: Seq<Seq<char>>, reply: ReplyView)
    ensures
        DiagnosticsView::start(disabled).wf(),
        m.wf() ==> m.resume(reply).wf(),
        m.wf() ==> (m.pending() is None <==> m.outcome() is Some),
{
    if m.wf() {
        match m.stage {
            DiagnosticsStage::Probing => {
                if reply.flag() {
                    let directory = tier_directory(Tier::Required, m.root as int);
                    let run = RunView::start(Tier::Required, directory, m.disabled);
                    law_run_wf(run, Tier::Required, directory, m.disabled, reply);
                    let found = DiagnosticsView { found: true, ..m };
                    match run.outcome() {
                        Some((errors, skipped)) => {
                            lemma_after_required(found, errors, skipped);
                        },
                        None => {},
                    }
                } else {
                    if m.root + 1 < ROOT_COUNT {
                    } else if m.found {
                        lemma_begin_wanted(m);
                    }
                }
            },
            DiagnosticsStage::Required => {
                let run = m.run->0;
                law_run_wf(run, Tier::Required, Seq::empty(), m.disabled, reply);
                lemma_resume_keeps_run(run, reply);
                match run.resume(reply).outcome() {
                    Some((errors, skipped)) => {
                        lemma_after_required(m, errors, skipped);
                    },
                    None => {},
                }
            },
            DiagnosticsStage::Wanted => {
                let sweep = m.sweep->0;
                law_sweep_wf(sweep, Tier::Wanted, m.disabled, reply);
                lemma_sweep_resume_keeps(sweep, reply);
            },
            DiagnosticsStage::Finished => {},
        }
        match m.stage {
            DiagnosticsStage::Required => {
                law_run_wf(m.run->0, Tier::Required, Seq::empty(), m.disabled, reply);
            },
            DiagnosticsStage::Wanted => {
                law_sweep_wf(m.sweep->0, Tier::Wanted, m.disabled, reply);
            },
            _ => {},
        }
    }
}

/// Where no search root has a directory of required scripts, the check asks
/// about each root in turn, runs nothing, and fails as misconfigured,
/// whatever the disable list holds.
pub proof fn law_missing_required_tier(
    disabled: Seq<Seq<char>>,
    first: ReplyView,
    second: ReplyView,
)
    requires
        !first.flag(),
        !second.flag(),
    ensures
        ({
            let m = DiagnosticsView::start(disabled);
            &&& m.pending() == Some(
                RequestView::IsDirectory(tier_directory(Tier::Required, 0)),
            )
            &&& m.resume(first).pending() == Some(
                RequestView::IsDirectory(tier_directory(Tier::Required, 1)),
            )
            &&& m.resume(first).resume(second).pending() is None
            &&& m.resume(first).resume(second).outcome() == Some(
                DiagnosisView {
                    result: Err(DiagnosticsErrorView::ConfigurationMissing),
                    wanted_failures: Seq::empty(),
                },
            )
        }),
{
}

/// A failure among the required scripts ends the check as failed: nothing
/// more is asked for, and the failures of the run are what the error holds.
pub proof fn law_required_failure_is_terminal(m: DiagnosticsView, reply: ReplyView)
    requires
        m.wf(),
        m.stage == DiagnosticsStage::Required,
        m.run->0.resume(reply).outcome() is Some,
        m.run->0.resume(reply).errors.len() > 0,
    ensures
        m.resume(reply).pending() is None,
        m.resume(reply).outcome() == Some(
            DiagnosisView {
                result: Err(
                    DiagnosticsErrorView::RequiredFailed(m.run->0.resume(reply).errors),
                ),
                wanted_failures: m.wanted_failures,
            },
        ),
{
}

/// The wanted tier is advisory: whatever its scripts do, the check does not
/// fail, and once it ends the verdict is a pass.
pub proof fn law_wanted_is_advisory(m: DiagnosticsView, reply: ReplyView)
    requires
        m.wf(),
        m.stage == DiagnosticsStage::Wanted,
    ensures
        m.resume(reply).failure is None,
        match m.resume(reply).outcome() {
            Some(diagnosis) => diagnosis.result == Ok::<
                Seq<Seq<char>>,
                DiagnosticsErrorView,
            >(unused_disables(m.disabled, m.resume(reply).skipped)),
            None => true,
        },
{
}

/// The wanted scripts run only after every required run has ended without a
/// failure: a check that enters the wanted tier, or passes, held no failure
/// and has seen a directory of required scripts.
pub proof fn law_required_is_a_gate(m: DiagnosticsView, reply: ReplyView)
    requires
        m.wf(),
        m.stage == DiagnosticsStage::Required,
        m.resume(reply).stage == DiagnosticsStage::Wanted || (m.resume(reply).stage
            == DiagnosticsStage::Finished && m.resume(reply).failure is None),
    ensures
        m.run->0.resume(reply).outcome() is Some,
        m.run->0.resume(reply).errors.len() == 0,
{
}

/// A check in order never asks to run a script whose name is disabled.
pub proof fn law_check_spares_disabled(m: DiagnosticsView, path: Seq<char>)
    requires
        m.wf(),
        m.pending() == Some(RequestView::RunScript(path)),
    ensures
        match base_name(path) {
            Some(name) => !m.disabled.contains(name),
            None => false,
        },
{
    match m.stage {
        DiagnosticsStage::Wanted => {
            law_sweep_spares_disabled(m.sweep->0, path);
        },
        _ => {},
    }
}

impl DiagnosticsView {
    /// The check after a row of replies, each taken in its turn.
    pub open spec fn run(self, replies: Seq<ReplyView>) -> DiagnosticsView
        decreases replies.len(),
    {
        if replies.len() == 0 {
            self
        } else {
            self.resume(replies[0]).run(replies.drop_first())
        }
    }
}

proof fn lemma_resume_keeps_list(m: DiagnosticsView, reply: ReplyView)
    ensures
        m.resume(reply).disabled == m.disabled,
{
}

proof fn lemma_check_stays_in_order(m: DiagnosticsView, replies: Seq<ReplyView>)
    requires
        m.wf(),
    ensures
        m.run(replies).wf(),
        m.run(replies).disabled == m.disabled,
    decreases replies.len(),
{
    if replies.len() > 0 {
        law_diagnostics_wf(m, m.disabled, replies[0]);
        lemma_resume_keeps_list(m, replies[0]);
        lemma_check_stays_in_order(m.resume(replies[0]), replies.drop_first());
    }
}

/// Whatever the replies, a health check never asks to run a script whose
/// name is on its disable list; and when it has passed, what it reports as
/// unused are exactly the disabled names that no run passed over.
pub proof fn law_disabled_scripts(disabled: Seq<Seq<char>>, replies: Seq<ReplyView>)
    ensures
        ({
            let m = DiagnosticsView::start(disabled).run(replies);
            &&& match m.pending() {
                Some(RequestView::RunScript(path)) => match base_name(path) {
                    Some(name) => !disabled.contains(name),
                    None => false,
                },
                _ => true,
            }
            &&& match m.outcome() {
                Some(diagnosis) => match diagnosis.result {
                    Ok(unused) => unused.no_duplicates() && forall|name: Seq<char>|
                        #![trigger unused.contains(name)]
                        unused.contains(name) <==> disabled.contains(name)
                            && !m.skipped.contains(name),
                    Err(_) => true,
                },
                None => true,
            }
        }),
{
    let start = DiagnosticsView::start(disabled);
    law_diagnostics_wf(start, disabled, ReplyView::Written);
    lemma_check_stays_in_order(start, replies);
    let m = start.run(replies);
    match m.pending() {
        Some(RequestView::RunScript(path)) => {
            law_check_spares_disabled(m, path);
        },
        _ => {},
    }
    law_unused_disables(disabled, m.skipped);
}

/// Whatever the disable list and the replies, a check fails as misconfigured
/// only if it has learnt of no directory of required scripts, and it has then
/// ended.
pub proof fn law_configuration_missing(disabled: Seq<Seq<char>>, replies: Seq<ReplyView>)
    ensures
        ({
            let m = DiagnosticsView::start(disabled).run(replies);
            m.failure == Some(DiagnosticsErrorView::ConfigurationMissing) ==> !m.found
                && m.stage == DiagnosticsStage::Finished
        }),
{
    let start = DiagnosticsView::start(disabled);
    law_diagnostics_wf(start, disabled, ReplyView::Written);
    lemma_check_stays_in_order(start, replies);
}

} // verus!
