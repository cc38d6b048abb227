//! The runner of health-check and remediation scripts.
//!
//! A run takes the scripts of one tier in one directory, in the order in which
//! they were found. A script whose name is on the disable list is passed over
//! and noted. Every other script is run, and its failure is recorded; in the
//! required tier the first failure ends the run.

use crate::host::{
    optional_request, strings, Output, OutputView, Reply, ReplyView, Request, RequestView,
};
use crate::text::{copy_range, decode_text_lossy, lossy_text, same_text, to_chars, to_text};
use vstd::prelude::*;
use vstd::string::StringExecFns;

verus! {

/// The tiers of scripts.
#[derive(Clone, Copy, Debug, PartialEq, Eq, Structural)]
pub enum Tier {
    /// Health checks whose failure fails the boot.
    Required,
    /// Health checks whose failure is only reported.
    Wanted,
    /// What runs after a healthy boot.
    Green,
    /// What runs after an unhealthy boot.
    Red,
}

impl Tier {
    /// The tier's name, as messages have it.
    pub open spec fn name_text(self) -> Seq<char> {
        match self {
            Tier::Required => "required"@,
            Tier::Wanted => "wanted"@,
            Tier::Green => "green"@,
            Tier::Red => "red"@,
        }
    }

    /// Where the tier's scripts lie below a search root.
    pub open spec fn subdirectory(self) -> Seq<char> {
        match self {
            Tier::Required => "/check/required.d/"@,
            Tier::Wanted => "/check/wanted.d/"@,
            Tier::Green => "/green.d/"@,
            Tier::Red => "/red.d/"@,
        }
    }

    /// The tier's name, as messages have it.
    pub fn name(self) -> (r: &'static str)
        ensures
            r@ == self.name_text(),
    {
        match self {
            Tier::Required => "required",
            Tier::Wanted => "wanted",
            Tier::Green => "green",
            Tier::Red => "red",
        }
    }

    /// The directory of the tier's scripts below the search root.
    pub fn directory(self, root: &str) -> (r: String)
        ensures
            r@ == root@ + self.subdirectory(),
    {
        let mut out = String::from_str(root);
        match self {
            Tier::Required => out.append("/check/required.d/"),
            Tier::Wanted => out.append("/check/wanted.d/"),
            Tier::Green => out.append("/green.d/"),
            Tier::Red => out.append("/red.d/"),
        }
        out
    }
}

/// The pattern that the scripts of a directory match.
pub open spec fn script_pattern(directory: Seq<char>) -> Seq<char> {
    directory + "*.sh"@
}

/// Where the last component of a path starts: behind its last `/`.
pub open spec fn name_start(path: Seq<char>) -> int
    decreases path.len(),
{
    if path.len() == 0 {
        0
    } else if path.last() == '/' {
        path.len() as int
    } else {
        name_start(path.drop_last())
    }
}

/// The name by which a script is disabled: what follows the last `/` of its
/// path. A path that ends in `/`, `.` or `..` names no script.
pub open spec fn base_name(path: Seq<char>) -> Option<Seq<char>> {
    let name = path.skip(name_start(path));
    if name.len() == 0 || name == "."@ || name == ".."@ {
        None
    } else {
        Some(name)
    }
}

/// The name by which the script at the path is disabled, if it has one.
pub fn script_name(path: &str) -> (r: Option<String>)
    ensures
        match r {
            Some(name) => base_name(path@) == Some(name@),
            None => base_name(path@) is None,
        },
{
    let chars = to_chars(path);
    let mut start: usize = chars.len();
    proof {
        assert(chars@.take(start as int) =~= chars@);
    }
    while start > 0 && chars[start - 1] != '/'
        invariant
            start <= chars.len(),
            name_start(chars@) == name_start(chars@.take(start as int)),
        decreases start,
    {
        proof {
            assert(chars@.take(start as int).drop_last() =~= chars@.take(start - 1));
        }
        start = start - 1;
    }
    proof {
        let head = chars@.take(start as int);
        if start > 0 {
            assert(head.last() == '/');
        }
        assert(name_start(head) == start);
    }
    let name = copy_range(&chars, start, chars.len());
    proof {
        assert(name@ =~= chars@.skip(start as int));
    }
    let dot = to_chars(".");
    let dots = to_chars("..");
    if name.len() == 0 || same_text(&name, &dot) || same_text(&name, &dots) {
        None
    } else {
        Some(to_text(&name))
    }
}

/// Whether the name is on the list.
pub fn is_listed(list: &Vec<String>, name: &str) -> (r: bool)
    ensures
        r == strings(list@).contains(name@),
{
    let mut i: usize = 0;
    while i < list.len()
        invariant
            i <= list.len(),
            forall|k: int| 0 <= k < i ==> strings(list@)[k] != name@,
        decreases list.len() - i,
    {
        proof {
            assert(strings(list@)[i as int] == list@[i as int]@);
        }
        if crate::text::same_str(list[i].as_str(), name) {
            return true;
        }
        i = i + 1;
    }
    false
}

/// A copy of a list of strings.
pub fn copy_strings(list: &Vec<String>) -> (r: Vec<String>)
    ensures
        strings(r@) == strings(list@),
{
    let mut out: Vec<String> = Vec::new();
    let mut i: usize = 0;
    while i < list.len()
        invariant
            i <= list.len(),
            out.len() == i,
            strings(out@) == strings(list@).take(i as int),
        decreases list.len() - i,
    {
        let item = list[i].clone();
        proof {
            assert(item@ == list@[i as int]@);
            assert forall|k: int| 0 <= k < i + 1 implies strings(out@.push(item))[k] == strings(
                list@,
            ).take(i + 1)[k] by {
                if k < i {
                    assert(strings(out@)[k] == strings(list@).take(i as int)[k]);
                }
            }
            assert(strings(out@.push(item)) =~= strings(list@).take(i + 1));
        }
        out.push(item);
        i = i + 1;
    }
    proof {
        assert(strings(list@).take(i as int) =~= strings(list@));
    }
    out
}

/// What `glob::glob` says of a pattern that it refuses, in words; nothing for
/// a pattern that it accepts.
pub uninterp spec fn glob_rejection(pattern: Seq<char>) -> Option<Seq<char>>;

/// `glob::glob`, asked only whether it accepts the pattern. The enumeration
/// that it would return is dropped before it reads any directory.
#[verifier::external_body]
fn pattern_rejection(pattern: &str) -> (r: Option<String>)
    ensures
        match r {
            Some(why) => glob_rejection(pattern@) == Some(why@),
            None => glob_rejection(pattern@) is None,
        },
{
    match glob::glob(pattern) {
        Ok(_) => None,
        Err(e) => Some(e.to_string()),
    }
}

/// One failure of a run of scripts.
#[derive(Debug)]
pub enum ScriptFailure {
    /// The pattern for the directory's scripts was refused.
    Pattern { pattern: String, why: String },
    /// The script ran and did not report success.
    Exited { tier: Tier, path: String, output: Output },
    /// The script could not be started.
    NotLaunched { tier: Tier, path: String, why: String },
}

/// The model of a [`ScriptFailure`].
pub enum ScriptFailureView {
    Pattern { pattern: Seq<char>, why: Seq<char> },
    Exited { tier: Tier, path: Seq<char>, output: OutputView },
    NotLaunched { tier: Tier, path: Seq<char>, why: Seq<char> },
}

impl View for ScriptFailure {
    type V = ScriptFailureView;

    open spec fn view(&self) -> ScriptFailureView {
        match self {
            ScriptFailure::Pattern { pattern, why } => ScriptFailureView::Pattern {
                pattern: pattern@,
                why: why@,
            },
            ScriptFailure::Exited { tier, path, output } => ScriptFailureView::Exited {
                tier: *tier,
                path: path@,
                output: output@,
            },
            ScriptFailure::NotLaunched { tier, path, why } => ScriptFailureView::NotLaunched {
                tier: *tier,
                path: path@,
                why: why@,
            },
        }
    }
}

impl ScriptFailureView {
    /// The failure in words. A script that ran is named with its tier, and
    /// what it wrote to its two streams follows, each on a line of its own.
    pub open spec fn message(self) -> Seq<char> {
        match self {
            ScriptFailureView::Pattern { pattern, why } => why,
            ScriptFailureView::Exited { tier, path, output } => tier.name_text() + " script "@
                + path + " failed!\n"@ + lossy_text(output.stdout) + "\n"@ + lossy_text(
                output.stderr,
            ),
            ScriptFailureView::NotLaunched { tier, path, why } => why,
        }
    }
}

impl ScriptFailure {
    /// The failure in words.
    pub fn message(&self) -> (r: String)
        ensures
            r@ == self@.message(),
    {
        match self {
            ScriptFailure::Pattern { pattern, why } => why.clone(),
            ScriptFailure::Exited { tier, path, output } => {
                let mut out = String::from_str(tier.name());
                out.append(" script ");
                out.append(path.as_str());
                out.append(" failed!\n");
                out.append(decode_text_lossy(output.stdout.as_slice()).as_str());
                out.append("\n");
                out.append(decode_text_lossy(output.stderr.as_slice()).as_str());
                out
            },
            ScriptFailure::NotLaunched { tier, path, why } => why.clone(),
        }
    }
}

/// The views of a sequence of failures.
pub open spec fn failures(v: Seq<ScriptFailure>) -> Seq<ScriptFailureView> {
    v.map_values(|f: ScriptFailure| f@)
}

/// What a run of scripts comes to.
#[derive(Debug)]
pub struct ScriptRunResult {
    /// The failures, in the order in which they occurred.
    pub errors: Vec<ScriptFailure>,
    /// The names of the scripts that were passed over as disabled, in order.
    pub skipped: Vec<String>,
}

/// Where a run of scripts stands.
#[derive(Clone, Copy, Debug, PartialEq, Eq, Structural)]
pub enum RunStage {
    /// Waits for the scripts of the directory to be found.
    Finding,
    /// Waits for a script to end.
    Running,
    Finished,
}

/// A run of the scripts of one tier in one directory.
#[derive(Debug)]
pub struct ScriptRun {
    pub tier: Tier,
    /// The pattern that the directory's scripts match.
    pub pattern: String,
    /// The names of the scripts that must not run.
    pub disabled: Vec<String>,
    pub stage: RunStage,
    /// The scripts that were found, in the order of the enumeration.
    pub entries: Vec<String>,
    /// The index of the script that runs, or of the first one not yet looked at.
    pub next: usize,
    pub errors: Vec<ScriptFailure>,
    pub skipped: Vec<String>,
}

/// The model of a [`ScriptRun`]: the state that the machine is proved to follow.
pub struct RunView {
    pub tier: Tier,
    pub pattern: Seq<char>,
    pub disabled: Seq<Seq<char>>,
    pub stage: RunStage,
    pub entries: Seq<Seq<char>>,
    pub next: nat,
    pub errors: Seq<ScriptFailureView>,
    pub skipped: Seq<Seq<char>>,
}

impl View for ScriptRun {
    type V = RunView;

    open spec fn view(&self) -> RunView {
        RunView {
            tier: self.tier,
            pattern: self.pattern@,
            disabled: strings(self.disabled@),
            stage: self.stage,
            entries: strings(self.entries@),
            next: self.next as nat,
            errors: failures(self.errors@),
            skipped: strings(self.skipped@),
        }
    }
}

/// The failure that the end of a script amounts to, if it is one: a script
/// fails by not starting or by an exit status other than success.
pub open spec fn script_failure(
    tier: Tier,
    path: Seq<char>,
    exit: Result<OutputView, Seq<char>>,
) -> Option<ScriptFailureView> {
    match exit {
        Ok(output) => if output.success {
            None
        } else {
            Some(ScriptFailureView::Exited { tier, path, output })
        },
        Err(why) => Some(ScriptFailureView::NotLaunched { tier, path, why }),
    }
}

impl RunView {
    /// Whether the entry at the index is to be run: it has a name, and the
    /// name is not disabled.
    pub open spec fn runnable(self, index: int) -> bool {
        match base_name(self.entries[index]) {
            Some(name) => !self.disabled.contains(name),
            None => false,
        }
    }

    /// A run that has asked for nothing yet. A pattern that is refused ends
    /// the run at once, with that one failure.
    pub open spec fn start(tier: Tier, directory: Seq<char>, disabled: Seq<Seq<char>>) -> RunView {
        let pattern = script_pattern(directory);
        RunView {
            tier,
            pattern,
            disabled,
            stage: match glob_rejection(pattern) {
                Some(_) => RunStage::Finished,
                None => RunStage::Finding,
            },
            entries: Seq::empty(),
            next: 0,
            errors: match glob_rejection(pattern) {
                Some(why) => seq![ScriptFailureView::Pattern { pattern, why }],
                None => Seq::empty(),
            },
            skipped: Seq::empty(),
        }
    }

    /// The run, moved on to the next entry that is to be run: entries without
    /// a name are passed over, disabled ones are passed over and noted, and
    /// the run ends where no entry is left.
    pub open spec fn settle(self) -> RunView
        decreases self.entries.len() - self.next,
    {
        if self.stage != RunStage::Running {
            self
        } else if self.next >= self.entries.len() {
            RunView { stage: RunStage::Finished, ..self }
        } else {
            match base_name(self.entries[self.next as int]) {
                None => RunView { next: self.next + 1, ..self }.settle(),
                Some(name) => if self.disabled.contains(name) {
                    RunView {
                        next: self.next + 1,
                        skipped: self.skipped.push(name),
                        ..self
                    }.settle()
                } else {
                    self
                },
            }
        }
    }

    /// The outside work that the run waits for.
    pub open spec fn pending(self) -> Option<RequestView> {
        match self.stage {
            RunStage::Finding => Some(RequestView::FindScripts(self.pattern)),
            RunStage::Running => if self.next < self.entries.len() {
                Some(RequestView::RunScript(self.entries[self.next as int]))
            } else {
                None
            },
            RunStage::Finished => None,
        }
    }

    /// The run after the reply to what it waited for. A failure of a required
    /// script ends the run; in every other tier the run goes on.
    pub open spec fn resume(self, reply: ReplyView) -> RunView {
        match self.stage {
            RunStage::Finding => RunView {
                stage: RunStage::Running,
                entries: reply.paths(),
                next: 0,
                ..self
            }.settle(),
            RunStage::Running => if self.next >= self.entries.len() {
                RunView { stage: RunStage::Finished, ..self }
            } else {
                match script_failure(self.tier, self.entries[self.next as int], reply.exit()) {
                    Some(failure) => {
                        let failed = RunView {
                            next: self.next + 1,
                            errors: self.errors.push(failure),
                            ..self
                        };
                        if self.tier == Tier::Required {
                            RunView { stage: RunStage::Finished, ..failed }
                        } else {
                            failed.settle()
                        }
                    },
                    None => RunView { next: self.next + 1, ..self }.settle(),
                }
            },
            RunStage::Finished => self,
        }
    }

    /// What the run came to, once it has ended: its failures and the names it
    /// passed over.
    pub open spec fn outcome(self) -> Option<(Seq<ScriptFailureView>, Seq<Seq<char>>)> {
        match self.stage {
            RunStage::Finished => Some((self.errors, self.skipped)),
            _ => None,
        }
    }

    /// What holds of every run that was started and resumed: while it waits
    /// for a script, that script is an entry that is to be run.
    pub open spec fn wf(self) -> bool {
        &&& self.next <= self.entries.len()
        &&& self.stage == RunStage::Finding ==> self.skipped.len() == 0
        &&& self.stage == RunStage::Running ==> self.next < self.entries.len() && self.runnable(
            self.next as int,
        )
        &&& self.stage == RunStage::Finished ==> self.next == self.entries.len() || (self.tier
            == Tier::Required && self.errors.len() > 0)
    }

    /// The names that were passed over are those of the disabled entries that
    /// the run has gone past, and no others.
    pub open spec fn accounted(self) -> bool {
        let passed = self.next as int;
        &&& forall|i: int|
            0 <= i < self.skipped.len() ==> self.disabled.contains(#[trigger] self.skipped[i])
                && exists|k: int|
                0 <= k < passed && base_name(self.entries[k]) == Some(self.skipped[i])
        &&& forall|k: int|
            0 <= k < passed && k < self.entries.len() ==> match base_name(
                #[trigger] self.entries[k],
            ) {
                Some(name) => self.disabled.contains(name) ==> self.skipped.contains(name),
                None => true,
            }
    }
}

impl ScriptRun {
    /// Starts a run of the scripts of a tier in a directory. The names on the
    /// list are not run; an empty list disables nothing.
    pub fn start(tier: Tier, directory: &str, disabled: Vec<String>) -> (m: ScriptRun)
        ensures
            m@ == RunView::start(tier, directory@, strings(disabled@)),
    {
        let mut pattern = String::from_str(directory);
        pattern.append("*.sh");
        let mut errors: Vec<ScriptFailure> = Vec::new();
        let entries: Vec<String> = Vec::new();
        let skipped: Vec<String> = Vec::new();
        let mut stage = RunStage::Finding;
        match pattern_rejection(pattern.as_str()) {
            Some(why) => {
                stage = RunStage::Finished;
                errors.push(ScriptFailure::Pattern { pattern: pattern.clone(), why });
            },
            None => {},
        }
        let m = ScriptRun { tier, pattern, disabled, stage, entries, next: 0, errors, skipped };
        proof {
            let spec = RunView::start(tier, directory@, strings(disabled@));
            assert(m@.entries =~= spec.entries);
            assert(m@.skipped =~= spec.skipped);
            assert(m@.errors =~= spec.errors);
        }
        m
    }

    /// Moves the run on to the next entry that is to be run.
    fn settle(self) -> (r: ScriptRun)
        ensures
            r@ == self@.settle(),
    {
        let ghost initial = self@;
        let ScriptRun { tier, pattern, disabled, stage, entries, next, errors, skipped } = self;
        match stage {
            RunStage::Running => {},
            _ => {
                return ScriptRun { tier, pattern, disabled, stage, entries, next, errors, skipped };
            },
        }
        let mut next = next;
        let mut skipped = skipped;
        while next < entries.len()
            invariant
                stage == RunStage::Running,
                initial == self@,
                initial.settle() == (RunView {
                    tier,
                    pattern: pattern@,
                    disabled: strings(disabled@),
                    stage,
                    entries: strings(entries@),
                    next: next as nat,
                    errors: failures(errors@),
                    skipped: strings(skipped@),
                }).settle(),
            decreases entries.len() - next,
        {
            proof {
                assert(strings(entries@)[next as int] == entries@[next as int]@);
            }
            match script_name(entries[next].as_str()) {
                None => {
                    next = next + 1;
                },
                Some(name) => {
                    if is_listed(&disabled, name.as_str()) {
                        proof {
                            assert(strings(skipped@.push(name)) =~= strings(skipped@).push(name@));
                        }
                        skipped.push(name);
                        next = next + 1;
                    } else {
                        return ScriptRun {
                            tier,
                            pattern,
                            disabled,
                            stage,
                            entries,
                            next,
                            errors,
                            skipped,
                        };
                    }
                },
            }
        }
        ScriptRun {
            tier,
            pattern,
            disabled,
            stage: RunStage::Finished,
            entries,
            next,
            errors,
            skipped,
        }
    }

    /// The outside work that the run waits for; none once it has ended.
    pub fn pending(&self) -> (r: Option<Request>)
        ensures
            optional_request(r) == self@.pending(),
    {
        match self.stage {
            RunStage::Finding => Some(Request::FindScripts(self.pattern.clone())),
            RunStage::Running => {
                if self.next < self.entries.len() {
                    proof {
                        assert(strings(self.entries@)[self.next as int]
                            == self.entries@[self.next as int]@);
                    }
                    Some(Request::RunScript(self.entries[self.next].clone()))
                } else {
                    None
                }
            },
            RunStage::Finished => None,
        }
    }

    /// The run after the reply to the request it waited for.
    pub fn resume(self, reply: Reply) -> (next: ScriptRun)
        ensures
            next@ == self@.resume(reply@),
    {
        let ScriptRun { tier, pattern, disabled, stage, entries, next, errors, skipped } = self;
        match stage {
            RunStage::Finding => {
                let found = reply.into_paths();
                let m = ScriptRun {
                    tier,
                    pattern,
                    disabled,
                    stage: RunStage::Running,
                    entries: found,
                    next: 0,
                    errors,
                    skipped,
                };
                m.settle()
            },
            RunStage::Running => {
                if next >= entries.len() {
                    return ScriptRun {
                        tier,
                        pattern,
                        disabled,
                        stage: RunStage::Finished,
                        entries,
                        next,
                        errors,
                        skipped,
                    };
                }
                proof {
                    assert(strings(entries@)[next as int] == entries@[next as int]@);
                }
                let failure = match reply.into_exit() {
                    Ok(output) => {
                        if output.success {
                            None
                        } else {
                            Some(
                                ScriptFailure::Exited { tier, path: entries[next].clone(), output },
                            )
                        }
                    },
                    Err(why) => Some(
                        ScriptFailure::NotLaunched { tier, path: entries[next].clone(), why },
                    ),
                };
                let mut errors = errors;
                match failure {
                    Some(failure) => {
                        proof {
                            assert(failures(errors@.push(failure)) =~= failures(errors@).push(
                                failure@,
                            ));
                        }
                        errors.push(failure);
                        let failed = ScriptRun {
                            tier,
                            pattern,
                            disabled,
                            stage,
                            entries,
                            next: next + 1,
                            errors,
                            skipped,
                        };
                        match tier {
                            Tier::Required => ScriptRun { stage: RunStage::Finished, ..failed },
                            _ => failed.settle(),
                        }
                    },
                    None => {
                        let passed = ScriptRun {
                            tier,
                            pattern,
                            disabled,
                            stage,
                            entries,
                            next: next + 1,
                            errors,
                            skipped,
                        };
                        passed.settle()
                    },
                }
            },
            RunStage::Finished => ScriptRun {
                tier,
                pattern,
                disabled,
                stage,
                entries,
                next,
                errors,
                skipped,
            },
        }
    }

    /// Whether the run has ended.
    pub fn is_finished(&self) -> (r: bool)
        ensures
            r == (self@.stage == RunStage::Finished),
    {
        match self.stage {
            RunStage::Finished => true,
            _ => false,
        }
    }

    /// What the run came to; nothing while it still waits.
    pub fn outcome(self) -> (r: Option<ScriptRunResult>)
        ensures
            match r {
                Some(result) => self@.outcome() == Some(
                    (failures(result.errors@), strings(result.skipped@)),
                ),
                None => self@.outcome() is None,
            },
    {
        match self.stage {
            RunStage::Finished => Some(
                ScriptRunResult { errors: self.errors, skipped: self.skipped },
            ),
            _ => None,
        }
    }
}

/// Starts a run of the scripts of a tier in a directory, sparing the scripts
/// whose names are on the list.
pub fn run_scripts(tier: Tier, path: &str, disabled_scripts: Vec<String>) -> (m: ScriptRun)
    ensures
        m@ == RunView::start(tier, path@, strings(disabled_scripts@)),
{
    ScriptRun::start(tier, path, disabled_scripts)
}

/// Moving a run on keeps it in order: it then waits for an entry that is to
/// be run or has ended with every entry looked at, it has noted exactly the
/// disabled entries it went past, and it has recorded no new failure.
pub proof fn lemma_settle(m: RunView)
    requires
        m.stage == RunStage::Running,
        m.next <= m.entries.len(),
        m.accounted(),
    ensures
        m.settle().wf(),
        m.settle().accounted(),
        m.settle().stage != RunStage::Finding,
        m.settle().stage == RunStage::Finished ==> m.settle().next == m.entries.len(),
        m.settle().tier == m.tier,
        m.settle().pattern == m.pattern,
        m.settle().disabled == m.disabled,
        m.settle().entries == m.entries,
        m.settle().errors == m.errors,
    decreases m.entries.len() - m.next,
{
    if m.next < m.entries.len() {
        let at = m.next as int;
        match base_name(m.entries[at]) {
            None => {
                let moved = RunView { next: m.next + 1, ..m };
                lemma_step_keeps_account(m, moved.errors);
                lemma_settle(moved);
            },
            Some(name) => {
                if m.disabled.contains(name) {
                    let moved = RunView {
                        next: m.next + 1,
                        skipped: m.skipped.push(name),
                        ..m
                    };
                    assert(moved.accounted()) by {
                        assert forall|i: int|
                            0 <= i < moved.skipped.len() implies moved.disabled.contains(
                            #[trigger] moved.skipped[i],
                        ) && exists|k: int|
                            0 <= k < moved.next && base_name(moved.entries[k]) == Some(
                                moved.skipped[i],
                            ) by {
                            if i < m.skipped.len() {
                                assert(moved.skipped[i] == m.skipped[i]);
                                let k = choose|k: int|
                                    0 <= k < m.next && base_name(m.entries[k]) == Some(
                                        m.skipped[i],
                                    );
                                assert(0 <= k < moved.next && base_name(moved.entries[k])
                                    == Some(moved.skipped[i]));
                            } else {
                                assert(moved.skipped[i] == name);
                                assert(0 <= at < moved.next && base_name(moved.entries[at])
                                    == Some(moved.skipped[i]));
                            }
                        }
                        assert forall|k: int|
                            0 <= k < moved.next && k < moved.entries.len() implies match base_name(
                            #[trigger] moved.entries[k],
                        ) {
                            Some(n) => moved.disabled.contains(n) ==> moved.skipped.contains(n),
                            None => true,
                        } by {
                            match base_name(moved.entries[k]) {
                                Some(n) => {
                                    if moved.disabled.contains(n) {
                                        if k < m.next {
                                            assert(m.skipped.contains(n));
                                            let j = choose|j: int|
                                                0 <= j < m.skipped.len() && m.skipped[j] == n;
                                            assert(moved.skipped[j] == n);
                                        } else {
                                            assert(moved.skipped[m.skipped.len() as int] == n);
                                        }
                                    }
                                },
                                None => {},
                            }
                        }
                    }
                    lemma_settle(moved);
                }
            },
        }
    }
}

/// Going past the script that ran keeps the account of what was passed over.
proof fn lemma_step_keeps_account(m: RunView, errors: Seq<ScriptFailureView>)
    requires
        m.accounted(),
        match base_name(m.entries[m.next as int]) {
            Some(name) => !m.disabled.contains(name),
            None => true,
        },
    ensures
        (RunView { next: m.next + 1, errors, ..m }).accounted(),
{
    let moved = RunView { next: m.next + 1, errors, ..m };
    assert forall|i: int| 0 <= i < moved.skipped.len() implies moved.disabled.contains(
        #[trigger] moved.skipped[i],
    ) && exists|k: int|
        0 <= k < moved.next && base_name(moved.entries[k]) == Some(moved.skipped[i]) by {
        let k = choose|k: int| 0 <= k < m.next && base_name(m.entries[k]) == Some(m.skipped[i]);
        assert(0 <= k < moved.next && base_name(moved.entries[k]) == Some(moved.skipped[i]));
    }
}

/// A run starts in order and stays so, and a run in order has an outcome
/// exactly when it waits for nothing.
pub proof fn law_run_wf(
    m: RunView,
    tier: Tier,
    directory: Seq<char>,
    disabled: Seq<Seq<char>>,
    reply: ReplyView,
)
    ensures
        RunView::start(tier, directory, disabled).wf(),
        RunView::start(tier, directory, disabled).accounted(),
        m.wf() && m.accounted() ==> m.resume(reply).wf() && m.resume(reply).accounted(),
        m.wf() ==> (m.pending() is None <==> m.outcome() is Some),
{
    if m.wf() && m.accounted() {
        match m.stage {
            RunStage::Finding => {
                let found = RunView {
                    stage: RunStage::Running,
                    entries: reply.paths(),
                    next: 0,
                    ..m
                };
                lemma_settle(found);
            },
            RunStage::Running => {
                let at = m.next as int;
                let moved = match script_failure(m.tier, m.entries[at], reply.exit()) {
                    Some(failure) => RunView {
                        next: m.next + 1,
                        errors: m.errors.push(failure),
                        ..m
                    },
                    None => RunView { next: m.next + 1, ..m },
                };
                lemma_step_keeps_account(m, moved.errors);
                lemma_settle(moved);
            },
            RunStage::Finished => {},
        }
    }
}

/// A script whose name is disabled is never asked to run: what a run in
/// order waits to have run has a name, and the name is not on the list.
pub proof fn law_disabled_never_runs(m: RunView, path: Seq<char>)
    requires
        m.wf(),
        m.pending() == Some(RequestView::RunScript(path)),
    ensures
        match base_name(path) {
            Some(name) => !m.disabled.contains(name),
            None => false,
        },
{
}

/// Once a run has ended without being cut short by a required failure, every
/// script that was found under a disabled name is among those passed over.
pub proof fn law_disabled_is_skipped(m: RunView, k: int)
    requires
        m.wf(),
        m.accounted(),
        m.stage == RunStage::Finished,
        m.tier != Tier::Required || m.errors.len() == 0,
        0 <= k < m.entries.len(),
    ensures
        match base_name(m.entries[k]) {
            Some(name) => m.disabled.contains(name) ==> m.skipped.contains(name),
            None => true,
        },
{
}

/// Every name that a run passed over is disabled, and is the name of a script
/// that was found.
pub proof fn law_skipped_was_found(m: RunView, i: int)
    requires
        m.wf(),
        m.accounted(),
        0 <= i < m.skipped.len(),
    ensures
        m.disabled.contains(m.skipped[i]),
        exists|k: int| 0 <= k < m.entries.len() && base_name(m.entries[k]) == Some(m.skipped[i]),
{
    let k = choose|k: int| 0 <= k < m.next && base_name(m.entries[k]) == Some(m.skipped[i]);
    assert(0 <= k < m.entries.len() && base_name(m.entries[k]) == Some(m.skipped[i]));
}

/// The first failure of a required script ends the run: the failure is
/// recorded, and no further script is looked at.
pub proof fn law_required_fails_fast(m: RunView, reply: ReplyView)
    requires
        m.wf(),
        m.stage == RunStage::Running,
        m.tier == Tier::Required,
        script_failure(m.tier, m.entries[m.next as int], reply.exit()) is Some,
    ensures
        m.resume(reply).pending() is None,
        m.resume(reply).outcome() == Some(
            (
                m.errors.push(
                    script_failure(m.tier, m.entries[m.next as int], reply.exit())->0,
                ),
                m.skipped,
            ),
        ),
{
}

/// In every other tier a failure is recorded and the run goes on: it ends
/// only when every entry has been looked at.
pub proof fn law_other_tiers_fail_soft(m: RunView, reply: ReplyView)
    requires
        m.wf(),
        m.accounted(),
        m.stage == RunStage::Running,
        m.tier != Tier::Required,
    ensures
        m.resume(reply).errors == match script_failure(
            m.tier,
            m.entries[m.next as int],
            reply.exit(),
        ) {
            Some(failure) => m.errors.push(failure),
            None => m.errors,
        },
        m.resume(reply).stage == RunStage::Finished ==> m.resume(reply).next == m.entries.len(),
{
    let moved = match script_failure(m.tier, m.entries[m.next as int], reply.exit()) {
        Some(failure) => RunView { next: m.next + 1, errors: m.errors.push(failure), ..m },
        None => RunView { next: m.next + 1, ..m },
    };
    law_run_wf(m, m.tier, Seq::empty(), Seq::empty(), reply);
    lemma_step_keeps_account(m, moved.errors);
    lemma_settle(moved);
}

/// The number of search roots.
pub const ROOT_COUNT: usize = 2;

/// The search roots, in the order in which they are consulted: what the
/// system provides, then what the administrator overrides.
pub open spec fn search_root(index: int) -> Seq<char> {
    if index == 0 {
        "/usr/lib/greenboot"@
    } else {
        "/etc/greenboot"@
    }
}

/// The search root at the index.
pub fn root_path(index: usize) -> (r: &'static str)
    ensures
        r@ == search_root(index as int),
{
    if index == 0 {
        "/usr/lib/greenboot"
    } else {
        "/etc/greenboot"
    }
}

/// The directory of a tier's scripts below the search root at the index.
pub open spec fn tier_directory(tier: Tier, root: int) -> Seq<char> {
    search_root(root) + tier.subdirectory()
}

/// The texts of two lists joined are the texts of the one, then those of the other.
pub proof fn lemma_strings_add(a: Seq<String>, b: Seq<String>)
    ensures
        strings(a + b) == strings(a) + strings(b),
{
    assert(strings(a + b) =~= strings(a) + strings(b));
}

/// The models of two lists of failures joined are those of the one, then those of the other.
pub proof fn lemma_failures_add(a: Seq<ScriptFailure>, b: Seq<ScriptFailure>)
    ensures
        failures(a + b) == failures(a) + failures(b),
{
    assert(failures(a + b) =~= failures(a) + failures(b));
}

/// A tier's scripts run at every search root in turn. A failure at one root
/// does not keep the next root from its turn.
#[derive(Debug)]
pub struct Sweep {
    pub tier: Tier,
    pub disabled: Vec<String>,
    /// The index of the root whose scripts run.
    pub root: usize,
    /// The run at that root; none once every root has had its turn.
    pub run: Option<ScriptRun>,
    /// The failures at the roots that are done.
    pub errors: Vec<ScriptFailure>,
    /// The names passed over at the roots that are done.
    pub skipped: Vec<String>,
}

/// The model of a [`Sweep`]: the state that the machine is proved to follow.
pub struct SweepView {
    pub tier: Tier,
    pub disabled: Seq<Seq<char>>,
    pub root: nat,
    pub run: Option<RunView>,
    pub errors: Seq<ScriptFailureView>,
    pub skipped: Seq<Seq<char>>,
}

impl View for Sweep {
    type V = SweepView;

    open spec fn view(&self) -> SweepView {
        SweepView {
            tier: self.tier,
            disabled: strings(self.disabled@),
            root: self.root as nat,
            run: match self.run {
                Some(run) => Some(run@),
                None => None,
            },
            errors: failures(self.errors@),
            skipped: strings(self.skipped@),
        }
    }
}

impl SweepView {
    /// The sweep as it takes up the root at the index: the run there is
    /// started, and where it ends at once the next root is taken up.
    pub open spec fn enter(self, root: nat) -> SweepView
        decreases ROOT_COUNT - root,
    {
        if root >= ROOT_COUNT {
            SweepView { root, run: None, ..self }
        } else {
            let run = RunView::start(
                self.tier,
                tier_directory(self.tier, root as int),
                self.disabled,
            );
            match run.outcome() {
                Some((errors, skipped)) => SweepView {
                    root,
                    run: None,
                    errors: self.errors + errors,
                    skipped: self.skipped + skipped,
                    ..self
                }.enter(root + 1),
                None => SweepView { root, run: Some(run), ..self },
            }
        }
    }

    /// A sweep that has asked for nothing yet.
    pub open spec fn start(tier: Tier, disabled: Seq<Seq<char>>) -> SweepView {
        SweepView {
            tier,
            disabled,
            root: 0,
            run: None,
            errors: Seq::empty(),
            skipped: Seq::empty(),
        }.enter(0)
    }

    /// The outside work that the sweep waits for.
    pub open spec fn pending(self) -> Option<RequestView> {
        match self.run {
            Some(run) => run.pending(),
            None => None,
        }
    }

    /// The sweep after the reply to what it waited for.
    pub open spec fn resume(self, reply: ReplyView) -> SweepView {
        match self.run {
            Some(run) => match run.resume(reply).outcome() {
                Some((errors, skipped)) => SweepView {
                    run: None,
                    errors: self.errors + errors,
                    skipped: self.skipped + skipped,
                    ..self
                }.enter(
                    if self.root < ROOT_COUNT {
                        self.root + 1
                    } else {
                        self.root
                    },
                ),
                None => SweepView { run: Some(run.resume(reply)), ..self },
            },
            None => self,
        }
    }

    /// What the sweep came to, once every root has had its turn: the failures
    /// and the names passed over, root by root.
    pub open spec fn outcome(self) -> Option<(Seq<ScriptFailureView>, Seq<Seq<char>>)> {
        match self.run {
            Some(_) => None,
            None => Some((self.errors, self.skipped)),
        }
    }

    /// What holds of every sweep that was started and resumed: its run is in
    /// order, has not ended, and is the run of the sweep's tier and list.
    pub open spec fn wf(self) -> bool {
        match self.run {
            Some(run) => {
                &&& run.wf()
                &&& run.accounted()
                &&& run.stage != RunStage::Finished
                &&& run.tier == self.tier
                &&& run.disabled == self.disabled
            },
            None => true,
        }
    }
}

impl Sweep {
    fn enter(self, root: usize) -> (r: Sweep)
        ensures
            r@ == self@.enter(root as nat),
        decreases ROOT_COUNT - root,
    {
        let Sweep { tier, disabled, root: _, run: _, errors, skipped } = self;
        if root >= ROOT_COUNT {
            return Sweep { tier, disabled, root, run: None, errors, skipped };
        }
        let directory = tier.directory(root_path(root));
        let run = ScriptRun::start(tier, directory.as_str(), copy_strings(&disabled));
        if run.is_finished() {
            let mut errors = errors;
            let mut skipped = skipped;
            let ghost before_errors = errors@;
            let ghost before_skipped = skipped@;
            let mut result = match run.outcome() {
                Some(result) => result,
                None => ScriptRunResult { errors: Vec::new(), skipped: Vec::new() },
            };
            proof {
                lemma_failures_add(before_errors, result.errors@);
                lemma_strings_add(before_skipped, result.skipped@);
            }
            errors.append(&mut result.errors);
            skipped.append(&mut result.skipped);
            let moved = Sweep { tier, disabled, root, run: None, errors, skipped };
            moved.enter(root + 1)
        } else {
            Sweep { tier, disabled, root, run: Some(run), errors, skipped }
        }
    }

    /// Starts a sweep of a tier over the search roots.
    pub fn start(tier: Tier, disabled: Vec<String>) -> (m: Sweep)
        ensures
            m@ == SweepView::start(tier, strings(disabled@)),
    {
        let m = Sweep {
            tier,
            disabled,
            root: 0,
            run: None,
            errors: Vec::new(),
            skipped: Vec::new(),
        };
        proof {
            assert(m@.errors =~= Seq::<ScriptFailureView>::empty());
            assert(m@.skipped =~= Seq::<Seq<char>>::empty());
        }
        m.enter(0)
    }

    /// The outside work that the sweep waits for; none once it has ended.
    pub fn pending(&self) -> (r: Option<Request>)
        ensures
            optional_request(r) == self@.pending(),
    {
        match &self.run {
            Some(run) => run.pending(),
            None => None,
        }
    }

    /// The sweep after the reply to the request it waited for.
    pub fn resume(self, reply: Reply) -> (next: Sweep)
        ensures
            next@ == self@.resume(reply@),
    {
        let Sweep { tier, disabled, root, run, errors, skipped } = self;
        match run {
            Some(run) => {
                let run = run.resume(reply);
                if run.is_finished() {
                    let mut errors = errors;
                    let mut skipped = skipped;
                    let ghost before_errors = errors@;
                    let ghost before_skipped = skipped@;
                    let mut result = match run.outcome() {
                        Some(result) => result,
                        None => ScriptRunResult { errors: Vec::new(), skipped: Vec::new() },
                    };
                    proof {
                        lemma_failures_add(before_errors, result.errors@);
                        lemma_strings_add(before_skipped, result.skipped@);
                    }
                    errors.append(&mut result.errors);
                    skipped.append(&mut result.skipped);
                    let moved = Sweep { tier, disabled, root, run: None, errors, skipped };
                    if root < ROOT_COUNT {
                        moved.enter(root + 1)
                    } else {
                        moved.enter(root)
                    }
                } else {
                    Sweep { tier, disabled, root, run: Some(run), errors, skipped }
                }
            },
            None => Sweep { tier, disabled, root, run, errors, skipped },
        }
    }

    /// Whether every root has had its turn.
    pub fn is_finished(&self) -> (r: bool)
        ensures
            r == self@.outcome() is Some,
    {
        self.run.is_none()
    }

    /// What the sweep came to; nothing while it still waits.
    pub fn outcome(self) -> (r: Option<ScriptRunResult>)
        ensures
            match r {
                Some(result) => self@.outcome() == Some(
                    (failures(result.errors@), strings(result.skipped@)),
                ),
                None => self@.outcome() is None,
            },
    {
        match self.run {
            Some(_) => None,
            None => Some(ScriptRunResult { errors: self.errors, skipped: self.skipped }),
        }
    }
}

/// Starts the scripts that follow an unhealthy boot, at every search root.
/// Their failures are reported and stop nothing.
pub fn run_red() -> (m: Sweep)
    ensures
        m@ == SweepView::start(Tier::Red, Seq::empty()),
{
    let none: Vec<String> = Vec::new();
    proof {
        assert(strings(none@) =~= Seq::<Seq<char>>::empty());
    }
    Sweep::start(Tier::Red, none)
}

/// Starts the scripts that follow a healthy boot, at every search root.
/// Their failures are reported and stop nothing.
pub fn run_green() -> (m: Sweep)
    ensures
        m@ == SweepView::start(Tier::Green, Seq::empty()),
{
    let none: Vec<String> = Vec::new();
    proof {
        assert(strings(none@) =~= Seq::<Seq<char>>::empty());
    }
    Sweep::start(Tier::Green, none)
}

/// Taking up a root leaves a sweep in order, with its tier and list.
pub proof fn lemma_enter(m: SweepView, root: nat)
    ensures
        m.enter(root).wf(),
        m.enter(root).tier == m.tier,
        m.enter(root).disabled == m.disabled,
    decreases ROOT_COUNT - root,
{
    if root < ROOT_COUNT {
        let run = RunView::start(m.tier, tier_directory(m.tier, root as int), m.disabled);
        law_run_wf(
            run,
            m.tier,
            tier_directory(m.tier, root as int),
            m.disabled,
            ReplyView::Written,
        );
        match run.outcome() {
            Some((errors, skipped)) => {
                lemma_enter(
                    SweepView {
                        root,
                        run: None,
                        errors: m.errors + errors,
                        skipped: m.skipped + skipped,
                        ..m
                    },
                    root + 1,
                );
            },
            None => {},
        }
    }
}

/// A sweep starts in order and stays so, and a sweep in order has an outcome
/// exactly when it waits for nothing.
pub proof fn law_sweep_wf(m: SweepView, tier: Tier, disabled: Seq<Seq<char>>, reply: ReplyView)
    ensures
        SweepView::start(tier, disabled).wf(),
        m.wf() ==> m.resume(reply).wf(),
        m.wf() ==> (m.pending() is None <==> m.outcome() is Some),
{
    lemma_enter(
        SweepView {
            tier,
            disabled,
            root: 0,
            run: None,
            errors: Seq::empty(),
            skipped: Seq::empty(),
        },
        0,
    );
    if m.wf() {
        match m.run {
            Some(run) => {
                law_run_wf(run, m.tier, Seq::empty(), m.disabled, reply);
                match run.resume(reply).outcome() {
                    Some((errors, skipped)) => {
                        lemma_enter(
                            SweepView {
                                run: None,
                                errors: m.errors + errors,
                                skipped: m.skipped + skipped,
                                ..m
                            },
                            if m.root < ROOT_COUNT {
                                m.root + 1
                            } else {
                                m.root
                            },
                        );
                    },
                    None => {
                        lemma_resume_keeps_run(run, reply);
                    },
                }
            },
            None => {},
        }
    }
}

/// A reply changes neither the tier nor the list of a run.
pub proof fn lemma_resume_keeps_run(m: RunView, reply: ReplyView)
    requires
        m.wf(),
        m.accounted(),
    ensures
        m.resume(reply).tier == m.tier,
        m.resume(reply).disabled == m.disabled,
        m.resume(reply).pattern == m.pattern,
{
    match m.stage {
        RunStage::Finding => {
            lemma_settle(
                RunView { stage: RunStage::Running, entries: reply.paths(), next: 0, ..m },
            );
        },
        RunStage::Running => {
            let moved = match script_failure(m.tier, m.entries[m.next as int], reply.exit()) {
                Some(failure) => RunView {
                    next: m.next + 1,
                    errors: m.errors.push(failure),
                    ..m
                },
                None => RunView { next: m.next + 1, ..m },
            };
            lemma_step_keeps_account(m, moved.errors);
            lemma_settle(moved);
        },
        RunStage::Finished => {},
    }
}

/// A sweep in order never asks to run a script whose name is disabled.
pub proof fn law_sweep_spares_disabled(m: SweepView, path: Seq<char>)
    requires
        m.wf(),
        m.pending() == Some(RequestView::RunScript(path)),
    ensures
        match base_name(path) {
            Some(name) => !m.disabled.contains(name),
            None => false,
        },
{
}

/// A reply changes neither the tier nor the list of a sweep.
pub proof fn lemma_sweep_resume_keeps(m: SweepView, reply: ReplyView)
    requires
        m.wf(),
    ensures
        m.resume(reply).tier == m.tier,
        m.resume(reply).disabled == m.disabled,
{
    match m.run {
        Some(run) => {
            match run.resume(reply).outcome() {
                Some((errors, skipped)) => {
                    lemma_enter(
                        SweepView {
                            run: None,
                            errors: m.errors + errors,
                            skipped: m.skipped + skipped,
                            ..m
                        },
                        if m.root < ROOT_COUNT {
                            m.root + 1
                        } else {
                            m.root
                        },
                    );
                },
                None => {},
            }
        },
        None => {},
    }
}

impl RunView {
    /// The run after a row of replies, each taken in its turn.
    pub open spec fn run(self, replies: Seq<ReplyView>) -> RunView
        decreases replies.len(),
    {
        if replies.len() == 0 {
            self
        } else {
            self.resume(replies[0]).run(replies.drop_first())
        }
    }
}

proof fn lemma_run_stays_in_order(m: RunView, replies: Seq<ReplyView>)
    requires
        m.wf(),
        m.accounted(),
    ensures
        m.run(replies).wf(),
        m.run(replies).accounted(),
        m.run(replies).disabled == m.disabled,
    decreases replies.len(),
{
    if replies.len() > 0 {
        law_run_wf(m, m.tier, Seq::empty(), m.disabled, replies[0]);
        lemma_resume_keeps_run(m, replies[0]);
        lemma_run_stays_in_order(m.resume(replies[0]), replies.drop_first());
    }
}

/// Whatever the replies, a run never asks to run a script whose name is
/// disabled, and every name it has passed over is a disabled name of a script
/// that was found.
pub proof fn law_run_spares_disabled(
    tier: Tier,
    directory: Seq<char>,
    disabled: Seq<Seq<char>>,
    replies: Seq<ReplyView>,
)
    ensures
        ({
            let m = RunView::start(tier, directory, disabled).run(replies);
            &&& match m.pending() {
                Some(RequestView::RunScript(path)) => match base_name(path) {
                    Some(name) => !disabled.contains(name),
                    None => false,
                },
                _ => true,
            }
            &&& forall|i: int|
                0 <= i < m.skipped.len() ==> disabled.contains(#[trigger] m.skipped[i])
        }),
{
    let start = RunView::start(tier, directory, disabled);
    law_run_wf(start, tier, directory, disabled, ReplyView::Written);
    lemma_run_stays_in_order(start, replies);
}

} // verus!
