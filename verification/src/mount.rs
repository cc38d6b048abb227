//! The guard of the boot partition's mount state.
//!
//! Whether the partition is writable is never remembered: it is read off the
//! mount table each time, and a remount is asked for only when the table shows
//! that the partition is not yet in the state that is wanted.

use crate::host::{Reply, ReplyView, Request, RequestView};
use crate::text::{
    contains_text, decode_text_lossy, fields, has_substring, lines, lossy_text, same_text,
    split_fields, split_lines, to_chars,
};
use vstd::prelude::*;
use vstd::string::StringExecFns;

verus! {

/// Why the mount state could not be read or changed.
#[derive(Debug)]
pub enum MountError {
    /// The remount did not succeed; the text is what the mount tool said.
    RemountFailed(String),
    /// The mount table could not be read, or has no entry for the boot partition.
    MountInfoError,
}

/// The model of a [`MountError`].
pub enum MountErrorView {
    RemountFailed(Seq<char>),
    MountInfoError,
}

impl View for MountError {
    type V = MountErrorView;

    open spec fn view(&self) -> MountErrorView {
        match self {
            MountError::RemountFailed(why) => MountErrorView::RemountFailed(why@),
            MountError::MountInfoError => MountErrorView::MountInfoError,
        }
    }
}

impl MountErrorView {
    /// The error in words.
    pub open spec fn message(self) -> Seq<char> {
        match self {
            MountErrorView::RemountFailed(why) => "Failed to remount /boot: "@ + why,
            MountErrorView::MountInfoError => "Failed to read mount info"@,
        }
    }
}

impl MountError {
    /// The error in words.
    pub fn message(&self) -> (r: String)
        ensures
            r@ == self@.message(),
    {
        match self {
            MountError::RemountFailed(why) => {
                let mut out = String::from_str("Failed to remount /boot: ");
                out.append(why.as_str());
                out
            },
            MountError::MountInfoError => String::from_str("Failed to read mount info"),
        }
    }
}

/// Whether a line of the mount table is the entry of the boot partition: it
/// has at least four fields, and the second, the mount point, is `/boot`.
pub open spec fn is_boot_entry(line: Seq<char>) -> bool {
    fields(line).len() >= 4 && fields(line)[1] == "/boot"@
}

/// Whether mount options grant write access: `rw` occurs in them and `ro`
/// does not.
pub open spec fn grants_write(options: Seq<char>) -> bool {
    has_substring(options, "rw"@) && !has_substring(options, "ro"@)
}

/// The options of the first entry of the boot partition among the lines.
pub open spec fn boot_options(table: Seq<Seq<char>>) -> Option<Seq<char>>
    decreases table.len(),
{
    if table.len() == 0 {
        None
    } else if is_boot_entry(table[0]) {
        Some(fields(table[0])[3])
    } else {
        boot_options(table.drop_first())
    }
}

/// Whether the boot partition is mounted writable, as the mount table has it.
/// `None` stands for a table that could not be read.
pub open spec fn boot_writable(table: Option<Seq<char>>) -> Result<bool, MountErrorView> {
    match table {
        None => Err(MountErrorView::MountInfoError),
        Some(text) => match boot_options(lines(text)) {
            None => Err(MountErrorView::MountInfoError),
            Some(options) => Ok(grants_write(options)),
        },
    }
}

/// The mount table has options for the boot partition exactly if one of its
/// lines is an entry of that partition.
pub proof fn law_boot_entry(table: Seq<Seq<char>>)
    ensures
        boot_options(table) is Some <==> exists|i: int|
            0 <= i < table.len() && is_boot_entry(#[trigger] table[i]),
    decreases table.len(),
{
    if table.len() > 0 {
        let rest = table.drop_first();
        law_boot_entry(rest);
        if !is_boot_entry(table[0]) {
            if boot_options(rest) is Some {
                let i = choose|i: int| 0 <= i < rest.len() && is_boot_entry(#[trigger] rest[i]);
                assert(is_boot_entry(table[i + 1]));
            }
            if exists|i: int| 0 <= i < table.len() && is_boot_entry(#[trigger] table[i]) {
                let i = choose|i: int| 0 <= i < table.len() && is_boot_entry(#[trigger] table[i]);
                assert(is_boot_entry(rest[i - 1]));
            }
        }
    }
}

/// The first line that is an entry of the boot partition decides: its fourth
/// field holds the options.
pub proof fn law_first_boot_entry(table: Seq<Seq<char>>, i: int)
    requires
        0 <= i < table.len(),
        is_boot_entry(table[i]),
        forall|j: int| 0 <= j < i ==> !is_boot_entry(table[j]),
    ensures
        boot_options(table) == Some(fields(table[i])[3]),
    decreases i,
{
    if i > 0 {
        let rest = table.drop_first();
        assert(!is_boot_entry(table[0]));
        assert(rest[i - 1] == table[i]);
        assert forall|j: int| 0 <= j < i - 1 implies !is_boot_entry(rest[j]) by {
            assert(rest[j] == table[j + 1]);
        }
        law_first_boot_entry(rest, i - 1);
    }
}

/// The text of a string that may be missing.
pub open spec fn optional_text(text: Option<&str>) -> Option<Seq<char>> {
    match text {
        Some(t) => Some(t@),
        None => None,
    }
}

/// Reads off the mount table whether the boot partition is writable.
/// `None` stands for a table that could not be read.
pub fn is_boot_rw(table: Option<&str>) -> (r: Result<bool, MountError>)
    ensures
        match r {
            Ok(writable) => boot_writable(optional_text(table)) == Ok::<bool, MountErrorView>(
                writable,
            ),
            Err(e) => boot_writable(optional_text(table)) == Err::<bool, MountErrorView>(e@),
        },
{
    let text = match table {
        None => {
            return Err(MountError::MountInfoError);
        },
        Some(text) => text,
    };
    let chars = to_chars(text);
    let rows = split_lines(&chars);
    let boot = to_chars("/boot");
    let rw = to_chars("rw");
    let ro = to_chars("ro");
    let mut i: usize = 0;
    proof {
        assert(lines(text@).skip(0) =~= lines(text@));
    }
    while i < rows.len()
        invariant
            i <= rows.len(),
            table == Some(text),
            crate::text::texts(rows@) == lines(text@),
            boot@ == "/boot"@,
            rw@ == "rw"@,
            ro@ == "ro"@,
            boot_options(lines(text@)) == boot_options(lines(text@).skip(i as int)),
        decreases rows.len() - i,
    {
        let parts = split_fields(&rows[i]);
        proof {
            let rest = lines(text@).skip(i as int);
            assert(rest[0] == rows@[i as int]@);
            assert(rest.drop_first() =~= lines(text@).skip(i + 1));
            if parts.len() >= 4 {
                assert(crate::text::texts(parts@)[1] == parts@[1]@);
                assert(crate::text::texts(parts@)[3] == parts@[3]@);
            }
        }
        if parts.len() >= 4 && same_text(&parts[1], &boot) {
            let options = &parts[3];
            proof {
                let rest = lines(text@).skip(i as int);
                assert(fields(rest[0]) == crate::text::texts(parts@));
                assert(fields(rest[0]).len() == parts.len());
                assert(is_boot_entry(rest[0]));
                assert(boot_options(rest) == Some(options@));
            }
            return Ok(contains_text(options, &rw) && !contains_text(options, &ro));
        }
        i = i + 1;
    }
    proof {
        assert(lines(text@).skip(i as int).len() == 0);
    }
    Err(MountError::MountInfoError)
}

/// Where a remount stands.
#[derive(Clone, Copy, Debug, PartialEq, Eq, Structural)]
pub enum RemountStage {
    /// Waits for the mount table.
    Probing,
    /// Waits for the mount tool.
    Mounting,
    Finished,
}

/// Brings the boot partition into one mount state, writable or read-only.
///
/// It first reads the mount table, and asks for a remount only where the
/// table shows the other state.
#[derive(Debug)]
pub struct Remount {
    /// The state that is wanted.
    pub writable: bool,
    pub stage: RemountStage,
    /// Why the remount failed, once it has.
    pub failure: Option<MountError>,
}

/// The model of a [`Remount`]: the state that the machine is proved to follow.
pub struct RemountView {
    pub writable: bool,
    pub stage: RemountStage,
    pub failure: Option<MountErrorView>,
}

impl View for Remount {
    type V = RemountView;

    open spec fn view(&self) -> RemountView {
        RemountView {
            writable: self.writable,
            stage: self.stage,
            failure: match self.failure {
                Some(e) => Some(e@),
                None => None,
            },
        }
    }
}

/// What a failed remount reports: what the mount tool wrote to its error
/// stream, or that the tool did not start.
pub open spec fn remount_failure(exit: Result<crate::host::OutputView, Seq<char>>) -> Option<
    MountErrorView,
> {
    match exit {
        Ok(output) => if output.success {
            None
        } else {
            Some(MountErrorView::RemountFailed(lossy_text(output.stderr)))
        },
        Err(why) => Some(MountErrorView::RemountFailed("Failed to execute mount: "@ + why)),
    }
}

impl RemountView {
    /// A remount that has asked for nothing yet.
    pub open spec fn start(writable: bool) -> RemountView {
        RemountView { writable, stage: RemountStage::Probing, failure: None }
    }

    /// The outside work that the remount waits for.
    pub open spec fn pending(self) -> Option<RequestView> {
        match self.stage {
            RemountStage::Probing => Some(RequestView::ReadMountTable),
            RemountStage::Mounting => Some(RequestView::Remount { writable: self.writable }),
            RemountStage::Finished => None,
        }
    }

    /// The remount after the reply to what it waited for.
    pub open spec fn resume(self, reply: ReplyView) -> RemountView {
        match self.stage {
            RemountStage::Probing => match boot_writable(reply.text()) {
                Err(e) => RemountView { stage: RemountStage::Finished, failure: Some(e), ..self },
                Ok(writable) => if writable == self.writable {
                    RemountView { stage: RemountStage::Finished, ..self }
                } else {
                    RemountView { stage: RemountStage::Mounting, ..self }
                },
            },
            RemountStage::Mounting => RemountView {
                stage: RemountStage::Finished,
                failure: remount_failure(reply.exit()),
                ..self
            },
            RemountStage::Finished => self,
        }
    }

    /// How the remount ended, once it has.
    pub open spec fn outcome(self) -> Option<Result<(), MountErrorView>> {
        match self.stage {
            RemountStage::Finished => Some(
                match self.failure {
                    Some(e) => Err(e),
                    None => Ok(()),
                },
            ),
            _ => None,
        }
    }
}

/// Starts to make the boot partition writable.
pub fn remount_boot_rw() -> (m: Remount)
    ensures
        m@ == RemountView::start(true),
{
    Remount { writable: true, stage: RemountStage::Probing, failure: None }
}

/// Starts to make the boot partition read-only.
pub fn remount_boot_ro() -> (m: Remount)
    ensures
        m@ == RemountView::start(false),
{
    Remount { writable: false, stage: RemountStage::Probing, failure: None }
}

impl Remount {
    /// The outside work that the remount waits for; none once it has ended.
    pub fn pending(&self) -> (r: Option<Request>)
        ensures
            crate::host::optional_request(r) == self@.pending(),
    {
        match self.stage {
            RemountStage::Probing => Some(Request::ReadMountTable),
            RemountStage::Mounting => Some(Request::Remount { writable: self.writable }),
            RemountStage::Finished => None,
        }
    }

    /// The remount after the reply to the request it waited for.
    pub fn resume(self, reply: Reply) -> (next: Remount)
        ensures
            next@ == self@.resume(reply@),
    {
        match self.stage {
            RemountStage::Probing => {
                let state = match &reply {
                    Reply::Text(text) => is_boot_rw(Some(text.as_str())),
                    _ => is_boot_rw(None),
                };
                match state {
                    Err(e) => Remount {
                        writable: self.writable,
                        stage: RemountStage::Finished,
                        failure: Some(e),
                    },
                    Ok(writable) => {
                        if writable == self.writable {
                            Remount {
                                writable: self.writable,
                                stage: RemountStage::Finished,
                                failure: self.failure,
                            }
                        } else {
                            Remount {
                                writable: self.writable,
                                stage: RemountStage::Mounting,
                                failure: self.failure,
                            }
                        }
                    },
                }
            },
            RemountStage::Mounting => {
                let failure = match reply.into_exit() {
                    Ok(output) => {
                        if output.success {
                            None
                        } else {
                            Some(
                                MountError::RemountFailed(
                                    decode_text_lossy(output.stderr.as_slice()),
                                ),
                            )
                        }
                    },
                    Err(why) => {
                        let mut text = String::from_str("Failed to execute mount: ");
                        text.append(why.as_str());
                        Some(MountError::RemountFailed(text))
                    },
                };
                Remount { writable: self.writable, stage: RemountStage::Finished, failure }
            },
            RemountStage::Finished => self,
        }
    }

    /// How the remount ended; nothing while it still waits.
    pub fn outcome(self) -> (r: Option<Result<(), MountError>>)
        ensures
            match r {
                None => self@.outcome() is None,
                Some(Ok(())) => self@.outcome() == Some(Ok::<(), MountErrorView>(())),
                Some(Err(e)) => self@.outcome() == Some(Err::<(), MountErrorView>(e@)),
            },
    {
        match self.stage {
            RemountStage::Finished => match self.failure {
                Some(e) => Some(Err(e)),
                None => Some(Ok(())),
            },
            _ => None,
        }
    }
}

impl RemountView {
    /// A remount holds a failure only once it has ended.
    pub open spec fn wf(self) -> bool {
        self.stage != RemountStage::Finished ==> self.failure is None
    }
}

/// A remount starts well-formed and stays so, and it has an outcome exactly
/// when it waits for nothing.
pub proof fn law_remount_wf(m: RemountView, writable: bool, reply: ReplyView)
    ensures
        RemountView::start(writable).wf(),
        m.wf() ==> m.resume(reply).wf(),
        m.pending() is None <==> m.outcome() is Some,
{
}

/// A remount of a partition that the mount table shows in the wanted state
/// asks for the table and for nothing else, and succeeds.
pub proof fn law_remount_in_place(writable: bool, table: Seq<char>)
    requires
        boot_writable(Some(table)) == Ok::<bool, MountErrorView>(writable),
    ensures
        RemountView::start(writable).pending() == Some(RequestView::ReadMountTable),
        RemountView::start(writable).resume(ReplyView::Text(table)).pending() is None,
        RemountView::start(writable).resume(ReplyView::Text(table)).outcome() == Some(
            Ok::<(), MountErrorView>(()),
        ),
{
}

} // verus!
