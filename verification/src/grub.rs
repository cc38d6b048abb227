//! The variables that the bootloader keeps across reboots.
//!
//! The store is read by listing it and is changed one key at a time. Every
//! change is bracketed: the boot partition is made writable, the one edit is
//! attempted, and the partition is made read-only again whatever came of the
//! edit.

use crate::host::{
    optional_request, Reply, ReplyView, Request, RequestView, VarEdit, Variable,
};
use crate::mount::{
    remount_boot_ro, remount_boot_rw, MountError, MountErrorView, Remount, RemountStage,
    RemountView,
};
use crate::text::{
    decode_text, decode_text_lossy, find_char, lines, lossy_text, parse_i32, parse_number,
    position_of, push_signed_decimal, same_text, signed_decimal, split_lines, split_once, texts,
    to_chars, to_text, utf8_text, copy_range, decimal, is_digit, law_decimal_reads_back,
    lemma_find_char_after, lemma_signed_decimal_chars, strip_cr,
};
use vstd::prelude::*;
use vstd::string::StringExecFns;

verus! {

/// Why the bootloader's variables could not be read or changed.
#[derive(Debug)]
pub enum GrubError {
    /// The editor did not start when asked to list the variables.
    ListFailed(String),
    /// What the editor listed is not well-formed UTF-8.
    InvalidListing,
    /// The attempt counter is present, and its value is no 32-bit integer.
    InvalidCounter(String),
    /// The attempt counter already holds a valid value.
    AlreadySet(i32),
    /// The boot partition could not be made writable; nothing was edited.
    RemountReadWrite(MountError),
    /// The boot partition could not be made read-only again after the edit.
    RemountReadOnly(MountError),
    /// The editor did not start when asked to make the edit.
    EditFailed { edit: VarEdit, why: String },
}

/// The model of a [`GrubError`].
pub enum GrubErrorView {
    ListFailed(Seq<char>),
    InvalidListing,
    InvalidCounter(Seq<char>),
    AlreadySet(i32),
    RemountReadWrite(MountErrorView),
    RemountReadOnly(MountErrorView),
    EditFailed { edit: VarEdit, why: Seq<char> },
}

impl View for GrubError {
    type V = GrubErrorView;

    open spec fn view(&self) -> GrubErrorView {
        match self {
            GrubError::ListFailed(why) => GrubErrorView::ListFailed(why@),
            GrubError::InvalidListing => GrubErrorView::InvalidListing,
            GrubError::InvalidCounter(value) => GrubErrorView::InvalidCounter(value@),
            GrubError::AlreadySet(count) => GrubErrorView::AlreadySet(*count),
            GrubError::RemountReadWrite(e) => GrubErrorView::RemountReadWrite(e@),
            GrubError::RemountReadOnly(e) => GrubErrorView::RemountReadOnly(e@),
            GrubError::EditFailed { edit, why } => GrubErrorView::EditFailed {
                edit: *edit,
                why: why@,
            },
        }
    }
}

impl GrubErrorView {
    /// The error in words.
    pub open spec fn message(self) -> Seq<char> {
        match self {
            GrubErrorView::ListFailed(why) => "Unable to list grubenv variables: "@ + why,
            GrubErrorView::InvalidListing => "grubenv listing is not valid UTF-8"@,
            GrubErrorView::InvalidCounter(value) => "boot_counter has invalid value: "@ + value,
            GrubErrorView::AlreadySet(count) => "already set boot_counter="@ + signed_decimal(
                count as int,
            ),
            GrubErrorView::RemountReadWrite(_) => "Failed to remount /boot as rw"@,
            GrubErrorView::RemountReadOnly(_) => "Failed to remount /boot as read-only"@,
            GrubErrorView::EditFailed { edit, why } => match edit {
                VarEdit::Assign { .. } => "Unable to set grubenv"@,
                VarEdit::Clear { .. } => "Unable to clear boot_counter"@,
            },
        }
    }
}

impl GrubError {
    /// The error in words.
    pub fn message(&self) -> (r: String)
        ensures
            r@ == self@.message(),
    {
        match self {
            GrubError::ListFailed(why) => {
                let mut out = String::from_str("Unable to list grubenv variables: ");
                out.append(why.as_str());
                out
            },
            GrubError::InvalidListing => String::from_str("grubenv listing is not valid UTF-8"),
            GrubError::InvalidCounter(value) => {
                let mut out = String::from_str("boot_counter has invalid value: ");
                out.append(value.as_str());
                out
            },
            GrubError::AlreadySet(count) => {
                let mut out = String::from_str("already set boot_counter=");
                push_signed_decimal(&mut out, *count);
                out
            },
            GrubError::RemountReadWrite(_) => String::from_str("Failed to remount /boot as rw"),
            GrubError::RemountReadOnly(_) => String::from_str(
                "Failed to remount /boot as read-only",
            ),
            GrubError::EditFailed { edit, why } => match edit {
                VarEdit::Assign { .. } => String::from_str("Unable to set grubenv"),
                VarEdit::Clear { .. } => String::from_str("Unable to clear boot_counter"),
            },
        }
    }
}

/// The value that a listing gives a key: what follows the first `=` of the
/// first line whose text before that `=` is the key.
pub open spec fn listed_value(listing: Seq<Seq<char>>, key: Seq<char>) -> Option<Seq<char>>
    decreases listing.len(),
{
    if listing.len() == 0 {
        None
    } else {
        match split_once(listing[0], '=') {
            Some((k, v)) => if k == key {
                Some(v)
            } else {
                listed_value(listing.drop_first(), key)
            },
            None => listed_value(listing.drop_first(), key),
        }
    }
}

/// The attempt counter that a listing shows: absent, a number, or a value
/// that is no number.
pub open spec fn listed_counter(listing: Seq<char>) -> Result<Option<i32>, GrubErrorView> {
    match listed_value(lines(listing), "boot_counter"@) {
        None => Ok(None),
        Some(value) => match parse_i32(value) {
            Some(count) => Ok(Some(count)),
            None => Err(GrubErrorView::InvalidCounter(value)),
        },
    }
}

/// The attempt counter that the reply to a listing shows. The editor's exit
/// status is not looked at.
pub open spec fn boot_counter(listing: ReplyView) -> Result<Option<i32>, GrubErrorView> {
    match listing.exit() {
        Err(why) => Err(GrubErrorView::ListFailed(why)),
        Ok(output) => match utf8_text(output.stdout) {
            None => Err(GrubErrorView::InvalidListing),
            Some(text) => listed_counter(text),
        },
    }
}

/// Reads the attempt counter off a listing of the variables.
pub fn counter_in_listing(listing: &str) -> (r: Result<Option<i32>, GrubError>)
    ensures
        match r {
            Ok(count) => listed_counter(listing@) == Ok::<Option<i32>, GrubErrorView>(count),
            Err(e) => listed_counter(listing@) == Err::<Option<i32>, GrubErrorView>(e@),
        },
{
    let chars = to_chars(listing);
    let rows = split_lines(&chars);
    let key = to_chars("boot_counter");
    let mut i: usize = 0;
    proof {
        assert(lines(listing@).skip(0) =~= lines(listing@));
    }
    while i < rows.len()
        invariant
            i <= rows.len(),
            texts(rows@) == lines(listing@),
            key@ == "boot_counter"@,
            listed_value(lines(listing@), key@) == listed_value(
                lines(listing@).skip(i as int),
                key@,
            ),
        decreases rows.len() - i,
    {
        let row = &rows[i];
        let at = position_of(row, '=');
        proof {
            let rest = lines(listing@).skip(i as int);
            assert(rest[0] == row@);
            assert(rest.drop_first() =~= lines(listing@).skip(i + 1));
        }
        if at < row.len() {
            let name = copy_range(row, 0, at);
            proof {
                assert(row@.take(at as int) =~= name@);
            }
            if same_text(&name, &key) {
                let value = copy_range(row, at + 1, row.len());
                proof {
                    assert(row@.skip(at + 1) =~= value@);
                }
                return match parse_number(&value) {
                    Some(count) => Ok(Some(count)),
                    None => Err(GrubError::InvalidCounter(to_text(&value))),
                };
            }
        }
        i = i + 1;
    }
    proof {
        assert(lines(listing@).skip(i as int).len() == 0);
    }
    Ok(None)
}

/// Reads the attempt counter off the reply to a listing of the variables:
/// nothing where the counter is not set.
pub fn get_boot_counter(listing: &Reply) -> (r: Result<Option<i32>, GrubError>)
    ensures
        match r {
            Ok(count) => boot_counter(listing@) == Ok::<Option<i32>, GrubErrorView>(count),
            Err(e) => boot_counter(listing@) == Err::<Option<i32>, GrubErrorView>(e@),
        },
{
    match listing {
        Reply::Exited(output) => match decode_text(output.stdout.as_slice()) {
            None => Err(GrubError::InvalidListing),
            Some(text) => counter_in_listing(text),
        },
        Reply::NotLaunched(why) => Err(GrubError::ListFailed(why.clone())),
        _ => Err(GrubError::ListFailed(String::new())),
    }
}

/// The start of the line that sets the rollback trigger.
pub open spec fn trigger_prefix() -> Seq<char> {
    "greenboot_rollback_trigger="@
}

/// Whether a listing shows the rollback trigger as set: the first line that
/// starts with the trigger's key and `=` decides, by whether the text between
/// that `=` and the next, or the end of the line, is `1`.
pub open spec fn listed_trigger(listing: Seq<Seq<char>>) -> bool
    decreases listing.len(),
{
    if listing.len() == 0 {
        false
    } else if trigger_prefix().is_prefix_of(listing[0]) {
        let rest = listing[0].skip(trigger_prefix().len() as int);
        rest.take(find_char(rest, '=')) == "1"@
    } else {
        listed_trigger(listing.drop_first())
    }
}

/// Whether the reply to a listing shows the rollback trigger as set. The
/// listing is read leniently: ill-formed bytes do not make it unreadable.
pub open spec fn rollback_trigger(listing: ReplyView) -> Result<bool, GrubErrorView> {
    match listing.exit() {
        Err(why) => Err(GrubErrorView::ListFailed(why)),
        Ok(output) => Ok(listed_trigger(lines(lossy_text(output.stdout)))),
    }
}

/// Whether `prefix` starts `s`.
fn starts_with(s: &Vec<char>, prefix: &Vec<char>) -> (r: bool)
    ensures
        r == prefix@.is_prefix_of(s@),
{
    if prefix.len() > s.len() {
        return false;
    }
    let head = copy_range(s, 0, prefix.len());
    let r = same_text(&head, prefix);
    proof {
        assert(head@ == s@.subrange(0, prefix@.len() as int));
        if r {
            assert(prefix@.is_prefix_of(s@));
        } else {
            if prefix@.is_prefix_of(s@) {
                assert(head@ =~= prefix@);
            }
        }
    }
    r
}

/// Reads off a listing of the variables whether the rollback trigger is set.
pub fn trigger_in_listing(listing: &str) -> (r: bool)
    ensures
        r == listed_trigger(lines(listing@)),
{
    let chars = to_chars(listing);
    let rows = split_lines(&chars);
    let prefix = to_chars("greenboot_rollback_trigger=");
    let one = to_chars("1");
    let mut i: usize = 0;
    proof {
        assert(lines(listing@).skip(0) =~= lines(listing@));
    }
    while i < rows.len()
        invariant
            i <= rows.len(),
            texts(rows@) == lines(listing@),
            prefix@ == trigger_prefix(),
            one@ == "1"@,
            listed_trigger(lines(listing@)) == listed_trigger(lines(listing@).skip(i as int)),
        decreases rows.len() - i,
    {
        let row = &rows[i];
        proof {
            let rest = lines(listing@).skip(i as int);
            assert(rest[0] == row@);
            assert(rest.drop_first() =~= lines(listing@).skip(i + 1));
        }
        if starts_with(row, &prefix) {
            let rest = copy_range(row, prefix.len(), row.len());
            let end = position_of(&rest, '=');
            let value = copy_range(&rest, 0, end);
            proof {
                assert(rest@ =~= row@.skip(prefix@.len() as int));
                assert(value@ =~= rest@.take(end as int));
            }
            return same_text(&value, &one);
        }
        i = i + 1;
    }
    proof {
        assert(lines(listing@).skip(i as int).len() == 0);
    }
    false
}

/// Reads off the reply to a listing of the variables whether the rollback
/// trigger is set; a trigger that is not listed is not set.
pub fn get_rollback_trigger(listing: &Reply) -> (r: Result<bool, GrubError>)
    ensures
        match r {
            Ok(flag) => rollback_trigger(listing@) == Ok::<bool, GrubErrorView>(flag),
            Err(e) => rollback_trigger(listing@) == Err::<bool, GrubErrorView>(e@),
        },
{
    match listing {
        Reply::Exited(output) => {
            let text = decode_text_lossy(output.stdout.as_slice());
            Ok(trigger_in_listing(text.as_str()))
        },
        Reply::NotLaunched(why) => Err(GrubError::ListFailed(why.clone())),
        _ => Err(GrubError::ListFailed(String::new())),
    }
}

/// Where an update of the bootloader's variables stands.
#[derive(Clone, Copy, Debug, PartialEq, Eq, Structural)]
pub enum UpdateStage {
    /// Waits for the listing that shows whether the counter is already set.
    Listing,
    /// Makes the boot partition writable.
    Opening,
    /// Waits for the editor.
    Editing,
    /// Makes the boot partition read-only again.
    Closing,
    Finished,
}

/// Makes one edit of the bootloader's variables, or two in a row, each inside
/// its own bracket of remounts.
#[derive(Debug)]
pub struct Update {
    /// The edit that is being made.
    pub edit: VarEdit,
    /// The edit that follows once this one has gone through.
    pub following: Option<VarEdit>,
    pub stage: UpdateStage,
    /// The remount of the bracket that is open.
    pub mount: Remount,
    /// Why the editor did not start, kept until the bracket is closed.
    pub edit_failure: Option<String>,
    /// Why the update failed, once it has.
    pub failure: Option<GrubError>,
}

/// The model of an [`Update`]: the state that the machine is proved to follow.
pub struct UpdateView {
    pub edit: VarEdit,
    pub following: Option<VarEdit>,
    pub stage: UpdateStage,
    pub mount: RemountView,
    pub edit_failure: Option<Seq<char>>,
    pub failure: Option<GrubErrorView>,
}

impl View for Update {
    type V = UpdateView;

    open spec fn view(&self) -> UpdateView {
        UpdateView {
            edit: self.edit,
            following: self.following,
            stage: self.stage,
            mount: self.mount@,
            edit_failure: match self.edit_failure {
                Some(why) => Some(why@),
                None => None,
            },
            failure: match self.failure {
                Some(e) => Some(e@),
                None => None,
            },
        }
    }
}

impl UpdateView {
    /// An update that has asked for nothing yet. A guarded update first looks
    /// whether the attempt counter is already set.
    pub open spec fn start(guarded: bool, edit: VarEdit, following: Option<VarEdit>) -> UpdateView {
        UpdateView {
            edit,
            following,
            stage: if guarded {
                UpdateStage::Listing
            } else {
                UpdateStage::Opening
            },
            mount: RemountView::start(true),
            edit_failure: None,
            failure: None,
        }
    }

    /// The edits that the update makes when nothing fails, in order.
    pub open spec fn plan(self) -> Seq<VarEdit> {
        match self.following {
            Some(next) => seq![self.edit, next],
            None => seq![self.edit],
        }
    }

    /// The update, ended by a failure.
    pub open spec fn fail(self, e: GrubErrorView) -> UpdateView {
        UpdateView { stage: UpdateStage::Finished, failure: Some(e), ..self }
    }

    /// The outside work that the update waits for.
    pub open spec fn pending(self) -> Option<RequestView> {
        match self.stage {
            UpdateStage::Listing => Some(RequestView::ListVariables),
            UpdateStage::Opening => self.mount.pending(),
            UpdateStage::Editing => Some(RequestView::EditVariable(self.edit)),
            UpdateStage::Closing => self.mount.pending(),
            UpdateStage::Finished => None,
        }
    }

    /// The update after the reply to what it waited for.
    ///
    /// A counter that is listed with a valid value ends a guarded update; one
    /// that is absent, or unreadable for any reason, lets it go on. An edit is
    /// attempted only once the partition is writable. After the attempt the
    /// partition is made read-only again before anything else is decided; the
    /// editor's exit status is not looked at.
    pub open spec fn resume(self, reply: ReplyView) -> UpdateView {
        match self.stage {
            UpdateStage::Listing => match boot_counter(reply) {
                Ok(Some(count)) => self.fail(GrubErrorView::AlreadySet(count)),
                _ => UpdateView { stage: UpdateStage::Opening, ..self },
            },
            UpdateStage::Opening => {
                let mount = self.mount.resume(reply);
                match mount.outcome() {
                    None => UpdateView { mount, ..self },
                    Some(Ok(())) => UpdateView {
                        stage: UpdateStage::Editing,
                        mount: RemountView::start(false),
                        ..self
                    },
                    Some(Err(e)) => UpdateView {
                        mount: RemountView::start(false),
                        ..self
                    }.fail(GrubErrorView::RemountReadWrite(e)),
                }
            },
            UpdateStage::Editing => UpdateView {
                stage: UpdateStage::Closing,
                edit_failure: match reply.exit() {
                    Ok(_) => None,
                    Err(why) => Some(why),
                },
                ..self
            },
            UpdateStage::Closing => {
                let mount = self.mount.resume(reply);
                let closed = UpdateView {
                    mount: RemountView::start(true),
                    edit_failure: None,
                    ..self
                };
                match mount.outcome() {
                    None => UpdateView { mount, ..self },
                    Some(restored) => match self.edit_failure {
                        Some(why) => closed.fail(
                            GrubErrorView::EditFailed { edit: self.edit, why },
                        ),
                        None => match restored {
                            Err(e) => closed.fail(GrubErrorView::RemountReadOnly(e)),
                            Ok(()) => match self.following {
                                Some(next) => UpdateView {
                                    edit: next,
                                    following: None,
                                    stage: UpdateStage::Opening,
                                    ..closed
                                },
                                None => UpdateView { stage: UpdateStage::Finished, ..closed },
                            },
                        },
                    },
                }
            },
            UpdateStage::Finished => self,
        }
    }

    /// How the update ended, once it has.
    pub open spec fn outcome(self) -> Option<Result<(), GrubErrorView>> {
        match self.stage {
            UpdateStage::Finished => Some(
                match self.failure {
                    Some(e) => Err(e),
                    None => Ok(()),
                },
            ),
            _ => None,
        }
    }

    /// What holds of every update that was started and resumed: the remount
    /// of an open bracket is the one the stage calls for and still waits, and
    /// a failure is held only at the end.
    pub open spec fn wf(self) -> bool {
        &&& self.stage != UpdateStage::Finished ==> self.failure is None
        &&& self.stage != UpdateStage::Closing ==> self.edit_failure is None
        &&& self.stage == UpdateStage::Listing ==> self.mount == RemountView::start(true)
        &&& self.stage == UpdateStage::Opening ==> self.mount.writable
        &&& self.stage == UpdateStage::Editing ==> self.mount == RemountView::start(false)
        &&& self.stage == UpdateStage::Closing ==> !self.mount.writable
        &&& self.stage == UpdateStage::Opening || self.stage == UpdateStage::Closing
            ==> self.mount.wf() && self.mount.stage != RemountStage::Finished
    }
}

impl Update {
    fn start(guarded: bool, edit: VarEdit, following: Option<VarEdit>) -> (m: Update)
        ensures
            m@ == UpdateView::start(guarded, edit, following),
    {
        Update {
            edit,
            following,
            stage: if guarded {
                UpdateStage::Listing
            } else {
                UpdateStage::Opening
            },
            mount: remount_boot_rw(),
            edit_failure: None,
            failure: None,
        }
    }

    /// The outside work that the update waits for; none once it has ended.
    pub fn pending(&self) -> (r: Option<Request>)
        ensures
            optional_request(r) == self@.pending(),
    {
        match self.stage {
            UpdateStage::Listing => Some(Request::ListVariables),
            UpdateStage::Opening => self.mount.pending(),
            UpdateStage::Editing => Some(Request::EditVariable(self.edit)),
            UpdateStage::Closing => self.mount.pending(),
            UpdateStage::Finished => None,
        }
    }

    /// The update after the reply to the request it waited for.
    pub fn resume(self, reply: Reply) -> (next: Update)
        ensures
            next@ == self@.resume(reply@),
    {
        let Update { edit, following, stage, mount, edit_failure, failure } = self;
        match stage {
            UpdateStage::Listing => match get_boot_counter(&reply) {
                Ok(Some(count)) => Update {
                    edit,
                    following,
                    stage: UpdateStage::Finished,
                    mount,
                    edit_failure,
                    failure: Some(GrubError::AlreadySet(count)),
                },
                _ => Update {
                    edit,
                    following,
                    stage: UpdateStage::Opening,
                    mount,
                    edit_failure,
                    failure,
                },
            },
            UpdateStage::Opening => {
                let mount = mount.resume(reply);
                match mount.stage {
                    RemountStage::Finished => match mount.failure {
                        None => Update {
                            edit,
                            following,
                            stage: UpdateStage::Editing,
                            mount: remount_boot_ro(),
                            edit_failure,
                            failure,
                        },
                        Some(e) => Update {
                            edit,
                            following,
                            stage: UpdateStage::Finished,
                            mount: remount_boot_ro(),
                            edit_failure,
                            failure: Some(GrubError::RemountReadWrite(e)),
                        },
                    },
                    _ => Update { edit, following, stage, mount, edit_failure, failure },
                }
            },
            UpdateStage::Editing => {
                let edit_failure = match reply.into_exit() {
                    Ok(_) => None,
                    Err(why) => Some(why),
                };
                Update {
                    edit,
                    following,
                    stage: UpdateStage::Closing,
                    mount,
                    edit_failure,
                    failure,
                }
            },
            UpdateStage::Closing => {
                let mount = mount.resume(reply);
                match mount.stage {
                    RemountStage::Finished => match edit_failure {
                        Some(why) => Update {
                            edit,
                            following,
                            stage: UpdateStage::Finished,
                            mount: remount_boot_rw(),
                            edit_failure: None,
                            failure: Some(GrubError::EditFailed { edit, why }),
                        },
                        None => match mount.failure {
                            Some(e) => Update {
                                edit,
                                following,
                                stage: UpdateStage::Finished,
                                mount: remount_boot_rw(),
                                edit_failure: None,
                                failure: Some(GrubError::RemountReadOnly(e)),
                            },
                            None => match following {
                                Some(next) => Update {
                                    edit: next,
                                    following: None,
                                    stage: UpdateStage::Opening,
                                    mount: remount_boot_rw(),
                                    edit_failure: None,
                                    failure,
                                },
                                None => Update {
                                    edit,
                                    following,
                                    stage: UpdateStage::Finished,
                                    mount: remount_boot_rw(),
                                    edit_failure: None,
                                    failure,
                                },
                            },
                        },
                    },
                    _ => Update { edit, following, stage, mount, edit_failure, failure },
                }
            },
            UpdateStage::Finished => Update {
                edit,
                following,
                stage,
                mount,
                edit_failure,
                failure,
            },
        }
    }

    /// How the update ended; nothing while it still waits.
    pub fn outcome(self) -> (r: Option<Result<(), GrubError>>)
        ensures
            match r {
                None => self@.outcome() is None,
                Some(Ok(())) => self@.outcome() == Some(Ok::<(), GrubErrorView>(())),
                Some(Err(e)) => self@.outcome() == Some(Err::<(), GrubErrorView>(e@)),
            },
    {
        match self.stage {
            UpdateStage::Finished => match self.failure {
                Some(e) => Some(Err(e)),
                None => Some(Ok(())),
            },
            _ => None,
        }
    }
}

/// Starts to set one variable.
pub fn set_grub_var(key: Variable, value: u16) -> (m: Update)
    ensures
        m@ == UpdateView::start(false, VarEdit::Assign { key, value }, None),
{
    Update::start(false, VarEdit::Assign { key, value }, None)
}

/// Starts to remove one variable.
pub fn unset_grub_var(key: Variable) -> (m: Update)
    ensures
        m@ == UpdateView::start(false, VarEdit::Clear { key }, None),
{
    Update::start(false, VarEdit::Clear { key }, None)
}

/// Starts to give the system an attempt budget. The counter is set only where
/// it does not yet hold a valid value.
pub fn set_boot_counter(reboot_count: u16) -> (m: Update)
    ensures
        m@ == UpdateView::start(
            true,
            VarEdit::Assign { key: Variable::BootCounter, value: reboot_count },
            None,
        ),
{
    Update::start(
        true,
        VarEdit::Assign { key: Variable::BootCounter, value: reboot_count },
        None,
    )
}

/// Starts to record the verdict of a health check. A healthy boot sets the
/// success flag and then removes the attempt counter; an unhealthy one clears
/// the flag and leaves the counter alone.
pub fn set_boot_status(success: bool) -> (m: Update)
    ensures
        m@ == UpdateView::start(
            false,
            VarEdit::Assign {
                key: Variable::BootSuccess,
                value: if success {
                    1u16
                } else {
                    0u16
                },
            },
            if success {
                Some(VarEdit::Clear { key: Variable::BootCounter })
            } else {
                None
            },
        ),
{
    if success {
        Update::start(
            false,
            VarEdit::Assign { key: Variable::BootSuccess, value: 1 },
            Some(VarEdit::Clear { key: Variable::BootCounter }),
        )
    } else {
        Update::start(false, VarEdit::Assign { key: Variable::BootSuccess, value: 0 }, None)
    }
}

/// Starts to remove the attempt counter.
pub fn unset_boot_counter() -> (m: Update)
    ensures
        m@ == UpdateView::start(false, VarEdit::Clear { key: Variable::BootCounter }, None),
{
    unset_grub_var(Variable::BootCounter)
}

/// Starts to set the rollback trigger.
pub fn set_rollback_trigger() -> (m: Update)
    ensures
        m@ == UpdateView::start(
            false,
            VarEdit::Assign { key: Variable::RollbackTrigger, value: 1 },
            None,
        ),
{
    set_grub_var(Variable::RollbackTrigger, 1)
}

/// Starts to remove the rollback trigger.
pub fn unset_rollback_trigger() -> (m: Update)
    ensures
        m@ == UpdateView::start(false, VarEdit::Clear { key: Variable::RollbackTrigger }, None),
{
    unset_grub_var(Variable::RollbackTrigger)
}

/// An update starts well-formed and stays so, and a well-formed update has an
/// outcome exactly when it waits for nothing.
pub proof fn law_update_wf(
    m: UpdateView,
    guarded: bool,
    edit: VarEdit,
    following: Option<VarEdit>,
    reply: ReplyView,
)
    ensures
        UpdateView::start(guarded, edit, following).wf(),
        m.wf() ==> m.resume(reply).wf(),
        m.wf() ==> (m.pending() is None <==> m.outcome() is Some),
{
}

/// Whatever comes of the editor, the update next restores the read-only
/// mount: it reads the mount table again, and has no outcome before that.
pub proof fn law_edit_is_closed(m: UpdateView, reply: ReplyView)
    requires
        m.wf(),
        m.stage == UpdateStage::Editing,
    ensures
        m.pending() == Some(RequestView::EditVariable(m.edit)),
        m.resume(reply).stage == UpdateStage::Closing,
        m.resume(reply).pending() == Some(RequestView::ReadMountTable),
        m.resume(reply).outcome() is None,
{
}

/// The editor is asked for an edit only from the stage that follows a
/// remount to writable that succeeded.
pub proof fn law_edit_needs_writable(m: UpdateView, reply: ReplyView)
    requires
        m.wf(),
        m.stage != UpdateStage::Editing,
        m.resume(reply).stage == UpdateStage::Editing,
    ensures
        m.stage == UpdateStage::Opening,
        m.mount.writable,
        m.mount.resume(reply).outcome() == Some(Ok::<(), MountErrorView>(())),
{
}

/// Whether the reply shows a mount table with the boot partition in the given
/// state.
pub open spec fn shows_mounted(reply: ReplyView, writable: bool) -> bool {
    crate::mount::boot_writable(reply.text()) == Ok::<bool, MountErrorView>(writable)
}

/// Whether the reply is that of a process that ran and reported success.
pub open spec fn succeeded(reply: ReplyView) -> bool {
    match reply.exit() {
        Ok(output) => output.success,
        Err(_) => false,
    }
}

/// One bracket where nothing fails: the partition is found read-only and made
/// writable, the editor runs, the partition is found writable and made
/// read-only. The update asks for exactly these five things in this order, and
/// then goes on to the edit that follows or ends with success.
pub proof fn law_bracket(
    m: UpdateView,
    table_before: ReplyView,
    opened: ReplyView,
    edited: ReplyView,
    table_after: ReplyView,
    closed: ReplyView,
)
    requires
        m.stage == UpdateStage::Opening,
        m.mount == RemountView::start(true),
        m.failure is None,
        m.edit_failure is None,
        shows_mounted(table_before, false),
        succeeded(opened),
        edited.exit() is Ok,
        shows_mounted(table_after, true),
        succeeded(closed),
    ensures
        m.pending() == Some(RequestView::ReadMountTable),
        m.resume(table_before).pending() == Some(RequestView::Remount { writable: true }),
        m.resume(table_before).resume(opened).pending() == Some(
            RequestView::EditVariable(m.edit),
        ),
        m.resume(table_before).resume(opened).resume(edited).pending() == Some(
            RequestView::ReadMountTable,
        ),
        m.resume(table_before).resume(opened).resume(edited).resume(table_after).pending()
            == Some(RequestView::Remount { writable: false }),
        m.resume(table_before).resume(opened).resume(edited).resume(table_after).resume(closed)
            == match m.following {
            Some(next) => UpdateView { edit: next, following: None, ..m },
            None => UpdateView { stage: UpdateStage::Finished, ..m },
        },
{
}

/// An attempt budget is refused where the counter already holds a valid
/// value: the update ends at once and asks for no edit. Where the counter is
/// absent or cannot be read as a number, the update goes on exactly as an
/// unconditional setting of the counter does.
pub proof fn law_attempt_budget(reboot_count: u16, listing: ReplyView)
    ensures
        ({
            let edit = VarEdit::Assign { key: Variable::BootCounter, value: reboot_count };
            let m = UpdateView::start(true, edit, None);
            &&& m.pending() == Some(RequestView::ListVariables)
            &&& match boot_counter(listing) {
                Ok(Some(count)) => {
                    &&& m.resume(listing).pending() is None
                    &&& m.resume(listing).outcome() == Some(
                        Err::<(), GrubErrorView>(GrubErrorView::AlreadySet(count)),
                    )
                },
                _ => m.resume(listing) == UpdateView::start(false, edit, None),
            }
        }),
{
}

/// The bootloader's variables after the editor has made one edit of them.
pub open spec fn store_after(store: Map<Variable, Seq<char>>, edit: VarEdit) -> Map<
    Variable,
    Seq<char>,
> {
    match edit {
        VarEdit::Assign { key, value } => store.insert(key, decimal(value as nat)),
        VarEdit::Clear { key } => store.remove(key),
    }
}

/// The bootloader's variables after a row of edits.
pub open spec fn store_after_all(store: Map<Variable, Seq<char>>, edits: Seq<VarEdit>) -> Map<
    Variable,
    Seq<char>,
>
    decreases edits.len(),
{
    if edits.len() == 0 {
        store
    } else {
        store_after_all(store_after(store, edits[0]), edits.drop_first())
    }
}

/// Recording a healthy boot leaves the attempt counter absent and the success
/// flag at one, whatever the variables held before.
pub proof fn law_healthy_boot_clears_counter(store: Map<Variable, Seq<char>>)
    ensures
        ({
            let m = UpdateView::start(
                false,
                VarEdit::Assign { key: Variable::BootSuccess, value: 1 },
                Some(VarEdit::Clear { key: Variable::BootCounter }),
            );
            let after = store_after_all(store, m.plan());
            &&& !after.contains_key(Variable::BootCounter)
            &&& after.contains_key(Variable::BootSuccess)
            &&& after[Variable::BootSuccess] == decimal(1)
        }),
{
    let first = VarEdit::Assign { key: Variable::BootSuccess, value: 1 };
    let second = VarEdit::Clear { key: Variable::BootCounter };
    let edits = seq![first, second];
    assert(edits.drop_first() =~= seq![second]);
    assert(seq![second].drop_first() =~= Seq::<VarEdit>::empty());
    reveal_with_fuel(store_after_all, 3);
}

/// Recording an unhealthy boot clears the success flag and leaves every other
/// variable, the attempt counter among them, as it was.
pub proof fn law_unhealthy_boot_keeps_counter(store: Map<Variable, Seq<char>>)
    ensures
        ({
            let m = UpdateView::start(
                false,
                VarEdit::Assign { key: Variable::BootSuccess, value: 0 },
                None,
            );
            let after = store_after_all(store, m.plan());
            &&& after[Variable::BootSuccess] == decimal(0)
            &&& after.contains_key(Variable::BootCounter) == store.contains_key(
                Variable::BootCounter,
            )
            &&& store.contains_key(Variable::BootCounter) ==> after[Variable::BootCounter]
                == store[Variable::BootCounter]
        }),
{
    let first = VarEdit::Assign { key: Variable::BootSuccess, value: 0 };
    assert(seq![first].drop_first() =~= Seq::<VarEdit>::empty());
    reveal_with_fuel(store_after_all, 2);
}

impl UpdateView {
    /// The update after a row of replies, each taken in its turn.
    pub open spec fn run(self, replies: Seq<ReplyView>) -> UpdateView
        decreases replies.len(),
    {
        if replies.len() == 0 {
            self
        } else {
            self.resume(replies[0]).run(replies.drop_first())
        }
    }
}

/// Whether the five replies from `at` on are those of a bracket in which
/// nothing fails.
pub open spec fn bracket_goes_through(replies: Seq<ReplyView>, at: int) -> bool {
    &&& 0 <= at && at + 5 <= replies.len()
    &&& shows_mounted(replies[at], false)
    &&& succeeded(replies[at + 1])
    &&& replies[at + 2].exit() is Ok
    &&& shows_mounted(replies[at + 3], true)
    &&& succeeded(replies[at + 4])
}

proof fn lemma_run_split(m: UpdateView, replies: Seq<ReplyView>, k: int)
    requires
        0 <= k <= replies.len(),
    ensures
        m.run(replies) == m.run(replies.take(k)).run(replies.skip(k)),
    decreases k,
{
    if k == 0 {
        assert(replies.take(0) =~= Seq::<ReplyView>::empty());
        assert(replies.skip(0) =~= replies);
    } else {
        let rest = replies.drop_first();
        lemma_run_split(m.resume(replies[0]), rest, k - 1);
        assert(replies.take(k).drop_first() =~= rest.take(k - 1));
        assert(replies.skip(k) =~= rest.skip(k - 1));
        assert(replies.take(k)[0] == replies[0]);
    }
}

proof fn lemma_run_five(m: UpdateView, r: Seq<ReplyView>)
    requires
        r.len() == 5,
    ensures
        m.run(r) == m.resume(r[0]).resume(r[1]).resume(r[2]).resume(r[3]).resume(r[4]),
        m.run(r.take(2)) == m.resume(r[0]).resume(r[1]),
{
    reveal_with_fuel(UpdateView::run, 6);
    let r1 = r.drop_first();
    let r2 = r1.drop_first();
    let r3 = r2.drop_first();
    let r4 = r3.drop_first();
    assert(r4.drop_first().len() == 0);
    let t = r.take(2);
    assert(t.drop_first().drop_first().len() == 0);
    assert(t[0] == r[0] && t.drop_first()[0] == r[1]);
}

/// Where nothing fails, an update makes the edits of its plan, in order and
/// each inside its own bracket, and ends with success.
pub proof fn law_update_makes_its_plan(first: VarEdit, second: VarEdit, replies: Seq<ReplyView>)
    requires
        replies.len() == 10,
        bracket_goes_through(replies, 0),
        bracket_goes_through(replies, 5),
    ensures
        ({
            let m = UpdateView::start(false, first, Some(second));
            &&& m.plan() == seq![first, second]
            &&& m.run(replies.take(2)).pending() == Some(RequestView::EditVariable(first))
            &&& m.run(replies.take(7)).pending() == Some(RequestView::EditVariable(second))
            &&& m.run(replies).pending() is None
            &&& m.run(replies).outcome() == Some(Ok::<(), GrubErrorView>(()))
        }),
{
    let m = UpdateView::start(false, first, Some(second));
    let a = replies.take(5);
    let b = replies.skip(5);
    law_bracket(m, a[0], a[1], a[2], a[3], a[4]);
    lemma_run_five(m, a);
    let mid = m.run(a);
    assert(mid == UpdateView { edit: second, following: None, ..m });
    law_bracket(mid, b[0], b[1], b[2], b[3], b[4]);
    lemma_run_five(mid, b);
    lemma_run_split(m, replies, 5);
    assert(a.take(2) =~= replies.take(2));
    lemma_run_split(m, replies.take(7), 5);
    assert(replies.take(7).take(5) =~= a);
    assert(replies.take(7).skip(5) =~= b.take(2));
}

/// The line with which a listing shows the attempt counter at a value.
pub open spec fn counter_line(count: int) -> Seq<char> {
    "boot_counter="@ + signed_decimal(count)
}

/// A listing that starts with the line of the attempt counter is read as that
/// count, whatever follows the line: what is written for the counter is what
/// is read back.
pub proof fn law_counter_reads_back(count: i32, rest: Seq<char>)
    ensures
        listed_counter(counter_line(count as int) + seq!['\n'] + rest) == Ok::<
            Option<i32>,
            GrubErrorView,
        >(Some(count)),
{
    reveal_strlit("boot_counter=");
    reveal_strlit("boot_counter");
    let key = "boot_counter"@;
    let value = signed_decimal(count as int);
    let line = counter_line(count as int);
    let tail = seq!['\n'] + rest;
    let text = line + seq!['\n'] + rest;
    assert(text =~= line + tail);
    // The line holds no line feed, so it is the first line of the listing.
    lemma_signed_decimal_chars(count as int, '\n');
    assert forall|i: int| 0 <= i < line.len() implies line[i] != '\n' by {
        if i >= 13 {
            assert(line[i] == value[i - 13]);
        }
    }
    lemma_find_char_after(line, tail, '\n');
    assert(tail[0] == '\n');
    assert(find_char(tail, '\n') == 0);
    assert(find_char(text, '\n') == line.len());
    assert(text.take(line.len() as int) =~= line);
    // It ends in a digit, so nothing is stripped from it.
    lemma_signed_decimal_chars(count as int, '\r');
    assert(line.last() == value.last());
    assert(strip_cr(line) == line);
    assert(lines(text)[0] == line);
    // Its first `=` is the one behind the key.
    assert("boot_counter="@ =~= key + seq!['=']);
    let after = seq!['='] + value;
    assert(line =~= key + after);
    assert forall|i: int| 0 <= i < key.len() implies key[i] != '=' by {}
    lemma_find_char_after(key, after, '=');
    assert(after[0] == '=');
    assert(find_char(after, '=') == 0);
    assert(find_char(line, '=') == 12);
    assert(line.take(12) =~= key);
    assert(line.skip(13) =~= value);
    assert(split_once(line, '=') == Some((key, value)));
    assert(listed_value(lines(text), key) == Some(value));
    law_decimal_reads_back(count);
}

/// An update with a result came to it in one of four ways: the counter was
/// found set, the partition could not be made writable, or a bracket was
/// closed; and it succeeded only if the last bracket was closed, with the
/// editor started and the partition read-only again.
pub proof fn law_update_ends(m: UpdateView, reply: ReplyView)
    requires
        m.wf(),
        m.stage != UpdateStage::Finished,
        m.resume(reply).stage == UpdateStage::Finished,
    ensures
        m.stage == UpdateStage::Listing || m.stage == UpdateStage::Opening || m.stage
            == UpdateStage::Closing,
        m.resume(reply).outcome() == Some(Ok::<(), GrubErrorView>(())) ==> m.stage
            == UpdateStage::Closing && m.edit_failure is None && m.following is None
            && m.mount.resume(reply).outcome() == Some(Ok::<(), MountErrorView>(())),
{
}

} // verus!
