//! The vocabulary between the library and the program that drives it.
//!
//! The library performs no outside work itself. Each operation is a state
//! machine: it names the one piece of outside work it waits for as a
//! [`Request`], and takes what came of it as a [`Reply`]. The driver performs
//! the request and hands the reply back, until the machine has an outcome.

use vstd::prelude::*;

verus! {

/// A variable of the bootloader's environment that this library reads or edits.
#[derive(Clone, Copy, Debug, PartialEq, Eq, Structural)]
pub enum Variable {
    /// The attempts that are left before a rollback is due.
    BootCounter,
    /// The verdict of the last completed health check.
    BootSuccess,
    /// Asks for a rollback whatever the counter says.
    RollbackTrigger,
}

/// One edit of the bootloader's environment: a single key is set or removed.
#[derive(Clone, Copy, Debug, PartialEq, Eq, Structural)]
pub enum VarEdit {
    Assign { key: Variable, value: u16 },
    Clear { key: Variable },
}

/// The deployment manager that a system is run by.
#[derive(Clone, Copy, Debug, PartialEq, Eq, Structural)]
pub enum Deployment {
    Bootc,
    RpmOstree,
}

/// What a process left behind when it ended.
#[derive(Clone, Debug)]
pub struct Output {
    /// Whether the exit status reports success.
    pub success: bool,
    /// The exit status in words, for messages.
    pub status: String,
    pub stdout: Vec<u8>,
    pub stderr: Vec<u8>,
}

/// The model of an [`Output`]: texts by their characters, streams by their bytes.
pub struct OutputView {
    pub success: bool,
    pub status: Seq<char>,
    pub stdout: Seq<u8>,
    pub stderr: Seq<u8>,
}

impl View for Output {
    type V = OutputView;

    open spec fn view(&self) -> OutputView {
        OutputView {
            success: self.success,
            status: self.status@,
            stdout: self.stdout@,
            stderr: self.stderr@,
        }
    }
}

/// A piece of outside work that an operation waits for.
#[derive(Clone, Debug)]
pub enum Request {
    /// Read the system's mount table.
    ReadMountTable,
    /// Remount the boot partition, writable or read-only.
    Remount { writable: bool },
    /// List the variables of the bootloader's environment.
    ListVariables,
    /// Edit one variable of the bootloader's environment.
    EditVariable(VarEdit),
    /// Tell whether the path names a directory.
    IsDirectory(String),
    /// Find the files that match the pattern.
    FindScripts(String),
    /// Run the script at the path, with no arguments, and wait for it.
    RunScript(String),
    /// Ask the deployment manager what is booted.
    DeploymentStatus,
    /// Have the deployment manager roll back.
    Rollback(Deployment),
    /// Restart the system.
    Reboot,
    /// Read what the rollback service logged during the previous boot.
    PreviousBootJournal,
    /// Replace the status banner by the text.
    WriteBanner(String),
}

/// The model of a [`Request`].
pub enum RequestView {
    ReadMountTable,
    Remount { writable: bool },
    ListVariables,
    EditVariable(VarEdit),
    IsDirectory(Seq<char>),
    FindScripts(Seq<char>),
    RunScript(Seq<char>),
    DeploymentStatus,
    Rollback(Deployment),
    Reboot,
    PreviousBootJournal,
    WriteBanner(Seq<char>),
}

impl View for Request {
    type V = RequestView;

    open spec fn view(&self) -> RequestView {
        match self {
            Request::ReadMountTable => RequestView::ReadMountTable,
            Request::Remount { writable } => RequestView::Remount { writable: *writable },
            Request::ListVariables => RequestView::ListVariables,
            Request::EditVariable(edit) => RequestView::EditVariable(*edit),
            Request::IsDirectory(path) => RequestView::IsDirectory(path@),
            Request::FindScripts(pattern) => RequestView::FindScripts(pattern@),
            Request::RunScript(path) => RequestView::RunScript(path@),
            Request::DeploymentStatus => RequestView::DeploymentStatus,
            Request::Rollback(deployment) => RequestView::Rollback(*deployment),
            Request::Reboot => RequestView::Reboot,
            Request::PreviousBootJournal => RequestView::PreviousBootJournal,
            Request::WriteBanner(text) => RequestView::WriteBanner(text@),
        }
    }
}

/// What came of a request.
#[derive(Clone, Debug)]
pub enum Reply {
    /// The contents of the file that was read.
    Text(String),
    /// The file could not be read.
    Unreadable,
    /// The process ran and ended.
    Exited(Output),
    /// The process could not be started; the text says why.
    NotLaunched(String),
    /// The answer to a question.
    Flag(bool),
    /// The paths that were found, in the order of the enumeration.
    Paths(Vec<String>),
    /// The file was written.
    Written,
    /// The file could not be written; the text says why.
    NotWritten(String),
}

/// The model of a [`Reply`].
pub enum ReplyView {
    Text(Seq<char>),
    Unreadable,
    Exited(OutputView),
    NotLaunched(Seq<char>),
    Flag(bool),
    Paths(Seq<Seq<char>>),
    Written,
    NotWritten(Seq<char>),
}

/// The texts that a sequence of strings holds.
pub open spec fn strings(v: Seq<String>) -> Seq<Seq<char>> {
    v.map_values(|s: String| s@)
}

impl View for Reply {
    type V = ReplyView;

    open spec fn view(&self) -> ReplyView {
        match self {
            Reply::Text(text) => ReplyView::Text(text@),
            Reply::Unreadable => ReplyView::Unreadable,
            Reply::Exited(output) => ReplyView::Exited(output@),
            Reply::NotLaunched(why) => ReplyView::NotLaunched(why@),
            Reply::Flag(flag) => ReplyView::Flag(*flag),
            Reply::Paths(paths) => ReplyView::Paths(strings(paths@)),
            Reply::Written => ReplyView::Written,
            Reply::NotWritten(why) => ReplyView::NotWritten(why@),
        }
    }
}

impl ReplyView {
    /// The text that was read; a reply of another kind counts as unreadable.
    pub open spec fn text(self) -> Option<Seq<char>> {
        match self {
            ReplyView::Text(text) => Some(text),
            _ => None,
        }
    }

    /// What the process left behind, or why it did not start; a reply of
    /// another kind counts as a process that did not start, for no stated
    /// reason.
    pub open spec fn exit(self) -> Result<OutputView, Seq<char>> {
        match self {
            ReplyView::Exited(output) => Ok(output),
            ReplyView::NotLaunched(why) => Err(why),
            _ => Err(Seq::empty()),
        }
    }

    /// The answer to a question; a reply of another kind counts as a no.
    pub open spec fn flag(self) -> bool {
        self == ReplyView::Flag(true)
    }

    /// The paths that were found; a reply of another kind counts as none.
    pub open spec fn paths(self) -> Seq<Seq<char>> {
        match self {
            ReplyView::Paths(paths) => paths,
            _ => Seq::empty(),
        }
    }

    /// Why the file was not written, if it was not; a reply of another kind
    /// counts as a failure to write, for no stated reason.
    pub open spec fn write_failure(self) -> Option<Seq<char>> {
        match self {
            ReplyView::Written => None,
            ReplyView::NotWritten(why) => Some(why),
            _ => Some(Seq::empty()),
        }
    }
}

/// The view of a request that may be missing.
pub open spec fn optional_request(request: Option<Request>) -> Option<RequestView> {
    match request {
        Some(request) => Some(request@),
        None => None,
    }
}

impl Reply {
    /// What the process left behind, or why it did not start.
    pub fn into_exit(self) -> (r: Result<Output, String>)
        ensures
            match r {
                Ok(output) => self@.exit() == Ok::<OutputView, Seq<char>>(output@),
                Err(why) => self@.exit() == Err::<OutputView, Seq<char>>(why@),
            },
    {
        match self {
            Reply::Exited(output) => Ok(output),
            Reply::NotLaunched(why) => Err(why),
            _ => Err(String::new()),
        }
    }

    /// The answer to a question.
    pub fn flag(&self) -> (r: bool)
        ensures
            r == self@.flag(),
    {
        match self {
            Reply::Flag(flag) => *flag,
            _ => false,
        }
    }

    /// The paths that were found.
    pub fn into_paths(self) -> (r: Vec<String>)
        ensures
            strings(r@) == self@.paths(),
    {
        match self {
            Reply::Paths(paths) => paths,
            _ => {
                let none: Vec<String> = Vec::new();
                proof {
                    assert(strings(none@) =~= Seq::<Seq<char>>::empty());
                }
                none
            },
        }
    }

    /// Why the file was not written, if it was not.
    pub fn into_write_failure(self) -> (r: Option<String>)
        ensures
            match r {
                Some(why) => self@.write_failure() == Some(why@),
                None => self@.write_failure() is None,
            },
    {
        match self {
            Reply::Written => None,
            Reply::NotWritten(why) => Some(why),
            _ => Some(String::new()),
        }
    }
}

} // verus!
