//! The command lines of the requests that are carried out by a process.

use crate::host::{strings, Deployment, Request, RequestView, VarEdit, Variable};
use crate::grub::{counter_line, law_counter_reads_back, listed_counter, GrubErrorView};
use crate::text::{decimal, push_decimal};
use vstd::prelude::*;
use vstd::string::StringExecFns;

verus! {

impl Variable {
    /// The key under which the bootloader keeps the variable.
    pub open spec fn key_text(self) -> Seq<char> {
        match self {
            Variable::BootCounter => "boot_counter"@,
            Variable::BootSuccess => "boot_success"@,
            Variable::RollbackTrigger => "greenboot_rollback_trigger"@,
        }
    }

    /// The key under which the bootloader keeps the variable.
    pub fn key(self) -> (r: &'static str)
        ensures
            r@ == self.key_text(),
    {
        match self {
            Variable::BootCounter => "boot_counter",
            Variable::BootSuccess => "boot_success",
            Variable::RollbackTrigger => "greenboot_rollback_trigger",
        }
    }
}

/// The words with which the editor is asked for an edit, after the path of
/// the store: `set` and `key=value`, or `unset` and the key.
pub open spec fn edit_words(edit: VarEdit) -> Seq<Seq<char>> {
    match edit {
        VarEdit::Assign { key, value } => seq![
            "set"@,
            key.key_text() + "="@ + decimal(value as nat),
        ],
        VarEdit::Clear { key } => seq!["unset"@, key.key_text()],
    }
}

/// The command line of a request: the program and its arguments. The store
/// is the path of the bootloader's environment. A request that no process
/// carries out has none.
pub open spec fn command_words(request: RequestView, store: Seq<char>) -> Option<Seq<Seq<char>>> {
    match request {
        RequestView::Remount { writable } => Some(
            seq![
                "mount"@,
                "-o"@,
                if writable {
                    "remount,rw"@
                } else {
                    "remount,bind,ro"@
                },
                "/boot"@,
            ],
        ),
        RequestView::ListVariables => Some(seq!["grub2-editenv"@, store, "list"@]),
        RequestView::EditVariable(edit) => Some(seq!["grub2-editenv"@, store] + edit_words(edit)),
        RequestView::RunScript(path) => Some(seq!["bash"@, "-C"@, path]),
        RequestView::DeploymentStatus => Some(
            seq!["bootc"@, "status"@, "--booted"@, "--json"@],
        ),
        RequestView::Rollback(deployment) => Some(
            seq![
                match deployment {
                    Deployment::Bootc => "bootc"@,
                    Deployment::RpmOstree => "rpm-ostree"@,
                },
                "rollback"@,
            ],
        ),
        RequestView::Reboot => Some(seq!["systemctl"@, "reboot"@]),
        RequestView::PreviousBootJournal => Some(
            seq![
                "journalctl"@,
                "-b"@,
                "-1"@,
                "-u"@,
                "greenboot-rollback.service"@,
                "--no-pager"@,
            ],
        ),
        _ => None,
    }
}

fn push_word(words: &mut Vec<String>, word: &str)
    ensures
        strings(final(words)@) == strings(old(words)@).push(word@),
{
    let owned = String::from_str(word);
    proof {
        assert(strings(words@.push(owned)) =~= strings(words@).push(word@));
    }
    words.push(owned);
}

/// The command line of a request: the program and its arguments.
pub fn command_line(request: &Request, store: &str) -> (r: Option<Vec<String>>)
    ensures
        match r {
            Some(words) => command_words(request@, store@) == Some(strings(words@)),
            None => command_words(request@, store@) is None,
        },
{
    let mut words: Vec<String> = Vec::new();
    proof {
        assert(strings(words@) =~= Seq::<Seq<char>>::empty());
    }
    match request {
        Request::Remount { writable } => {
            push_word(&mut words, "mount");
            push_word(&mut words, "-o");
            if *writable {
                push_word(&mut words, "remount,rw");
            } else {
                push_word(&mut words, "remount,bind,ro");
            }
            push_word(&mut words, "/boot");
        },
        Request::ListVariables => {
            push_word(&mut words, "grub2-editenv");
            push_word(&mut words, store);
            push_word(&mut words, "list");
        },
        Request::EditVariable(edit) => {
            push_word(&mut words, "grub2-editenv");
            push_word(&mut words, store);
            match edit {
                VarEdit::Assign { key, value } => {
                    push_word(&mut words, "set");
                    let mut pair = String::from_str(key.key());
                    pair.append("=");
                    push_decimal(&mut pair, *value as u64);
                    push_word(&mut words, pair.as_str());
                },
                VarEdit::Clear { key } => {
                    push_word(&mut words, "unset");
                    push_word(&mut words, key.key());
                },
            }
        },
        Request::RunScript(path) => {
            push_word(&mut words, "bash");
            push_word(&mut words, "-C");
            push_word(&mut words, path.as_str());
        },
        Request::DeploymentStatus => {
            push_word(&mut words, "bootc");
            push_word(&mut words, "status");
            push_word(&mut words, "--booted");
            push_word(&mut words, "--json");
        },
        Request::Rollback(deployment) => {
            match deployment {
                Deployment::Bootc => push_word(&mut words, "bootc"),
                Deployment::RpmOstree => push_word(&mut words, "rpm-ostree"),
            }
            push_word(&mut words, "rollback");
        },
        Request::Reboot => {
            push_word(&mut words, "systemctl");
            push_word(&mut words, "reboot");
        },
        Request::PreviousBootJournal => {
            push_word(&mut words, "journalctl");
            push_word(&mut words, "-b");
            push_word(&mut words, "-1");
            push_word(&mut words, "-u");
            push_word(&mut words, "greenboot-rollback.service");
            push_word(&mut words, "--no-pager");
        },
        _ => {
            return None;
        },
    }
    proof {
        assert(command_words(request@, store@) is Some);
        assert(strings(words@) =~= command_words(request@, store@)->0);
    }
    Some(words)
}

/// The pair that the editor is given to set the attempt counter is read back
/// as that count from a listing that starts with it.
pub proof fn law_budget_reads_back(value: u16, rest: Seq<char>)
    ensures
        listed_counter(
            edit_words(VarEdit::Assign { key: Variable::BootCounter, value })[1] + seq!['\n']
                + rest,
        ) == Ok::<Option<i32>, GrubErrorView>(Some(value as i32)),
{
    reveal_strlit("boot_counter=");
    reveal_strlit("boot_counter");
    reveal_strlit("=");
    let pair = edit_words(VarEdit::Assign { key: Variable::BootCounter, value })[1];
    assert(pair =~= counter_line(value as int));
    law_counter_reads_back(value as i32, rest);
}

} // verus!
