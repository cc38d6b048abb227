//! The two commands of the program, and what they read from the outside:
//! the configuration, and the journal of the previous boot.

use crate::host::{strings, Reply, ReplyView};
use crate::text::{
    contains_text, copy_range, decode_text, fields, has_substring, split_fields, texts, to_chars,
    to_text, utf8_text,
};
use vstd::prelude::*;
use vstd::string::StringExecFns;

verus! {

/// A text without the run of `c` that starts it.
pub open spec fn trim_start(s: Seq<char>, c: char) -> Seq<char>
    decreases s.len(),
{
    if s.len() > 0 && s[0] == c {
        trim_start(s.drop_first(), c)
    } else {
        s
    }
}

/// A text without the run of `c` that ends it.
pub open spec fn trim_end(s: Seq<char>, c: char) -> Seq<char>
    decreases s.len(),
{
    if s.len() > 0 && s.last() == c {
        trim_end(s.drop_last(), c)
    } else {
        s
    }
}

/// The words without the double quotes around them, those left out of which
/// nothing remains.
pub open spec fn unquoted(words: Seq<Seq<char>>) -> Seq<Seq<char>>
    decreases words.len(),
{
    if words.len() == 0 {
        Seq::empty()
    } else {
        let before = unquoted(words.drop_last());
        let item = trim_end(trim_start(words.last(), '"'), '"');
        if item.len() > 0 {
            before.push(item)
        } else {
            before
        }
    }
}

/// The items of a list written as a shell array, `( "a" "b" )`: the text must
/// start with `(` and end with `)`; between the parentheses the items are
/// separated by white space, and the double quotes around an item are not part
/// of it. Any other text holds no items.
pub open spec fn bash_array(raw: Seq<char>) -> Seq<Seq<char>> {
    if raw.len() > 0 && raw[0] == '(' && raw.last() == ')' {
        unquoted(fields(trim_end(trim_start(raw, '('), ')')))
    } else {
        Seq::empty()
    }
}

/// The index at which `s` starts once the run of `c` from `from` on is left out.
fn skip_run(s: &Vec<char>, from: usize, to: usize, c: char) -> (i: usize)
    requires
        from <= to <= s.len(),
    ensures
        from <= i <= to,
        trim_start(s@.subrange(from as int, to as int), c) == s@.subrange(i as int, to as int),
{
    let mut i: usize = from;
    while i < to && s[i] == c
        invariant
            from <= i <= to <= s.len(),
            trim_start(s@.subrange(from as int, to as int), c) == trim_start(
                s@.subrange(i as int, to as int),
                c,
            ),
        decreases to - i,
    {
        proof {
            assert(s@.subrange(i as int, to as int).drop_first() =~= s@.subrange(
                i + 1,
                to as int,
            ));
        }
        i = i + 1;
    }
    i
}

/// The index at which `s` ends once the run of `c` up to `to` is left out.
fn drop_run(s: &Vec<char>, from: usize, to: usize, c: char) -> (i: usize)
    requires
        from <= to <= s.len(),
    ensures
        from <= i <= to,
        trim_end(s@.subrange(from as int, to as int), c) == s@.subrange(from as int, i as int),
{
    let mut i: usize = to;
    while i > from && s[i - 1] == c
        invariant
            from <= i <= to <= s.len(),
            trim_end(s@.subrange(from as int, to as int), c) == trim_end(
                s@.subrange(from as int, i as int),
                c,
            ),
        decreases i,
    {
        proof {
            assert(s@.subrange(from as int, i as int).drop_last() =~= s@.subrange(
                from as int,
                i - 1,
            ));
        }
        i = i - 1;
    }
    i
}

/// Reads a list that is written as a shell array.
pub fn parse_bash_array_string(raw_str: &str) -> (r: Vec<String>)
    ensures
        strings(r@) == bash_array(raw_str@),
{
    let chars = to_chars(raw_str);
    let mut out: Vec<String> = Vec::new();
    proof {
        assert(strings(out@) =~= Seq::<Seq<char>>::empty());
    }
    if chars.len() == 0 || chars[0] != '(' || chars[chars.len() - 1] != ')' {
        return out;
    }
    proof {
        assert(chars@.subrange(0, chars@.len() as int) =~= chars@);
    }
    let start = skip_run(&chars, 0, chars.len(), '(');
    let end = drop_run(&chars, start, chars.len(), ')');
    let content = copy_range(&chars, start, end);
    let words = split_fields(&content);
    let mut i: usize = 0;
    proof {
        assert(texts(words@).take(0) =~= Seq::<Seq<char>>::empty());
    }
    while i < words.len()
        invariant
            i <= words.len(),
            strings(out@) == unquoted(texts(words@).take(i as int)),
        decreases words.len() - i,
    {
        let word = &words[i];
        proof {
            let upto = texts(words@).take(i + 1);
            assert(upto.drop_last() =~= texts(words@).take(i as int));
            assert(upto.last() == word@);
            assert(word@.subrange(0, word@.len() as int) =~= word@);
        }
        let from = skip_run(word, 0, word.len(), '"');
        let to = drop_run(word, from, word.len(), '"');
        if to > from {
            let item = to_text(&copy_range(word, from, to));
            proof {
                assert(strings(out@.push(item)) =~= strings(out@).push(item@));
            }
            out.push(item);
        }
        i = i + 1;
    }
    proof {
        assert(texts(words@).take(i as int) =~= texts(words@));
    }
    out
}

/// What the program is configured with.
#[derive(Debug)]
pub struct GreenbootConfig {
    /// The attempt budget that an unhealthy boot is given.
    pub max_reboot: u16,
    /// The names of the health checks that must not run.
    pub disabled_healthchecks: Vec<String>,
}

impl GreenbootConfig {
    /// The configuration that the two settings give: the attempt budget,
    /// cut to sixteen bits, or three where it is not set; and the disable
    /// list as a shell array, or none where it is not set.
    pub fn get_config(max_boot_attempts: Option<i64>, disabled_healthchecks: Option<&str>) -> (r:
        GreenbootConfig)
        ensures
            r.max_reboot == match max_boot_attempts {
                Some(max) => max as u16,
                None => 3u16,
            },
            strings(r.disabled_healthchecks@) == match disabled_healthchecks {
                Some(raw) => bash_array(raw@),
                None => Seq::empty(),
            },
    {
        let max_reboot = match max_boot_attempts {
            Some(max) => #[verifier::truncate]
            (max as u16),
            None => 3u16,
        };
        let disabled = match disabled_healthchecks {
            Some(raw) => parse_bash_array_string(raw),
            None => {
                let none: Vec<String> = Vec::new();
                proof {
                    assert(strings(none@) =~= Seq::<Seq<char>>::empty());
                }
                none
            },
        };
        GreenbootConfig { max_reboot, disabled_healthchecks: disabled }
    }
}

/// The line that a banner starts with after a rollback.
pub open spec fn fallback_notice() -> Seq<char> {
    "FALLBACK BOOT DETECTED! Default bootc deployment has been rolled back.\n"@
}

/// The text of a status message: the message itself, after the notice of a
/// rollback where the previous boot was rolled back.
pub open spec fn motd_message(base_msg: Seq<char>, previous_rollback: bool) -> Seq<char> {
    if previous_rollback {
        fallback_notice() + base_msg
    } else {
        base_msg
    }
}

/// The text of a status message.
pub fn generate_motd_message(base_msg: &str, previous_rollback: bool) -> (r: String)
    ensures
        r@ == motd_message(base_msg@, previous_rollback),
{
    if previous_rollback {
        let mut out = String::from_str(
            "FALLBACK BOOT DETECTED! Default bootc deployment has been rolled back.\n",
        );
        out.append(base_msg);
        out
    } else {
        String::from_str(base_msg)
    }
}

/// Why the journal of the previous boot could not be read.
#[derive(Debug)]
pub enum JournalError {
    /// The journal query did not start.
    NotLaunched(String),
    /// What the query printed is not well-formed UTF-8.
    InvalidText,
}

/// The model of a [`JournalError`].
pub enum JournalErrorView {
    NotLaunched(Seq<char>),
    InvalidText,
}

impl View for JournalError {
    type V = JournalErrorView;

    open spec fn view(&self) -> JournalErrorView {
        match self {
            JournalError::NotLaunched(why) => JournalErrorView::NotLaunched(why@),
            JournalError::InvalidText => JournalErrorView::InvalidText,
        }
    }
}

impl JournalErrorView {
    /// The error in words.
    pub open spec fn message(self) -> Seq<char> {
        match self {
            JournalErrorView::NotLaunched(_) =>
                "Failed to execute journalctl command to check rollback status"@,
            JournalErrorView::InvalidText => "Failed to parse journalctl output as UTF-8"@,
        }
    }
}

impl JournalError {
    /// The error in words.
    pub fn message(&self) -> (r: String)
        ensures
            r@ == self@.message(),
    {
        match self {
            JournalError::NotLaunched(_) => String::from_str(
                "Failed to execute journalctl command to check rollback status",
            ),
            JournalError::InvalidText => String::from_str(
                "Failed to parse journalctl output as UTF-8",
            ),
        }
    }
}

/// Whether the journal shows that the rollback service rolled the system back
/// during the previous boot: the query succeeded, and what it printed holds
/// the words `Rollback successful`. A query that ran without success shows no
/// rollback.
pub open spec fn previous_rollback(journal: ReplyView) -> Result<bool, JournalErrorView> {
    match journal.exit() {
        Err(why) => Err(JournalErrorView::NotLaunched(why)),
        Ok(output) => if !output.success {
            Ok(false)
        } else {
            match utf8_text(output.stdout) {
                None => Err(JournalErrorView::InvalidText),
                Some(text) => Ok(has_substring(text, "Rollback successful"@)),
            }
        },
    }
}

/// Tells from the journal of the previous boot whether the system was rolled
/// back then.
pub fn check_previous_rollback(journal: &Reply) -> (r: Result<bool, JournalError>)
    ensures
        match r {
            Ok(found) => previous_rollback(journal@) == Ok::<bool, JournalErrorView>(found),
            Err(e) => previous_rollback(journal@) == Err::<bool, JournalErrorView>(e@),
        },
{
    match journal {
        Reply::Exited(output) => {
            if !output.success {
                return Ok(false);
            }
            match decode_text(output.stdout.as_slice()) {
                None => Err(JournalError::InvalidText),
                Some(text) => {
                    let chars = to_chars(text);
                    let marker = to_chars("Rollback successful");
                    Ok(contains_text(&chars, &marker))
                },
            }
        },
        Reply::NotLaunched(why) => Err(JournalError::NotLaunched(why.clone())),
        _ => Err(JournalError::NotLaunched(String::new())),
    }
}

} // verus!
