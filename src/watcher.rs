use vstd::prelude::*;

use crate::entry::{ClipEntry, EntryModel};

verus! {

/// The clipboard could not be read on this tick.
#[derive(Debug, Clone, Copy, PartialEq, Eq)]
pub struct ClipboardUnavailable;

/// Whether `c` has the Unicode White_Space property.
pub open spec fn is_white_space(c: char) -> bool {
    ('\u{9}' <= c <= '\u{d}') || c == ' ' || c == '\u{85}' || c == '\u{a0}' || c == '\u{1680}'
        || ('\u{2000}' <= c <= '\u{200a}') || c == '\u{2028}' || c == '\u{2029}' || c
        == '\u{202f}' || c == '\u{205f}' || c == '\u{3000}'
}

/// The text without its leading white space.
pub open spec fn trim_start(s: Seq<char>) -> Seq<char>
    decreases s.len(),
{
    if s.len() > 0 && is_white_space(s[0]) {
        trim_start(s.drop_first())
    } else {
        s
    }
}

/// The text without its trailing white space.
pub open spec fn trim_end(s: Seq<char>) -> Seq<char>
    decreases s.len(),
{
    if s.len() > 0 && is_white_space(s.last()) {
        trim_end(s.drop_last())
    } else {
        s
    }
}

/// The text with leading and trailing white space removed.
pub open spec fn trimmed(s: Seq<char>) -> Seq<char> {
    trim_end(trim_start(s))
}

/// Relies on `str::trim`: removes the leading and trailing characters that
/// have the Unicode White_Space property.
#[verifier::external_body]
fn trim_text(s: &String) -> (r: String)
    ensures
        r@ == trimmed(s@),
{
    s.trim().to_string()
}

/// Whether a timestamp ends in the UTC offset `+00:00`.
pub open spec fn ends_in_utc_offset(t: Seq<char>) -> bool {
    t.len() >= 6 && t.subrange(t.len() - 6, t.len() as int) == seq!['+', '0', '0', ':', '0', '0']
}

/// Relies on chrono's `From<SystemTime> for DateTime<Utc>`, which also takes
/// times before 1970, and on `DateTime::to_rfc3339`, which writes a UTC time
/// with the offset `+00:00`: the current time in RFC 3339 form.
#[verifier::external_body]
fn utc_now_rfc3339() -> (r: String)
    ensures
        ends_in_utc_offset(r@),
{
    chrono::DateTime::<chrono::Utc>::from(std::time::SystemTime::now()).to_rfc3339()
}

/// What a poll tick read: the raw text, or nothing.
pub open spec fn read_model(read: Result<String, ClipboardUnavailable>) -> Option<Seq<char>> {
    match read {
        Ok(s) => Some(s@),
        Err(_) => None,
    }
}

/// A tick records an entry exactly when it read a raw value that differs from
/// the last raw value seen.
pub open spec fn records(last: Option<Seq<char>>, read: Option<Seq<char>>) -> bool {
    match read {
        Some(raw) => last != Some(raw),
        None => false,
    }
}

/// The last raw value seen after a tick: a read value replaces it, a failed
/// read leaves it.
pub open spec fn next_seen(last: Option<Seq<char>>, read: Option<Seq<char>>) -> Option<Seq<char>> {
    match read {
        Some(raw) => Some(raw),
        None => last,
    }
}

/// The number of entries that two ticks in a row record.
pub open spec fn recorded_count(
    last: Option<Seq<char>>,
    first: Option<Seq<char>>,
    second: Option<Seq<char>>,
) -> nat {
    (if records(last, first) { 1nat } else { 0nat }) + (if records(next_seen(last, first), second) {
        1nat
    } else {
        0nat
    })
}

/// Reading the same raw value on two ticks in a row records one entry at
/// most: one when it differs from what was seen before, none otherwise.
pub proof fn lemma_same_value_twice(last: Option<Seq<char>>, raw: Seq<char>)
    ensures
        recorded_count(last, Some(raw), Some(raw)) == if last == Some(raw) { 0nat } else { 1nat },
        !records(next_seen(last, Some(raw)), Some(raw)),
{
}

/// Detects changes of the clipboard by comparing each raw read with the last
/// raw value seen.
pub struct Watcher {
    last_seen: Option<String>,
}

impl View for Watcher {
    type V = Option<Seq<char>>;

    closed spec fn view(&self) -> Option<Seq<char>> {
        match self.last_seen {
            Some(s) => Some(s@),
            None => None,
        }
    }
}

impl Watcher {
    /// A watcher that has seen nothing yet.
    pub fn new() -> (r: Watcher)
        ensures
            r@ == None::<Seq<char>>,
    {
        Watcher { last_seen: None }
    }

    /// The last raw value seen, if any.
    pub fn last_seen(&self) -> (r: Option<String>)
        ensures
            r matches Some(s) ==> self@ == Some(s@),
            r is None ==> self@ is None,
    {
        match &self.last_seen {
            Some(s) => Some(s.clone()),
            None => None,
        }
    }

    /// Whether `raw` differs from the last raw value seen.
    pub fn is_change(&self, raw: &String) -> (r: bool)
        ensures
            r == (self@ != Some(raw@)),
    {
        match &self.last_seen {
            Some(s) => !(*s == *raw),
            None => true,
        }
    }

    /// Takes a read value `raw` together with its trimmed form and the time
    /// of the read. Where `raw` differs from the last raw value seen, returns
    /// the entry to record, which holds the trimmed form; `raw` becomes the
    /// last value seen either way.
    pub fn observe_trimmed(&mut self, raw: String, trimmed_text: String, timestamp: String) -> (r:
        Option<ClipEntry>)
        ensures
            final(self)@ == Some(raw@),
            r is Some <==> old(self)@ != Some(raw@),
            r matches Some(e) ==> e@ == (EntryModel {
                timestamp: timestamp@,
                content: trimmed_text@,
            }),
    {
        if self.is_change(&raw) {
            self.last_seen = Some(raw);
            Some(ClipEntry::new(timestamp, trimmed_text))
        } else {
            self.last_seen = Some(raw);
            None
        }
    }

    /// One poll tick on what was read from the clipboard, stamped with the
    /// current time. A failed read changes nothing and records nothing.
    pub fn poll(&mut self, read: Result<String, ClipboardUnavailable>) -> (r: Option<ClipEntry>)
        ensures
            final(self)@ == next_seen(old(self)@, read_model(read)),
            r is Some <==> records(old(self)@, read_model(read)),
            r matches Some(e) ==> read matches Ok(raw) && e.content@ == trimmed(raw@),
            r matches Some(e) ==> ends_in_utc_offset(e.timestamp@),
    {
        match read {
            Err(_) => None,
            Ok(raw) => {
                if self.is_change(&raw) {
                    let content = trim_text(&raw);
                    let timestamp = utc_now_rfc3339();
                    self.observe_trimmed(raw, content, timestamp)
                } else {
                    None
                }
            },
        }
    }
}

} // verus!
