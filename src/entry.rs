use vstd::prelude::*;

verus! {

/// The mathematical value of an entry: its timestamp and its content, as text.
pub struct EntryModel {
    pub timestamp: Seq<char>,
    pub content: Seq<char>,
}

/// One recorded clipboard capture.
#[derive(Debug, PartialEq, Eq)]
pub struct ClipEntry {
    /// When the change was detected, in RFC 3339 form.
    pub timestamp: String,
    /// The clipboard text with surrounding whitespace trimmed.
    pub content: String,
}

impl View for ClipEntry {
    type V = EntryModel;

    open spec fn view(&self) -> EntryModel {
        EntryModel { timestamp: self.timestamp@, content: self.content@ }
    }
}

/// The models of a sequence of entries.
pub open spec fn entries_model(v: Seq<ClipEntry>) -> Seq<EntryModel> {
    v.map_values(|e: ClipEntry| e@)
}

impl ClipEntry {
    pub fn new(timestamp: String, content: String) -> (r: ClipEntry)
        ensures
            r@ == (EntryModel { timestamp: timestamp@, content: content@ }),
    {
        ClipEntry { timestamp, content }
    }

    /// A copy of this entry with the same timestamp and content.
    pub fn duplicate(&self) -> (r: ClipEntry)
        ensures
            r@ == self@,
    {
        ClipEntry { timestamp: self.timestamp.clone(), content: self.content.clone() }
    }
}

} // verus!
