use vstd::prelude::*;

verus! {

/// A note as the export holds it: its title, its body in HTML and its tags, in
/// the order of the export.
pub struct Note {
    pub title: String,
    pub content: String,
    pub tags: Vec<String>,
}

/// The notes of an export, in the order of the export.
pub struct Library {
    pub notes: Vec<Note>,
}

impl Note {
    pub fn new(title: String, content: String, tags: Vec<String>) -> (r: Note)
        ensures
            r.title@ == title@,
            r.content@ == content@,
            r.tags.deep_view() == tags.deep_view(),
    {
        Note { title, content, tags }
    }
}

impl Library {
    pub fn new(notes: Vec<Note>) -> (r: Library)
        ensures
            r.notes@ == notes@,
    {
        Library { notes }
    }
}

} // verus!
