use vstd::prelude::*;
use crate::evernote;

verus! {

/// The header of a converted note: its title and its tags.
pub struct Metadata {
    pub title: String,
    pub tags: Vec<String>,
}

/// A converted note: its header and its body in Markdown.
pub struct Note {
    pub metadata: Metadata,
    pub content: String,
}

/// The YAML text that serde_yaml writes for a mapping of `title` to a string and
/// `tags` to a sequence of strings.
pub uninterp spec fn yaml_of(title: Seq<char>, tags: Seq<Seq<char>>) -> Seq<char>;

/// Relies on `serde_yaml::to_string` over a `serde_yaml::Mapping` that holds
/// `title` and then `tags`: the text depends on the two values alone, and a
/// mapping of strings to strings and sequences of strings is always written (the
/// serializer fails only on bytes, nested enums, a failing writer or malformed
/// events, none of which such a mapping gives).
#[verifier::external_body]
fn metadata_yaml(title: &String, tags: &Vec<String>) -> (r: Result<String, String>)
    ensures
        r is Ok,
        r->Ok_0@ == yaml_of(title@, tags.deep_view()),
{
    let mut m = serde_yaml::Mapping::new();
    m.insert("title".into(), title.clone().into());
    m.insert("tags".into(), tags.clone().into());
    serde_yaml::to_string(&m).map_err(|e| e.to_string())
}

/// The line that parts the header from the body, and the blank line after it.
/// A header that does not end a line gets its line ended first.
pub open spec fn separator_after(header: Seq<char>) -> Seq<char> {
    if header.len() > 0 && header.last() == '\n' {
        seq!['-', '-', '-', '\n', '\n']
    } else {
        seq!['\n', '-', '-', '-', '\n', '\n']
    }
}

/// A document: the header, the separator, then the body as it is.
pub open spec fn document_of(header: Seq<char>, body: Seq<char>) -> Seq<char> {
    header + separator_after(header) + body
}

/// A copy of each tag, in order.
pub fn clone_tags(tags: &Vec<String>) -> (r: Vec<String>)
    ensures
        r.deep_view() == tags.deep_view(),
{
    let mut r: Vec<String> = Vec::new();
    let mut i: usize = 0;
    while i < tags.len()
        invariant
            0 <= i <= tags.len(),
            r@.len() == i,
            forall|j: int| 0 <= j < i ==> #[trigger] r@[j]@ == tags@[j]@,
        decreases tags.len() - i,
    {
        r.push(tags[i].clone());
        i = i + 1;
    }
    assert(r.deep_view() =~= tags.deep_view());
    r
}

impl Metadata {
    /// The header of `note`: its title and its tags.
    pub fn of(note: &evernote::Note) -> (r: Metadata)
        ensures
            r.title@ == note.title@,
            r.tags.deep_view() == note.tags.deep_view(),
    {
        Metadata { title: note.title.clone(), tags: clone_tags(&note.tags) }
    }

    /// The header as YAML.
    pub fn to_yaml(&self) -> (r: Result<String, String>)
        ensures
            r matches Ok(s) && s@ == yaml_of(self.title@, self.tags.deep_view()),
    {
        metadata_yaml(&self.title, &self.tags)
    }
}

impl Note {
    /// The converted form of `note`, with `body` as its Markdown body.
    pub fn new(note: &evernote::Note, body: String) -> (r: Note)
        ensures
            r.metadata.title@ == note.title@,
            r.metadata.tags.deep_view() == note.tags.deep_view(),
            r.content@ == body@,
    {
        Note { metadata: Metadata::of(note), content: body }
    }

    /// The document for this note, given its header as YAML.
    pub fn render_with_header(&self, header: &str) -> (r: String)
        ensures
            r@ == document_of(header@, self.content@),
    {
        let mut r = String::from_str(header);
        let ends_line = header.unicode_len() > 0 && header.get_char(header.unicode_len() - 1) == '\n';
        if ends_line {
            r.append("---\n\n");
        } else {
            r.append("\n---\n\n");
        }
        proof {
            reveal_strlit("---\n\n");
            reveal_strlit("\n---\n\n");
        }
        r.append(self.content.as_str());
        assert(r@ =~= document_of(header@, self.content@));
        r
    }

    /// The document for this note: its header as YAML, the separator, then its
    /// body.
    pub fn render(&self) -> (r: Result<String, String>)
        ensures
            r matches Ok(s) && s@ == document_of(
                yaml_of(self.metadata.title@, self.metadata.tags.deep_view()),
                self.content@,
            ),
    {
        match self.metadata.to_yaml() {
            Ok(header) => Ok(self.render_with_header(header.as_str())),
            Err(e) => Err(e),
        }
    }
}

} // verus!
