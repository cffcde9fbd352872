use vstd::prelude::*;
use crate::evernote;
use crate::filename::{file_name, file_name_of};
use crate::markdown::{self, document_of, yaml_of};

verus! {

/// The step of a note's conversion at which it failed.
#[derive(Clone, Copy, Debug, PartialEq, Eq, Structural)]
pub enum Stage {
    Transform,
    Serialize,
    Write,
}

/// A note that could not be converted: its title, the step that failed, and the
/// error's message.
pub struct Failure {
    pub title: String,
    pub stage: Stage,
    pub message: String,
}

/// What is to be written for one note: the file's name and its text.
pub struct Output {
    pub title: String,
    pub file_name: String,
    pub body: String,
}

/// Relies on `pandoc::Pandoc::execute`, with HTML handed in through a pipe and
/// Markdown taken from one: with its output set to a pipe and a text format,
/// pandoc returns a buffer (never a file name), or an error, whose message is
/// handed back.
#[verifier::external_body]
fn run_pandoc(html: &String) -> (r: Result<Option<String>, String>)
    ensures
        r matches Ok(o) ==> o is Some,
{
    let mut p = pandoc::Pandoc::new();
    p.set_input_format(pandoc::InputFormat::Html, vec![]).set_output_format(
        pandoc::OutputFormat::Markdown,
        vec![],
    ).set_input(pandoc::InputKind::Pipe(html.clone())).set_output(pandoc::OutputKind::Pipe);
    match p.execute() {
        Ok(pandoc::PandocOutput::ToBuffer(s)) => Ok(Some(s)),
        Ok(_) => Ok(None),
        Err(e) => Err(e.to_string()),
    }
}

/// The body of `note` turned into Markdown by pandoc, or the message of its
/// error.
pub fn transform(note: &evernote::Note) -> (r: Result<String, String>) {
    match run_pandoc(&note.content) {
        Ok(Some(s)) => Ok(s),
        Ok(None) => Err(String::from_str("pandoc wrote to a file")),
        Err(e) => Err(e),
    }
}

/// The converted form of `note`, given what the conversion engine returned for
/// its body: its body in Markdown, or the engine's error message.
pub fn convert_with(note: &evernote::Note, engine: Result<String, String>) -> (r: Result<
    markdown::Note,
    Failure,
>)
    ensures
        match engine {
            Ok(md) => r matches Ok(m) && m.metadata.title@ == note.title@
                && m.metadata.tags.deep_view() == note.tags.deep_view() && m.content@ == md@,
            Err(e) => r matches Err(f) && f.title@ == note.title@ && f.stage == Stage::Transform
                && f.message@ == e@,
        },
{
    match engine {
        Ok(md) => Ok(markdown::Note::new(note, md)),
        Err(e) => Err(Failure { title: note.title.clone(), stage: Stage::Transform, message: e }),
    }
}

/// The converted form of `note`, its body turned into Markdown by pandoc.
pub fn convert(note: &evernote::Note) -> (r: Result<markdown::Note, Failure>)
    ensures
        match r {
            Ok(m) => m.metadata.title@ == note.title@ && m.metadata.tags.deep_view()
                == note.tags.deep_view(),
            Err(f) => f.title@ == note.title@ && f.stage == Stage::Transform,
        },
{
    convert_with(note, transform(note))
}

/// What is to be written for `note`, given what the conversion engine returned
/// for its body: the file named after its title, holding its header, the
/// separator and the Markdown body. An engine error gives a failure that names
/// the note.
pub fn prepare_with(note: &evernote::Note, engine: Result<String, String>) -> (r: Result<
    Output,
    Failure,
>)
    ensures
        match engine {
            Ok(md) => r matches Ok(o) && o.title@ == note.title@ && o.file_name@ == file_name_of(
                note.title@,
            ) && o.body@ == document_of(yaml_of(note.title@, note.tags.deep_view()), md@),
            Err(e) => r matches Err(f) && f.title@ == note.title@ && f.stage == Stage::Transform
                && f.message@ == e@,
        },
{
    match convert_with(note, engine) {
        Ok(m) => match m.render() {
            Ok(body) => Ok(
                Output {
                    title: m.metadata.title.clone(),
                    file_name: file_name(note.title.as_str()),
                    body,
                },
            ),
            Err(e) => Err(Failure { title: note.title.clone(), stage: Stage::Serialize, message: e }),
        },
        Err(f) => Err(f),
    }
}

/// What is to be written for `note`, its body turned into Markdown by pandoc.
pub fn prepare(note: &evernote::Note) -> (r: Result<Output, Failure>)
    ensures
        match r {
            Ok(o) => o.title@ == note.title@ && o.file_name@ == file_name_of(note.title@)
                && exists|md: Seq<char>|
                o.body@ == document_of(yaml_of(note.title@, note.tags.deep_view()), md),
            Err(f) => f.title@ == note.title@ && f.stage == Stage::Transform,
        },
{
    let engine = transform(note);
    let ghost md = match engine {
        Ok(ref s) => s@,
        Err(_) => Seq::empty(),
    };
    let r = prepare_with(note, engine);
    proof {
        if r is Ok {
            assert(r->Ok_0.body@ == document_of(yaml_of(note.title@, note.tags.deep_view()), md));
        }
    }
    r
}

} // verus!
