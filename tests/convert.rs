use evernote2md::convert::{convert_with, prepare_with, transform, Stage};
use evernote2md::evernote::{Library, Note};
use evernote2md::markdown;

fn note(title: &str, content: &str, tags: &[&str]) -> Note {
    Note::new(
        title.to_string(),
        content.to_string(),
        tags.iter().map(|t| t.to_string()).collect(),
    )
}

fn parse_header(doc: &str) -> (String, Vec<String>) {
    let header = doc.split("---\n\n").next().unwrap();
    let m: serde_yaml::Mapping = serde_yaml::from_str(header).unwrap();
    let title = m.get("title").unwrap().as_str().unwrap().to_string();
    let tags = m
        .get("tags")
        .unwrap()
        .as_sequence()
        .unwrap()
        .iter()
        .map(|v| v.as_str().unwrap().to_string())
        .collect();
    (title, tags)
}

#[test]
fn grocery_list_scenario() {
    let n = note("Grocery List: 2024!", "<p>Milk</p>", &["home"]);
    let out = match prepare_with(&n, Ok("Milk\n".to_string())) {
        Ok(o) => o,
        Err(f) => panic!("{}", f.message),
    };
    assert_eq!(out.file_name, "Grocery-List-2024.md");
    assert_eq!(out.title, "Grocery List: 2024!");
    assert!(out.body.ends_with("\n---\n\nMilk\n"));
    let (title, tags) = parse_header(&out.body);
    assert_eq!(title, "Grocery List: 2024!");
    assert_eq!(tags, vec!["home".to_string()]);
}

#[test]
fn header_round_trips() {
    let n = note("Plans: \"Q3\" #1", "", &["work", "a: b", "- dash"]);
    let m = markdown::Note::new(&n, "body".to_string());
    let doc = m.render().unwrap();
    let (title, tags) = parse_header(&doc);
    assert_eq!(title, "Plans: \"Q3\" #1");
    assert_eq!(tags, vec!["work".to_string(), "a: b".to_string(), "- dash".to_string()]);
    assert!(doc.ends_with("---\n\nbody"));
}

#[test]
fn yaml_header_is_written() {
    let n = note("Grocery List: 2024!", "", &["home"]);
    let header = markdown::Metadata::of(&n).to_yaml().unwrap();
    assert!(header.contains("title:"));
    assert!(header.contains("Grocery List: 2024!"));
    assert!(header.contains("home"));
}

#[test]
fn header_with_no_tags_round_trips() {
    let n = note("Untagged", "", &[]);
    let doc = markdown::Note::new(&n, String::new()).render().unwrap();
    let (title, tags) = parse_header(&doc);
    assert_eq!(title, "Untagged");
    assert!(tags.is_empty());
}

#[test]
fn separator_follows_the_header() {
    let n = note("T", "", &[]);
    let m = markdown::Note::new(&n, "text".to_string());
    assert_eq!(m.render_with_header("title: T\n"), "title: T\n---\n\ntext");
    assert_eq!(m.render_with_header("title: T"), "title: T\n---\n\ntext");
    assert_eq!(m.render_with_header(""), "\n---\n\ntext");
}

#[test]
fn transform_failure_names_the_note() {
    let n = note("Broken", "<p>", &[]);
    match prepare_with(&n, Err("engine failed".to_string())) {
        Ok(_) => panic!("expected a failure"),
        Err(f) => {
            assert_eq!(f.title, "Broken");
            assert_eq!(f.stage, Stage::Transform);
            assert_eq!(f.message, "engine failed");
        }
    }
}

#[test]
fn convert_keeps_metadata_and_body() {
    let n = note("Title", "<b>x</b>", &["a", "b"]);
    let m = convert_with(&n, Ok("**x**\n".to_string())).ok().unwrap();
    assert_eq!(m.metadata.title, "Title");
    assert_eq!(m.metadata.tags, vec!["a".to_string(), "b".to_string()]);
    assert_eq!(m.content, "**x**\n");
}

#[test]
fn same_note_twice_gives_the_same_file() {
    let n = note("Twice", "<p>x</p>", &["t"]);
    let a = prepare_with(&n, Ok("x\n".to_string())).ok().unwrap();
    let b = prepare_with(&n, Ok("x\n".to_string())).ok().unwrap();
    assert_eq!(a.file_name, b.file_name);
    assert_eq!(a.body, b.body);
}

#[test]
fn colliding_titles_both_succeed() {
    let a = prepare_with(&note("A/B", "<p>1</p>", &[]), Ok("1\n".to_string())).ok().unwrap();
    let b = prepare_with(&note("A B", "<p>2</p>", &[]), Ok("2\n".to_string())).ok().unwrap();
    assert_eq!(a.file_name, "A-B.md");
    assert_eq!(b.file_name, "A-B.md");
    assert_ne!(a.body, b.body);
}

#[test]
fn pandoc_turns_html_into_markdown() {
    let n = note("Milk", "<p>Milk</p>", &[]);
    match transform(&n) {
        Ok(md) => {
            assert!(md.contains("Milk"));
            assert!(!md.contains("<p>"));
        }
        Err(message) => assert!(!message.is_empty()),
    }
}

#[test]
fn library_keeps_note_order() {
    let lib = Library::new(vec![note("one", "", &[]), note("two", "", &[]), note("three", "", &[])]);
    let titles: Vec<&str> = lib.notes.iter().map(|n| n.title.as_str()).collect();
    assert_eq!(titles, vec!["one", "two", "three"]);
}
