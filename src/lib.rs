pub mod convert;
pub mod evernote;
pub mod filename;
pub mod markdown;
pub mod report;
