use mdviewer::document::{check_existence, file_path_exists, Document, DocumentBuilder};
use mdviewer::error::{DocumentError, IoFailure, WatchFailureKind};

const EXISTING: &str = "/dev/null";
const ANOTHER: &str = "/";
const MISSING: &str = "/no/such/directory/missing.md";

fn quiet_watcher() -> Result<notify::RecommendedWatcher, notify::Error> {
    notify::recommended_watcher(|_event: Result<notify::Event, notify::Error>| {})
}

fn empty_document() -> Document {
    DocumentBuilder::default().build(quiet_watcher()).unwrap()
}

fn lines(text: &[&str]) -> Result<Vec<String>, IoFailure> {
    Ok(text.iter().map(|line| line.to_string()).collect())
}

#[test]
fn a_found_path_is_accepted() {
    assert!(check_existence(EXISTING, Ok(true)).is_ok());
}

#[test]
fn a_path_not_found_is_refused_by_name() {
    match check_existence(MISSING, Ok(false)) {
        Err(DocumentError::FileNotFound(path)) => assert_eq!(path, MISSING),
        other => panic!("unexpected result: {:?}", other),
    }
}

#[test]
fn a_failed_probe_is_passed_on() {
    match check_existence(EXISTING, Err(IoFailure::new("permission denied".to_string()))) {
        Err(DocumentError::IoError(failure)) => assert_eq!(failure.message, "permission denied"),
        other => panic!("unexpected result: {:?}", other),
    }
}

#[test]
fn an_existing_file_is_found_on_disk() {
    assert!(file_path_exists(EXISTING).is_ok());
    assert!(file_path_exists(ANOTHER).is_ok());
}

#[test]
fn a_missing_file_is_not_found_on_disk() {
    match file_path_exists(MISSING) {
        Err(DocumentError::FileNotFound(path)) => assert_eq!(path, MISSING),
        other => panic!("unexpected result: {:?}", other),
    }
}

#[test]
fn a_missing_file_with_a_name_in_another_script_is_named_as_it_is() {
    match file_path_exists("/存在しない/覚え書き.md") {
        Err(DocumentError::FileNotFound(path)) => assert_eq!(path, "/存在しない/覚え書き.md"),
        other => panic!("unexpected result: {:?}", other),
    }
}

#[test]
fn a_path_that_cannot_be_probed_is_an_io_error() {
    match file_path_exists("bad\0name") {
        Err(DocumentError::IoError(failure)) => assert!(!failure.message.is_empty()),
        other => panic!("unexpected result: {:?}", other),
    }
}

#[test]
fn a_new_builder_has_no_path() {
    assert_eq!(DocumentBuilder::default().file_path(), None);
}

#[test]
fn the_builder_takes_an_existing_path() {
    let builder = DocumentBuilder::default().set_file_path(EXISTING).unwrap();
    assert_eq!(builder.file_path(), Some(EXISTING.to_string()));
}

#[test]
fn the_builder_refuses_a_missing_path() {
    match DocumentBuilder::default().set_file_path(MISSING) {
        Err(DocumentError::FileNotFound(path)) => assert_eq!(path, MISSING),
        other => panic!("unexpected result: {:?}", other.map(|builder| builder.file_path())),
    }
}

#[test]
fn the_builder_follows_the_probe() {
    let found = DocumentBuilder::default().set_probed_path(MISSING, Ok(true)).unwrap();
    assert_eq!(found.file_path(), Some(MISSING.to_string()));
    assert!(matches!(
        DocumentBuilder::default().set_probed_path(EXISTING, Ok(false)),
        Err(DocumentError::FileNotFound(_))
    ));
    assert!(matches!(
        DocumentBuilder::default().set_probed_path(EXISTING, Err(IoFailure::new("x".to_string()))),
        Err(DocumentError::IoError(_))
    ));
}

#[test]
fn a_document_without_a_file_is_built_without_a_watch() {
    let document = empty_document();
    assert_eq!(document.file_path(), None);
    assert!(!document.is_watching());
}

#[test]
fn a_document_with_a_file_is_built_watching() {
    let builder = DocumentBuilder::default().set_file_path(EXISTING).unwrap();
    let document = builder.build(quiet_watcher()).unwrap();
    assert_eq!(document.file_path(), Some(EXISTING.to_string()));
    assert!(document.is_watching());
}

#[test]
fn a_backend_that_cannot_be_created_fails_the_build() {
    let builder = DocumentBuilder::default().set_file_path(EXISTING).unwrap();
    match builder.build(Err(notify::Error::generic("no backend"))) {
        Err(DocumentError::NotifyInitializationFailed(failure)) => {
            assert_eq!(failure.kind, WatchFailureKind::Generic);
            assert_eq!(failure.message, "no backend");
        }
        other => panic!("unexpected result: {:?}", other.map(|document| document.file_path())),
    }
}

#[test]
fn a_refused_first_watch_fails_the_build() {
    let builder = DocumentBuilder::default().set_probed_path(MISSING, Ok(true)).unwrap();
    match builder.build(quiet_watcher()) {
        Err(DocumentError::WatchRegistrationFailed(failure)) => {
            assert_eq!(failure.kind, WatchFailureKind::PathNotFound);
        }
        other => panic!("unexpected result: {:?}", other.map(|document| document.file_path())),
    }
}

#[test]
fn setting_an_existing_path_makes_it_the_active_one() {
    let mut document = empty_document();
    assert!(document.set_file_path(EXISTING).is_ok());
    assert_eq!(document.file_path(), Some(EXISTING.to_string()));
    assert!(document.is_watching());
}

#[test]
fn setting_a_missing_path_changes_nothing() {
    let mut document = empty_document();
    document.set_file_path(EXISTING).unwrap();
    match document.set_file_path(MISSING) {
        Err(DocumentError::FileNotFound(path)) => assert_eq!(path, MISSING),
        other => panic!("unexpected result: {:?}", other),
    }
    assert_eq!(document.file_path(), Some(EXISTING.to_string()));
    assert!(!document.is_watching());
}

#[test]
fn setting_a_missing_path_on_an_empty_document_leaves_it_empty() {
    let mut document = empty_document();
    assert!(matches!(document.set_file_path(MISSING), Err(DocumentError::FileNotFound(_))));
    assert_eq!(document.file_path(), None);
    assert!(!document.is_watching());
}

#[test]
fn the_last_path_set_is_the_active_one() {
    let mut document = empty_document();
    document.set_file_path(EXISTING).unwrap();
    document.set_file_path(ANOTHER).unwrap();
    assert_eq!(document.file_path(), Some(ANOTHER.to_string()));
    assert!(document.is_watching());
    document.set_file_path(EXISTING).unwrap();
    assert_eq!(document.file_path(), Some(EXISTING.to_string()));
}

#[test]
fn a_probed_path_follows_the_probe() {
    let mut document = empty_document();
    assert!(document.set_probed_path(EXISTING, Ok(true)).is_ok());
    assert_eq!(document.file_path(), Some(EXISTING.to_string()));
    assert!(matches!(
        document.set_probed_path(ANOTHER, Ok(false)),
        Err(DocumentError::FileNotFound(_))
    ));
    assert_eq!(document.file_path(), Some(EXISTING.to_string()));
    assert!(!document.is_watching());
    match document.set_probed_path(ANOTHER, Err(IoFailure::new("unreadable".to_string()))) {
        Err(DocumentError::IoError(failure)) => assert_eq!(failure.message, "unreadable"),
        other => panic!("unexpected result: {:?}", other),
    }
    assert_eq!(document.file_path(), Some(EXISTING.to_string()));
}

#[test]
fn a_path_that_vanished_is_kept_without_a_watch() {
    let mut document = empty_document();
    assert!(document.set_probed_path(MISSING, Ok(true)).is_ok());
    assert_eq!(document.file_path(), Some(MISSING.to_string()));
    assert!(!document.is_watching());
    match document.regist_watch() {
        Err(DocumentError::WatchRegistrationFailed(failure)) => {
            assert_eq!(failure.kind, WatchFailureKind::PathNotFound);
            assert!(!failure.message.is_empty());
        }
        other => panic!("unexpected result: {:?}", other),
    }
    assert!(!document.is_watching());
}

#[test]
fn watching_without_a_file_does_nothing() {
    let mut document = empty_document();
    assert!(document.regist_watch().is_ok());
    assert!(!document.is_watching());
    assert!(document.unregist_watch().is_ok());
    assert!(!document.is_watching());
}

#[test]
fn a_watch_can_be_withdrawn_and_taken_up_again() {
    let mut document = empty_document();
    document.set_file_path(EXISTING).unwrap();
    assert!(document.unregist_watch().is_ok());
    assert!(!document.is_watching());
    assert!(document.regist_watch().is_ok());
    assert!(document.is_watching());
    assert!(document.regist_watch().is_ok());
    assert!(document.is_watching());
}

#[test]
fn withdrawing_twice_is_no_error() {
    let mut document = empty_document();
    document.set_file_path(EXISTING).unwrap();
    assert!(document.unregist_watch().is_ok());
    assert!(document.unregist_watch().is_ok());
    assert!(!document.is_watching());
    assert_eq!(document.file_path(), Some(EXISTING.to_string()));
}

#[test]
fn withdrawing_a_watch_that_never_was_is_no_error() {
    let mut document = empty_document();
    document.set_probed_path(MISSING, Ok(true)).unwrap();
    assert!(document.unregist_watch().is_ok());
}

#[test]
fn reading_begins_with_the_watch_withdrawn() {
    let mut document = empty_document();
    assert_eq!(document.begin_read(), None);
    document.set_file_path(EXISTING).unwrap();
    assert_eq!(document.begin_read(), Some(EXISTING.to_string()));
    assert!(!document.is_watching());
    assert_eq!(document.file_path(), Some(EXISTING.to_string()));
}

#[test]
fn without_a_file_the_text_is_empty() {
    let document = empty_document();
    assert_eq!(document.md_contents(lines(&["ignored"])).unwrap(), "");
    assert_eq!(document.md_contents(Err(IoFailure::new("ignored".to_string()))).unwrap(), "");
}

#[test]
fn the_text_is_the_lines_put_back_together() {
    let mut document = empty_document();
    document.set_file_path(EXISTING).unwrap();
    let text = document.md_contents(lines(&["# Title", "", "Some *text*."])).unwrap();
    assert_eq!(text, "# Title\n\nSome *text*.\n");
    assert_eq!(document.md_contents(lines(&[])).unwrap(), "");
}

#[test]
fn a_failed_read_is_an_io_error() {
    let mut document = empty_document();
    document.set_file_path(EXISTING).unwrap();
    match document.md_contents(Err(IoFailure::new("No such file or directory".to_string()))) {
        Err(DocumentError::IoError(failure)) => {
            assert_eq!(failure.message, "No such file or directory")
        }
        other => panic!("unexpected result: {:?}", other),
    }
}

#[test]
fn without_a_file_the_html_is_empty() {
    let mut document = empty_document();
    assert_eq!(document.html_contents(lines(&[])).unwrap(), "");
    assert_eq!(document.html_contents(lines(&["# ignored"])).unwrap(), "");
    assert_eq!(document.file_path(), None);
    assert!(!document.is_watching());
}

#[test]
fn the_html_is_the_rendered_file() {
    let mut document = empty_document();
    document.set_file_path(EXISTING).unwrap();
    assert_eq!(document.begin_read(), Some(EXISTING.to_string()));
    let html = document.html_contents(lines(&["# Title", "", "Some *text*."])).unwrap();
    assert!(html.contains("<h1>Title</h1>"));
    assert!(html.contains("<em>text</em>"));
    assert_eq!(html, "<h1>Title</h1>\n<p>Some <em>text</em>.</p>\n");
    assert!(document.is_watching());
    assert_eq!(document.file_path(), Some(EXISTING.to_string()));
}

#[test]
fn the_watch_is_taken_up_again_after_a_failed_read() {
    let mut document = empty_document();
    document.set_file_path(EXISTING).unwrap();
    document.begin_read();
    assert!(!document.is_watching());
    let result = document.html_contents(Err(IoFailure::new("unreadable".to_string())));
    assert!(matches!(result, Err(DocumentError::IoError(_))));
    assert!(document.is_watching());
}

#[test]
fn a_removed_file_fails_to_render() {
    let mut document = empty_document();
    document.set_probed_path(MISSING, Ok(true)).unwrap();
    assert_eq!(document.begin_read(), Some(MISSING.to_string()));
    let read = Err(IoFailure::new("No such file or directory (os error 2)".to_string()));
    match document.html_contents(read) {
        Err(DocumentError::IoError(failure)) => {
            assert_eq!(failure.message, "No such file or directory (os error 2)")
        }
        other => panic!("unexpected result: {:?}", other),
    }
    assert!(!document.is_watching());
    assert_eq!(document.file_path(), Some(MISSING.to_string()));
}

#[test]
fn clearing_forgets_the_file_and_the_watch() {
    let mut document = empty_document();
    document.set_file_path(EXISTING).unwrap();
    document.clear_file_path();
    assert_eq!(document.file_path(), None);
    assert!(!document.is_watching());
    assert_eq!(document.html_contents(lines(&["# x"])).unwrap(), "");
}
