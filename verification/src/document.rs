//! The document on display: its file, its watch, and its rendered content.

use crate::error::{text_view, unit_view, DocumentError, ErrorView, IoFailure};
use crate::text::{join_lines, joined_lines, line_texts, markdown_html, render_html};
use crate::watch::{
    backend_unwatch,
    backend_watch,
    failure_of,
    settle_registration,
    settle_unregistration,
};
use vstd::prelude::*;
use vstd::string::StringExecFns;

verus! {

/// The outcome of validating `path`, given what probing the file system for
/// it gave: a path that exists is accepted, one that does not is refused by
/// name, and a probe that failed is passed on.
pub open spec fn existence_result(path: Seq<char>, probe: Result<bool, IoFailure>) -> Result<
    (),
    ErrorView,
> {
    match probe {
        Ok(true) => Ok(()),
        Ok(false) => Err(ErrorView::FileNotFound(path)),
        Err(failure) => Err(ErrorView::IoError(failure.message@)),
    }
}

/// The active path after an attempt to replace `before` by `path`: the new
/// path if it was found to exist, else the one before.
pub open spec fn path_after_set(
    before: Option<Seq<char>>,
    path: Seq<char>,
    probe: Result<bool, IoFailure>,
) -> Option<Seq<char>> {
    if probe == Ok::<bool, IoFailure>(true) {
        Some(path)
    } else {
        before
    }
}

/// The text of the document, given what reading its file gave: empty while no
/// file is active, the rejoined lines of the file otherwise, and the failure
/// of the read if it failed.
pub open spec fn text_result(path: Option<Seq<char>>, read: Result<Vec<String>, IoFailure>) -> Result<
    Seq<char>,
    ErrorView,
> {
    match path {
        None => Ok(Seq::empty()),
        Some(_) => match read {
            Ok(lines) => Ok(joined_lines(line_texts(lines@))),
            Err(failure) => Err(ErrorView::IoError(failure.message@)),
        },
    }
}

/// The HTML of the document, given what reading its file gave.
pub open spec fn html_result(path: Option<Seq<char>>, read: Result<Vec<String>, IoFailure>) -> Result<
    Seq<char>,
    ErrorView,
> {
    match text_result(path, read) {
        Ok(text) => Ok(markdown_html(text)),
        Err(error) => Err(error),
    }
}

/// Calls `std::path::Path::try_exists` and keeps the text of an error.
///
/// Nothing is promised of the answer: it depends on what is on disk.
#[verifier::external_body]
fn probe_path(path: &str) -> (probe: Result<bool, IoFailure>) {
    match std::path::Path::new(path).try_exists() {
        Ok(found) => Ok(found),
        Err(error) => Err(IoFailure { message: error.to_string() }),
    }
}

/// Validates `path` against the answer of a probe for it.
pub fn check_existence(path: &str, probe: Result<bool, IoFailure>) -> (result: Result<
    (),
    DocumentError,
>)
    ensures
        unit_view(result) == existence_result(path@, probe),
{
    match probe {
        Ok(found) => {
            if !found {
                Err(DocumentError::FileNotFound(String::from_str(path)))
            } else {
                Ok(())
            }
        },
        Err(failure) => Err(DocumentError::IoError(failure)),
    }
}

/// Checks that a file exists at `path`.
///
/// Whether it does is for the file system to say; whatever it says, an error
/// is either `FileNotFound` with this very path or an `IoError`.
pub fn file_path_exists(path: &str) -> (result: Result<(), DocumentError>)
    ensures
        result matches Err(error) ==> error@ == ErrorView::FileNotFound(path@)
            || error@ is IoError,
{
    let probe = probe_path(path);
    check_existence(path, probe)
}

/// What a [`Document`] is, seen from outside: the active path, if any, and
/// whether the document holds a watch on it.
pub struct DocumentView {
    pub path: Option<Seq<char>>,
    pub watching: bool,
}

impl DocumentView {
    /// A watch is never held without a file to watch.
    pub open spec fn wf(self) -> bool {
        self.watching ==> self.path is Some
    }
}

/// The active path together with the record of the watch on it.
struct Tracking {
    file_path: Option<String>,
    watching: bool,
}

impl Tracking {
    #[verifier::type_invariant]
    spec fn consistent(self) -> bool {
        self.watching ==> self.file_path is Some
    }

    spec fn view(self) -> DocumentView {
        DocumentView {
            path: match self.file_path {
                Some(path) => Some(path@),
                None => None,
            },
            watching: self.watching,
        }
    }
}

/// The document on display.
///
/// At most one file is active, and at most one watch is held, always on the
/// active file. Whether a watch is held is the document's own record of its
/// requests: it is set when the backend accepted a watch on the active path,
/// and cleared as soon as the document asks for the watch to be withdrawn.
pub struct Document {
    tracking: Tracking,
    watcher: notify::RecommendedWatcher,
}

impl View for Document {
    type V = DocumentView;

    closed spec fn view(&self) -> DocumentView {
        self.tracking.view()
    }
}

impl Document {
    /// The active path, if any.
    pub fn file_path(&self) -> (path: Option<String>)
        ensures
            self@.wf(),
            match path {
                Some(text) => self@.path == Some(text@),
                None => self@.path is None,
            },
    {
        proof {
            use_type_invariant(&self.tracking);
        }
        match &self.tracking.file_path {
            Some(path) => Some(path.clone()),
            None => None,
        }
    }

    /// Whether the document holds a watch on its file.
    pub fn is_watching(&self) -> (watching: bool)
        ensures
            self@.wf(),
            watching == self@.watching,
    {
        proof {
            use_type_invariant(&self.tracking);
        }
        self.tracking.watching
    }

    /// Asks the backend to watch the active file. Without an active file this
    /// does nothing and succeeds.
    ///
    /// Whether the backend accepts is for it to say. If it does, the document
    /// holds the watch; if it refuses, the document holds none and the refusal
    /// is returned.
    pub fn regist_watch(&mut self) -> (result: Result<(), DocumentError>)
        ensures
            final(self)@.wf(),
            final(self)@.path == old(self)@.path,
            old(self)@.path is None ==> result is Ok && final(self)@ == old(self)@,
            final(self)@.watching == (result is Ok && old(self)@.path is Some),
            result matches Err(error) ==> error@ is WatchRegistrationFailed,
    {
        proof {
            use_type_invariant(&self.tracking);
        }
        match &self.tracking.file_path {
            None => Ok(()),
            Some(path) => {
                let outcome = match backend_watch(&mut self.watcher, path.as_str()) {
                    Ok(()) => Ok(()),
                    Err(error) => Err(failure_of(&error)),
                };
                let result = settle_registration(outcome);
                self.tracking.watching = result.is_ok();
                result
            },
        }
    }

    /// Asks the backend to stop watching the active file. Without an active
    /// file this does nothing and succeeds.
    ///
    /// The document gives the watch up whatever the backend answers. That the
    /// backend was not watching the file is no error; any other refusal is
    /// returned.
    pub fn unregist_watch(&mut self) -> (result: Result<(), DocumentError>)
        ensures
            final(self)@.path == old(self)@.path,
            !final(self)@.watching,
            old(self)@.path is None ==> result is Ok,
            result matches Err(error) ==> (error@ matches ErrorView::WatchRegistrationFailed(
                failure,
            ) && failure.kind != crate::error::WatchFailureKind::WatchNotFound),
    {
        proof {
            use_type_invariant(&self.tracking);
        }
        match &self.tracking.file_path {
            None => Ok(()),
            Some(path) => {
                let outcome = match backend_unwatch(&mut self.watcher, path.as_str()) {
                    Ok(()) => Ok(()),
                    Err(error) => Err(failure_of(&error)),
                };
                self.tracking.watching = false;
                settle_unregistration(outcome)
            },
        }
    }

    /// Withdraws the watch before the file is read, so that the read itself
    /// raises no change event, and hands out the path to read. A refusal of
    /// the backend is not reported: the content can be served without a watch.
    pub fn begin_read(&mut self) -> (target: Option<String>)
        ensures
            final(self)@.path == old(self)@.path,
            !final(self)@.watching,
            match target {
                Some(path) => old(self)@.path == Some(path@),
                None => old(self)@.path is None,
            },
    {
        let _ = self.unregist_watch();
        self.file_path()
    }

    /// The Markdown text of the document, given what reading the active file
    /// line by line gave. While no file is active the text is empty and `read`
    /// is not looked at.
    pub fn md_contents(&self, read: Result<Vec<String>, IoFailure>) -> (result: Result<
        String,
        DocumentError,
    >)
        ensures
            text_view(result) == text_result(self@.path, read),
    {
        match &self.tracking.file_path {
            None => Ok(String::new()),
            Some(_) => match read {
                Ok(lines) => Ok(join_lines(&lines)),
                Err(failure) => Err(DocumentError::IoError(failure)),
            },
        }
    }

    /// The document as HTML, given what reading the active file gave, and the
    /// watch taken up again whether or not there is anything to show. A
    /// refusal of the backend to watch is not reported.
    pub fn html_contents(&mut self, read: Result<Vec<String>, IoFailure>) -> (result: Result<
        String,
        DocumentError,
    >)
        ensures
            final(self)@.wf(),
            final(self)@.path == old(self)@.path,
            text_view(result) == html_result(old(self)@.path, read),
            old(self)@.path is None ==> final(self)@ == old(self)@,
            old(self)@.path is None ==> (result matches Ok(html) && html@.len() == 0),
    {
        let rendered = match self.md_contents(read) {
            Ok(text) => Ok(render_html(text.as_str())),
            Err(error) => Err(error),
        };
        let _ = self.regist_watch();
        rendered
    }

    /// Stores `path` if the probe found a file there, and watches it.
    fn store_path(&mut self, path: &str, probe: Result<bool, IoFailure>) -> (result: Result<
        (),
        DocumentError,
    >)
        requires
            !old(self)@.watching,
        ensures
            final(self)@.wf(),
            unit_view(result) == existence_result(path@, probe),
            final(self)@.path == path_after_set(old(self)@.path, path@, probe),
            result is Err ==> !final(self)@.watching,
    {
        match check_existence(path, probe) {
            Err(error) => Err(error),
            Ok(()) => {
                self.tracking.file_path = Some(String::from_str(path));
                let _ = self.regist_watch();
                Ok(())
            },
        }
    }

    /// Makes `path` the active file, given the answer of a probe for it.
    ///
    /// The watch on the file before is withdrawn first. If the probe found the
    /// file, it becomes the active one and a watch on it is asked for; the
    /// caller then owes the viewer a notice that its content is stale. If not,
    /// the active path stays as it was, no watch is held, and the error says
    /// why.
    pub fn set_probed_path(&mut self, path: &str, probe: Result<bool, IoFailure>) -> (result:
        Result<(), DocumentError>)
        ensures
            final(self)@.wf(),
            unit_view(result) == existence_result(path@, probe),
            final(self)@.path == path_after_set(old(self)@.path, path@, probe),
            result is Err ==> !final(self)@.watching,
    {
        let _ = self.unregist_watch();
        self.store_path(path, probe)
    }

    /// Makes `path` the active file if a file exists there.
    ///
    /// Whether one does is for the file system to say. On success the path is
    /// the active one; on failure the active path is as before, no watch is
    /// held, and the error is `FileNotFound` with this very path or an
    /// `IoError`.
    pub fn set_file_path(&mut self, path: &str) -> (result: Result<(), DocumentError>)
        ensures
            final(self)@.wf(),
            result is Ok ==> final(self)@.path == Some(path@),
            result matches Err(error) ==> {
                &&& error@ == ErrorView::FileNotFound(path@) || error@ is IoError
                &&& final(self)@.path == old(self)@.path
                &&& !final(self)@.watching
            },
    {
        let _ = self.unregist_watch();
        let probe = probe_path(path);
        self.store_path(path, probe)
    }

    /// Forgets the active file and gives up the watch on it.
    pub fn clear_file_path(&mut self)
        ensures
            final(self)@ == (DocumentView { path: None, watching: false }),
    {
        let _ = self.unregist_watch();
        self.tracking.file_path = None;
    }
}

/// A path that the probe found is accepted and becomes the active one,
/// whatever was active before.
pub proof fn lemma_existing_path_becomes_active(before: Option<Seq<char>>, path: Seq<char>)
    ensures
        existence_result(path, Ok(true)) is Ok,
        path_after_set(before, path, Ok(true)) == Some(path),
{
}

/// A path at which the probe found nothing is refused as `FileNotFound`, and
/// the active path stays what it was.
pub proof fn lemma_missing_path_changes_nothing(before: Option<Seq<char>>, path: Seq<char>)
    ensures
        existence_result(path, Ok(false)) == Err::<(), ErrorView>(ErrorView::FileNotFound(path)),
        path_after_set(before, path, Ok(false)) == before,
{
}

/// A probe that failed is passed on as `IoError`, and the active path stays
/// what it was.
pub proof fn lemma_failed_probe_changes_nothing(
    before: Option<Seq<char>>,
    path: Seq<char>,
    failure: IoFailure,
)
    ensures
        existence_result(path, Err(failure)) == Err::<(), ErrorView>(
            ErrorView::IoError(failure.message@),
        ),
        path_after_set(before, path, Err(failure)) == before,
{
}

/// Of two paths set one after the other, both found by their probes, the later
/// one is the active path in the end.
pub proof fn lemma_last_set_path_wins(before: Option<Seq<char>>, first: Seq<char>, second: Seq<char>)
    ensures
        path_after_set(path_after_set(before, first, Ok(true)), second, Ok(true)) == Some(second),
{
}

/// While no file is active the text is empty whatever reading gave, and the
/// content is the HTML of the empty text.
pub proof fn lemma_no_file_has_empty_text(read: Result<Vec<String>, IoFailure>)
    ensures
        text_result(None, read) == Ok::<Seq<char>, ErrorView>(Seq::empty()),
        html_result(None, read) == Ok::<Seq<char>, ErrorView>(markdown_html(Seq::empty())),
{
}

/// A read that failed makes the content an `IoError`, whatever the file.
pub proof fn lemma_failed_read_is_io_error(path: Seq<char>, failure: IoFailure)
    ensures
        html_result(Some(path), Err(failure)) == Err::<Seq<char>, ErrorView>(
            ErrorView::IoError(failure.message@),
        ),
{
}

/// Collects the file to open before the watcher exists.
pub struct DocumentBuilder {
    file_path: Option<String>,
}

impl View for DocumentBuilder {
    type V = Option<Seq<char>>;

    closed spec fn view(&self) -> Option<Seq<char>> {
        match self.file_path {
            Some(path) => Some(path@),
            None => None,
        }
    }
}

impl Default for DocumentBuilder {
    fn default() -> (builder: DocumentBuilder)
        ensures
            builder@ is None,
    {
        DocumentBuilder { file_path: None }
    }
}

impl DocumentBuilder {
    /// The path chosen so far, if any.
    pub fn file_path(&self) -> (path: Option<String>)
        ensures
            match path {
                Some(text) => self@ == Some(text@),
                None => self@ is None,
            },
    {
        match &self.file_path {
            Some(path) => Some(path.clone()),
            None => None,
        }
    }

    /// Chooses `path`, given the answer of a probe for it: the builder with
    /// the path if the probe found a file, the error of the validation if not.
    pub fn set_probed_path(self, path: &str, probe: Result<bool, IoFailure>) -> (result: Result<
        DocumentBuilder,
        DocumentError,
    >)
        ensures
            match result {
                Ok(builder) => existence_result(path@, probe) is Ok && builder@ == Some(path@),
                Err(error) => existence_result(path@, probe) == Err::<(), ErrorView>(error@),
            },
    {
        match check_existence(path, probe) {
            Ok(()) => Ok(DocumentBuilder { file_path: Some(String::from_str(path)) }),
            Err(error) => Err(error),
        }
    }

    /// Chooses `path` if a file exists there.
    ///
    /// Whether one does is for the file system to say; an error is
    /// `FileNotFound` with this very path or an `IoError`.
    pub fn set_file_path(self, path: &str) -> (result: Result<DocumentBuilder, DocumentError>)
        ensures
            match result {
                Ok(builder) => builder@ == Some(path@),
                Err(error) => error@ == ErrorView::FileNotFound(path@) || error@ is IoError,
            },
    {
        let probe = probe_path(path);
        self.set_probed_path(path, probe)
    }

    /// Makes the document from the chosen path and the outcome of creating the
    /// watch backend, and asks for a watch on the path.
    ///
    /// A backend that could not be created is `NotifyInitializationFailed`.
    /// Without a path nothing is asked of the backend and the document is
    /// made. With one, the backend decides: the document then holds the watch,
    /// or the refusal is returned as `WatchRegistrationFailed`.
    pub fn build(self, watcher: Result<notify::RecommendedWatcher, notify::Error>) -> (result:
        Result<Document, DocumentError>)
        ensures
            watcher is Err ==> (result matches Err(error) && error@ is NotifyInitializationFailed),
            watcher is Ok ==> match result {
                Ok(document) => document@ == (DocumentView {
                    path: self@,
                    watching: self@ is Some,
                }),
                Err(error) => error@ is WatchRegistrationFailed && self@ is Some,
            },
    {
        match watcher {
            Err(error) => Err(DocumentError::NotifyInitializationFailed(failure_of(&error))),
            Ok(watcher) => {
                let mut document = Document {
                    tracking: Tracking { file_path: self.file_path, watching: false },
                    watcher,
                };
                match document.regist_watch() {
                    Ok(()) => Ok(document),
                    Err(error) => Err(error),
                }
            },
        }
    }
}

} // verus!
