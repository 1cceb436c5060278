//! What the viewer can ask of the document.

use crate::document::{html_result, Document};
use crate::error::{text_view, DocumentError, ErrorView, IoFailure};
use vstd::prelude::*;

verus! {

/// The answer to a request for content, given the outcome of rendering: the
/// HTML as it is, or the text of the error.
pub open spec fn response_of(rendered: Result<Seq<char>, ErrorView>) -> Result<Seq<char>, Seq<char>> {
    match rendered {
        Ok(html) => Ok(html),
        Err(error) => Err(error.message()),
    }
}

/// A response to the viewer, seen as mathematics.
pub open spec fn response_view(response: Result<String, String>) -> Result<Seq<char>, Seq<char>> {
    match response {
        Ok(html) => Ok(html@),
        Err(text) => Err(text@),
    }
}

/// Turns the outcome of rendering into the answer for the viewer, which takes
/// an error as its text.
pub fn respond(rendered: Result<String, DocumentError>) -> (response: Result<String, String>)
    ensures
        response_view(response) == response_of(text_view(rendered)),
{
    match rendered {
        Ok(html) => Ok(html),
        Err(error) => Err(error.message()),
    }
}

/// Serves the document as HTML, or the text of the error that prevented it.
///
/// The caller has withdrawn the watch with [`Document::begin_read`] and read
/// the file that it named; the watch is taken up again here.
pub fn contents(document: &mut Document, read: Result<Vec<String>, IoFailure>) -> (response:
    Result<String, String>)
    ensures
        final(document)@.wf(),
        final(document)@.path == old(document)@.path,
        response_view(response) == response_of(html_result(old(document)@.path, read)),
        old(document)@.path is None ==> final(document)@ == old(document)@,
        old(document)@.path is None ==> (response matches Ok(html) && html@.len() == 0),
{
    respond(document.html_contents(read))
}

/// Takes what the file dialog gave. Without a choice nothing happens. With
/// one, the chosen file becomes the active one if it exists.
///
/// `Ok` carries whether the viewer must be told that its content is stale,
/// which is so exactly when a file was chosen and taken. A chosen file that
/// cannot be taken is the error of [`Document::set_file_path`].
pub fn choose_file(document: &mut Document, picked: Option<String>) -> (result: Result<
    bool,
    DocumentError,
>)
    ensures
        match picked {
            None => result == Ok::<bool, DocumentError>(false) && final(document)@ == old(
                document,
            )@,
            Some(path) => match result {
                Ok(stale) => stale && final(document)@.wf() && final(document)@.path == Some(
                    path@,
                ),
                Err(error) => {
                    &&& error@ == ErrorView::FileNotFound(path@) || error@ is IoError
                    &&& final(document)@.path == old(document)@.path
                    &&& !final(document)@.watching
                },
            },
        },
{
    match picked {
        None => Ok(false),
        Some(path) => match document.set_file_path(path.as_str()) {
            Ok(()) => Ok(true),
            Err(error) => Err(error),
        },
    }
}

} // verus!
