//! The filesystem watch: what the backend reports, and what follows from it.

use crate::error::{DocumentError, ErrorView, WatchFailure, WatchFailureKind};
use vstd::prelude::*;

verus! {

/// How the contents or the attributes of a watched file changed.
#[derive(Debug, Clone, Copy, PartialEq, Eq, Structural)]
pub enum ModifyKind {
    /// A change of unknown nature.
    Any,
    /// The bytes of the file changed.
    Data,
    /// Only attributes such as times, permissions or ownership changed.
    Metadata,
    /// The file was renamed.
    Name,
    /// A change that fits none of the above.
    Other,
}

/// What happened to a watched file.
#[derive(Debug, Clone, Copy, PartialEq, Eq, Structural)]
pub enum EventKind {
    /// Something happened, the backend cannot say what.
    Any,
    /// The file was opened, read or closed.
    Access,
    /// The file came into being.
    Create,
    /// The file was modified.
    Modify(ModifyKind),
    /// The file was removed.
    Remove,
    /// An event that fits none of the above.
    Other,
}

/// Whether an event of this kind makes the rendered content stale: a change
/// of the file's bytes does, and so does its removal; nothing else.
pub open spec fn invalidates(kind: EventKind) -> bool {
    kind == EventKind::Modify(ModifyKind::Data) || kind == EventKind::Remove
}

/// Decides whether an event of this kind makes the rendered content stale.
pub fn is_invalidating(kind: EventKind) -> (stale: bool)
    ensures
        stale == invalidates(kind),
{
    match kind {
        EventKind::Modify(ModifyKind::Data) => true,
        EventKind::Remove => true,
        _ => false,
    }
}

/// Whether one delivery of the watch backend makes the rendered content
/// stale. A delivery is either an event, given by its kind, or a fault of the
/// backend; an event counts if its kind invalidates, a fault never does.
pub open spec fn delivery_invalidates(event: Result<EventKind, notify::Error>) -> bool {
    match event {
        Ok(kind) => invalidates(kind),
        Err(_) => false,
    }
}

/// Decides for one delivery of the watch backend whether the viewer must be
/// told that its content is stale: once for every change of the file's bytes
/// and for every removal, and never for another event or for a fault of the
/// backend, which is swallowed.
pub fn handle_event(event: Result<EventKind, notify::Error>) -> (stale: bool)
    ensures
        stale == delivery_invalidates(event),
{
    match event {
        Ok(kind) => is_invalidating(kind),
        Err(_) => false,
    }
}

/// The result of asking for a watch, given what the backend answered: any
/// refusal is an error.
pub open spec fn registration_result(outcome: Result<(), WatchFailure>) -> Result<(), ErrorView> {
    match outcome {
        Ok(()) => Ok(()),
        Err(failure) => Err(ErrorView::WatchRegistrationFailed(failure@)),
    }
}

/// The result of withdrawing a watch, given what the backend answered: that
/// nothing was being watched counts as success, any other refusal is an error.
pub open spec fn unregistration_result(outcome: Result<(), WatchFailure>) -> Result<
    (),
    ErrorView,
> {
    match outcome {
        Ok(()) => Ok(()),
        Err(failure) => if failure.kind == WatchFailureKind::WatchNotFound {
            Ok(())
        } else {
            Err(ErrorView::WatchRegistrationFailed(failure@))
        },
    }
}

/// Turns the backend's answer to a watch request into the caller's result.
pub fn settle_registration(outcome: Result<(), WatchFailure>) -> (result: Result<
    (),
    DocumentError,
>)
    ensures
        crate::error::unit_view(result) == registration_result(outcome),
{
    match outcome {
        Ok(()) => Ok(()),
        Err(failure) => Err(DocumentError::WatchRegistrationFailed(failure)),
    }
}

/// Turns the backend's answer to an unwatch request into the caller's result.
pub fn settle_unregistration(outcome: Result<(), WatchFailure>) -> (result: Result<
    (),
    DocumentError,
>)
    ensures
        crate::error::unit_view(result) == unregistration_result(outcome),
{
    match outcome {
        Ok(()) => Ok(()),
        Err(failure) => match failure.kind {
            WatchFailureKind::WatchNotFound => Ok(()),
            _ => Err(DocumentError::WatchRegistrationFailed(failure)),
        },
    }
}

/// Withdrawing a watch that the backend does not have is no error, and neither
/// is withdrawing one that it has.
pub proof fn lemma_unregister_without_watch_succeeds(outcome: Result<(), WatchFailure>)
    requires
        outcome is Ok || outcome->Err_0.kind == WatchFailureKind::WatchNotFound,
    ensures
        unregistration_result(outcome) is Ok,
{
}

/// `notify::RecommendedWatcher`, the watch backend of the platform. The
/// library hands it to the backend's own functions and never looks inside.
#[verifier::external_type_specification]
#[verifier::external_body]
pub struct ExRecommendedWatcher(notify::RecommendedWatcher);

/// `notify::Error`, a refusal or a fault of the backend, as the backend made
/// it.
#[verifier::external_type_specification]
#[verifier::external_body]
pub struct ExNotifyError(notify::Error);

/// Calls `notify::Watcher::watch` for one path, not recursively.
///
/// Nothing is promised of the answer: it depends on the file system and on
/// the operating system's limits. The call panics only if the backend's own
/// event thread has died.
#[verifier::external_body]
pub(crate) fn backend_watch(watcher: &mut notify::RecommendedWatcher, path: &str) -> (outcome:
    Result<(), notify::Error>) {
    notify::Watcher::watch(
        watcher,
        std::path::Path::new(path),
        notify::RecursiveMode::NonRecursive,
    )
}

/// Calls `notify::Watcher::unwatch` for one path.
///
/// Nothing is promised of the answer: it depends on what the backend watches
/// at that moment. The call panics only if the backend's own event thread has
/// died.
#[verifier::external_body]
pub(crate) fn backend_unwatch(watcher: &mut notify::RecommendedWatcher, path: &str) -> (outcome:
    Result<(), notify::Error>) {
    notify::Watcher::unwatch(watcher, std::path::Path::new(path))
}

/// Reads the `kind` field of a `notify::Error` and prints the error with its
/// `Display` impl. The error is opaque to the verifier, so nothing is claimed
/// of the outcome.
#[verifier::external_body]
pub(crate) fn failure_of(error: &notify::Error) -> (failure: WatchFailure) {
    let kind = match error.kind {
        notify::ErrorKind::Generic(_) => WatchFailureKind::Generic,
        notify::ErrorKind::Io(_) => WatchFailureKind::Io,
        notify::ErrorKind::PathNotFound => WatchFailureKind::PathNotFound,
        notify::ErrorKind::WatchNotFound => WatchFailureKind::WatchNotFound,
        notify::ErrorKind::InvalidConfig(_) => WatchFailureKind::InvalidConfig,
        notify::ErrorKind::MaxFilesWatch => WatchFailureKind::MaxFilesWatch,
    };
    WatchFailure { kind, message: error.to_string() }
}

} // verus!
