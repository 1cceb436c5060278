//! Failures that the document operations report.

use vstd::prelude::*;
use vstd::string::StringExecFns;

verus! {

/// What the operating system said when a file could not be examined or read.
#[derive(Debug)]
pub struct IoFailure {
    pub message: String,
}

impl IoFailure {
    /// A failure with the text that the operating system gave.
    pub fn new(message: String) -> (failure: IoFailure)
        ensures
            failure.message@ == message@,
    {
        IoFailure { message }
    }
}

/// The reasons for which the watch backend refuses a request.
#[derive(Debug, Clone, Copy, PartialEq, Eq, Structural)]
pub enum WatchFailureKind {
    /// A backend-specific failure without a finer classification.
    Generic,
    /// The operating system refused the request.
    Io,
    /// The path to watch does not exist.
    PathNotFound,
    /// The path to stop watching was not being watched.
    WatchNotFound,
    /// The backend was configured with a value it rejects.
    InvalidConfig,
    /// The operating system's limit on watches is reached.
    MaxFilesWatch,
}

/// A refusal of the watch backend: its kind and the text it printed.
#[derive(Debug)]
pub struct WatchFailure {
    pub kind: WatchFailureKind,
    pub message: String,
}

/// The mathematical content of a [`WatchFailure`].
pub struct WatchFailureView {
    pub kind: WatchFailureKind,
    pub message: Seq<char>,
}

impl View for WatchFailure {
    type V = WatchFailureView;

    open spec fn view(&self) -> WatchFailureView {
        WatchFailureView { kind: self.kind, message: self.message@ }
    }
}

impl WatchFailure {
    /// A refusal of the given kind with the text that the backend printed.
    pub fn new(kind: WatchFailureKind, message: String) -> (failure: WatchFailure)
        ensures
            failure@ == (WatchFailureView { kind, message: message@ }),
    {
        WatchFailure { kind, message }
    }
}

/// Everything that can go wrong while handling the document.
#[derive(Debug)]
pub enum DocumentError {
    /// The file could not be examined or read.
    IoError(IoFailure),
    /// No file exists at the path, which the variant carries.
    FileNotFound(String),
    /// A watcher was installed although one was already present.
    NotifyAlreadyInitialized,
    /// The watch backend could not be created.
    NotifyInitializationFailed(WatchFailure),
    /// The lock that guards the watcher was poisoned.
    NotifyLockPoisoned,
    /// A watcher was needed before one was installed.
    NotifyNotInitialized,
    /// The watch backend refused to add or remove a watch.
    WatchRegistrationFailed(WatchFailure),
}

/// The mathematical content of a [`DocumentError`].
pub enum ErrorView {
    IoError(Seq<char>),
    FileNotFound(Seq<char>),
    NotifyAlreadyInitialized,
    NotifyInitializationFailed(WatchFailureView),
    NotifyLockPoisoned,
    NotifyNotInitialized,
    WatchRegistrationFailed(WatchFailureView),
}

impl ErrorView {
    /// The text shown to a person for this error.
    pub open spec fn message(self) -> Seq<char> {
        match self {
            ErrorView::IoError(text) => "ioエラー発生: "@ + text,
            ErrorView::FileNotFound(path) => "ファイルが見つかりません: "@ + path,
            ErrorView::NotifyAlreadyInitialized => "notifyはすでに初期化済みです。"@,
            ErrorView::NotifyInitializationFailed(_) => "notifyの初期化に失敗"@,
            ErrorView::NotifyLockPoisoned => "notifyのロック破損"@,
            ErrorView::NotifyNotInitialized => "notifyが初期化されていません。"@,
            ErrorView::WatchRegistrationFailed(failure) => "ファイル監視の登録に失敗: "@
                + failure.message,
        }
    }
}

impl View for DocumentError {
    type V = ErrorView;

    open spec fn view(&self) -> ErrorView {
        match self {
            DocumentError::IoError(failure) => ErrorView::IoError(failure.message@),
            DocumentError::FileNotFound(path) => ErrorView::FileNotFound(path@),
            DocumentError::NotifyAlreadyInitialized => ErrorView::NotifyAlreadyInitialized,
            DocumentError::NotifyInitializationFailed(failure) => {
                ErrorView::NotifyInitializationFailed(failure@)
            },
            DocumentError::NotifyLockPoisoned => ErrorView::NotifyLockPoisoned,
            DocumentError::NotifyNotInitialized => ErrorView::NotifyNotInitialized,
            DocumentError::WatchRegistrationFailed(failure) => {
                ErrorView::WatchRegistrationFailed(failure@)
            },
        }
    }
}

/// A result without a value, with its error seen as mathematics.
pub open spec fn unit_view(result: Result<(), DocumentError>) -> Result<(), ErrorView> {
    match result {
        Ok(()) => Ok(()),
        Err(error) => Err(error@),
    }
}

/// A result that carries text, seen as mathematics.
pub open spec fn text_view(result: Result<String, DocumentError>) -> Result<Seq<char>, ErrorView> {
    match result {
        Ok(text) => Ok(text@),
        Err(error) => Err(error@),
    }
}

impl DocumentError {
    /// The text shown to a person for this error.
    pub fn message(&self) -> (text: String)
        ensures
            text@ == self@.message(),
    {
        match self {
            DocumentError::IoError(failure) => {
                String::from_str("ioエラー発生: ").concat(failure.message.as_str())
            },
            DocumentError::FileNotFound(path) => {
                String::from_str("ファイルが見つかりません: ").concat(path.as_str())
            },
            DocumentError::NotifyAlreadyInitialized => {
                String::from_str("notifyはすでに初期化済みです。")
            },
            DocumentError::NotifyInitializationFailed(_) => String::from_str("notifyの初期化に失敗"),
            DocumentError::NotifyLockPoisoned => String::from_str("notifyのロック破損"),
            DocumentError::NotifyNotInitialized => {
                String::from_str("notifyが初期化されていません。")
            },
            DocumentError::WatchRegistrationFailed(failure) => {
                String::from_str("ファイル監視の登録に失敗: ").concat(failure.message.as_str())
            },
        }
    }
}

} // verus!
