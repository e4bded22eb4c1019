//! What can go wrong while a command is handled.

use vstd::prelude::*;

verus! {

/// A failure that ends the handling of one command.
#[derive(Debug, Clone, PartialEq, Eq)]
pub enum Error {
    /// A collaborator could not be run or reached.
    Io { detail: String },
    /// A collaborator's output was not valid text.
    Utf8 { detail: String },
    /// The argument of a command is longer than a reply could quote.
    UrlTooLong,
    /// The address has none of the supported shapes.
    UnsupportedUrl { url: String },
    /// The sender may not give this command.
    NotAuthorized,
    /// A page names no channel.
    CouldNotGetChannelIdentifier,
    /// The name is not fit to be a task or a folder.
    InvalidTaskName { task: String },
    /// The command asks for something this bot does not do.
    NotImplemented { what: String },
    /// The files of a folder could not be listed.
    ErrorListingFiles { folder: String },
    /// A folder could not be created.
    ErrorCreatingFolder { folder: String },
}

/// An [`Error`] with its texts as character sequences.
pub ghost enum ErrorView {
    Io { detail: Seq<char> },
    Utf8 { detail: Seq<char> },
    UrlTooLong,
    UnsupportedUrl { url: Seq<char> },
    NotAuthorized,
    CouldNotGetChannelIdentifier,
    InvalidTaskName { task: Seq<char> },
    NotImplemented { what: Seq<char> },
    ErrorListingFiles { folder: Seq<char> },
    ErrorCreatingFolder { folder: Seq<char> },
}

impl ErrorView {
    /// The text shown to the user for this failure.
    pub open spec fn message(self) -> Seq<char> {
        match self {
            ErrorView::Io { detail } => "Io: "@ + detail,
            ErrorView::Utf8 { detail } => "Utf8: "@ + detail,
            ErrorView::UrlTooLong => "UrlTooLong"@,
            ErrorView::UnsupportedUrl { url } => "Unsupported URL: "@ + url,
            ErrorView::NotAuthorized => "Not authorized"@,
            ErrorView::CouldNotGetChannelIdentifier => "Could not get channel identifier"@,
            ErrorView::InvalidTaskName { task } => "Invalid task name: "@ + task,
            ErrorView::NotImplemented { what } => "Not implemented: "@ + what,
            ErrorView::ErrorListingFiles { folder } => "Internal error listing files for "@
                + folder,
            ErrorView::ErrorCreatingFolder { folder } => "Internal error creating folder "@
                + folder,
        }
    }
}

impl View for Error {
    type V = ErrorView;

    open spec fn view(&self) -> ErrorView {
        match self {
            Error::Io { detail } => ErrorView::Io { detail: detail@ },
            Error::Utf8 { detail } => ErrorView::Utf8 { detail: detail@ },
            Error::UrlTooLong => ErrorView::UrlTooLong,
            Error::UnsupportedUrl { url } => ErrorView::UnsupportedUrl { url: url@ },
            Error::NotAuthorized => ErrorView::NotAuthorized,
            Error::CouldNotGetChannelIdentifier => ErrorView::CouldNotGetChannelIdentifier,
            Error::InvalidTaskName { task } => ErrorView::InvalidTaskName { task: task@ },
            Error::NotImplemented { what } => ErrorView::NotImplemented { what: what@ },
            Error::ErrorListingFiles { folder } => ErrorView::ErrorListingFiles {
                folder: folder@,
            },
            Error::ErrorCreatingFolder { folder } => ErrorView::ErrorCreatingFolder {
                folder: folder@,
            },
        }
    }
}

/// `label` followed by `rest`.
pub fn labelled(label: &str, rest: &str) -> (s: String)
    ensures
        s@ == label@ + rest@,
{
    let mut s = String::from_str(label);
    s.append(rest);
    s
}

impl Error {
    /// The text shown to the user for this failure.
    pub fn message(&self) -> (m: String)
        ensures
            m@ == self@.message(),
    {
        match self {
            Error::Io { detail } => labelled("Io: ", detail.as_str()),
            Error::Utf8 { detail } => labelled("Utf8: ", detail.as_str()),
            Error::UrlTooLong => String::from_str("UrlTooLong"),
            Error::UnsupportedUrl { url } => labelled("Unsupported URL: ", url.as_str()),
            Error::NotAuthorized => String::from_str("Not authorized"),
            Error::CouldNotGetChannelIdentifier => String::from_str(
                "Could not get channel identifier",
            ),
            Error::InvalidTaskName { task } => labelled("Invalid task name: ", task.as_str()),
            Error::NotImplemented { what } => labelled("Not implemented: ", what.as_str()),
            Error::ErrorListingFiles { folder } => labelled(
                "Internal error listing files for ",
                folder.as_str(),
            ),
            Error::ErrorCreatingFolder { folder } => labelled(
                "Internal error creating folder ",
                folder.as_str(),
            ),
        }
    }
}

/// A failure described by a text alone.
#[derive(Debug, Clone)]
pub struct MyError {
    message: String,
}

impl View for MyError {
    type V = Seq<char>;

    closed spec fn view(&self) -> Seq<char> {
        self.message@
    }
}

impl MyError {
    /// The failure that `message` describes.
    pub fn new(message: String) -> (e: MyError)
        ensures
            e@ == message@,
    {
        MyError { message }
    }

    /// The text this failure was made with.
    pub fn description(&self) -> (m: &str)
        ensures
            m@ == self@,
    {
        self.message.as_str()
    }
}

} // verus!
