//! The ways in which resolving a configuration or fitting a payload can fail.

use vstd::prelude::*;

verus! {

/// A failure. Each one ends the run; none is retried.
#[derive(Debug, Clone, PartialEq, Eq)]
pub enum Error {
    /// A service was named that is none of the known ones; carries the name.
    UnknownService(String),
    /// Neither the command line nor the environment names a service.
    NoService,
    /// Neither the configuration nor the payload holds a repo token.
    MissingRepoToken,
    /// Looking up the repository failed, or the head commit it gave lacks a
    /// value; carries the diagnostic.
    Vcs(String),
    /// An environment variable holds what is no Unicode text; carries the
    /// value as it prints.
    Variable(String),
    /// The service answered the upload with a failure; carries the diagnostic.
    Api(String),
}

/// An [`Error`] with its texts as sequences of characters.
pub enum ErrorView {
    UnknownService(Seq<char>),
    NoService,
    MissingRepoToken,
    Vcs(Seq<char>),
    Variable(Seq<char>),
    Api(Seq<char>),
}

impl View for Error {
    type V = ErrorView;

    open spec fn view(&self) -> ErrorView {
        match self {
            Error::UnknownService(name) => ErrorView::UnknownService(name@),
            Error::NoService => ErrorView::NoService,
            Error::MissingRepoToken => ErrorView::MissingRepoToken,
            Error::Vcs(text) => ErrorView::Vcs(text@),
            Error::Variable(text) => ErrorView::Variable(text@),
            Error::Api(text) => ErrorView::Api(text@),
        }
    }
}

/// The line that reports an error to the user.
pub open spec fn message_of(e: ErrorView) -> Seq<char> {
    match e {
        ErrorView::UnknownService(name) => "Service name `"@ + name + "` is not implemented"@,
        ErrorView::NoService => "No service name found"@,
        ErrorView::MissingRepoToken =>
            "Repo token is missing, set the COVERALLS_REPO_TOKEN env var."@,
        ErrorView::Vcs(text) => text,
        ErrorView::Variable(text) => text,
        ErrorView::Api(text) => text,
    }
}

/// A result with its error as an [`ErrorView`].
pub open spec fn viewed<T>(res: Result<T, Error>) -> Result<T, ErrorView> {
    match res {
        Ok(value) => Ok(value),
        Err(e) => Err(e@),
    }
}

impl Error {
    /// The line that reports this error to the user.
    pub fn message(&self) -> (out: String)
        ensures
            out@ == message_of(self@),
    {
        match self {
            Error::UnknownService(name) => {
                let mut out = "Service name `".to_owned();
                out.append(name.as_str());
                out.append("` is not implemented");
                out
            },
            Error::NoService => "No service name found".to_owned(),
            Error::MissingRepoToken =>
                "Repo token is missing, set the COVERALLS_REPO_TOKEN env var.".to_owned(),
            Error::Vcs(text) => text.clone(),
            Error::Variable(text) => text.clone(),
            Error::Api(text) => text.clone(),
        }
    }
}

} // verus!
