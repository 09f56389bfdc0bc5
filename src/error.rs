use vstd::prelude::*;

verus! {

/// The three families of failure that the library reports.
#[derive(Clone, Copy, Debug, PartialEq, Eq, Structural)]
pub enum ErrorKind {
    /// A path could not be resolved on the file system.
    Io,
    /// The service manager refused or failed a request.
    Service,
    /// A configuration value was missing or invalid.
    Config,
}

/// An error: its kind, a message for people, and the name or path it is about.
#[derive(Clone, Debug, PartialEq, Eq)]
pub struct Error {
    pub kind: ErrorKind,
    pub message: String,
    pub content: Option<String>,
}

/// The mathematical value of an [`Error`].
pub struct ErrorView {
    pub kind: ErrorKind,
    pub message: Seq<char>,
    pub content: Option<Seq<char>>,
}

pub open spec fn option_string_view(o: Option<String>) -> Option<Seq<char>> {
    match o {
        Some(s) => Some(s@),
        None => None,
    }
}

impl View for Error {
    type V = ErrorView;

    open spec fn view(&self) -> ErrorView {
        ErrorView { kind: self.kind, message: self.message@, content: option_string_view(self.content) }
    }
}

/// The error of the given kind, with a message and a context value.
pub open spec fn error_with(kind: ErrorKind, message: Seq<char>, content: Seq<char>) -> ErrorView {
    ErrorView { kind, message, content: Some(content) }
}

pub open spec fn result_view(r: Result<(), Error>) -> Result<(), ErrorView> {
    match r {
        Ok(()) => Ok(()),
        Err(e) => Err(e@),
    }
}

impl Error {
    /// An error of `kind` with `message` and no context.
    pub fn new(kind: ErrorKind, message: String) -> (r: Error)
        ensures
            r@ == (ErrorView { kind, message: message@, content: None }),
    {
        Error { kind, message, content: None }
    }

    /// The same error, with `content` as its context.
    pub fn content(self, content: String) -> (r: Error)
        ensures
            r@ == error_with(self.kind, self.message@, content@),
    {
        Error { kind: self.kind, message: self.message, content: Some(content) }
    }

    /// A failure reported by the service manager about the service `name`.
    pub fn service(message: String, name: &str) -> (r: Error)
        ensures
            r@ == error_with(ErrorKind::Service, message@, name@),
    {
        Error::new(ErrorKind::Service, message).content(name.to_owned())
    }

    /// A failure to resolve `path` on the file system.
    pub fn io(message: String, path: &str) -> (r: Error)
        ensures
            r@ == error_with(ErrorKind::Io, message@, path@),
    {
        Error::new(ErrorKind::Io, message).content(path.to_owned())
    }
}

} // verus!
