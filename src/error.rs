use vstd::prelude::*;

verus! {

/// The ways a call can fail, by category, so that callers can decide on retries.
#[derive(Debug)]
pub enum Error {
    /// A credential that the call needs is not configured; no request was sent.
    Configuration(String),
    /// The request could not be carried out (connection, timeout, name lookup).
    Transport(String),
    /// The exchange answered with its `{"code", "msg"}` error envelope.
    Exchange { code: i64, msg: String },
    /// A failure status whose body is not an error envelope; holds the raw body.
    Unparseable(String),
    /// A success status whose body does not have the expected shape; holds the raw body.
    SchemaMismatch(String),
    /// The symbol asked for is not among those the exchange lists; holds the name as given.
    UnknownSymbol(String),
}

/// The view of an `Error`.
pub enum ErrorView {
    Configuration(Seq<char>),
    Transport(Seq<char>),
    Exchange { code: i64, msg: Seq<char> },
    Unparseable(Seq<char>),
    SchemaMismatch(Seq<char>),
    UnknownSymbol(Seq<char>),
}

impl View for Error {
    type V = ErrorView;

    open spec fn view(&self) -> ErrorView {
        match self {
            Error::Configuration(s) => ErrorView::Configuration(s@),
            Error::Transport(s) => ErrorView::Transport(s@),
            Error::Exchange { code, msg } => ErrorView::Exchange { code: *code, msg: msg@ },
            Error::Unparseable(s) => ErrorView::Unparseable(s@),
            Error::SchemaMismatch(s) => ErrorView::SchemaMismatch(s@),
            Error::UnknownSymbol(s) => ErrorView::UnknownSymbol(s@),
        }
    }
}

/// The view of a result.
pub open spec fn result_view<T: View>(r: Result<T, Error>) -> Result<T::V, ErrorView> {
    match r {
        Ok(x) => Ok(x@),
        Err(e) => Err(e@),
    }
}

} // verus!
