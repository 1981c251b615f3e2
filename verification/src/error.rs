//! The failures a store operation can end in.

use vstd::prelude::*;

verus! {

/// Why a store operation failed. Each variant carries the message of the
/// component that reported the failure.
#[derive(Clone, Debug, PartialEq, Eq)]
pub enum Error {
    /// The backend could not be reached or refused the request.
    Backend(String),
    /// A session could not be turned into its stored form.
    Encode(String),
    /// A stored payload could not be read back as a session.
    Decode(String),
}

/// An [`Error`] with its message as a sequence of characters.
pub enum ErrorView {
    Backend(Seq<char>),
    Encode(Seq<char>),
    Decode(Seq<char>),
}

impl View for Error {
    type V = ErrorView;

    open spec fn view(&self) -> ErrorView {
        match self {
            Error::Backend(message) => ErrorView::Backend(message@),
            Error::Encode(message) => ErrorView::Encode(message@),
            Error::Decode(message) => ErrorView::Decode(message@),
        }
    }
}

/// The view of a `Result`, taken on whichever side it holds.
pub open spec fn result_view<T: View, E: View>(result: Result<T, E>) -> Result<T::V, E::V> {
    match result {
        Ok(value) => Ok(value@),
        Err(error) => Err(error@),
    }
}

/// The view of a `Result` that may hold nothing on its good side.
pub open spec fn result_option_view<T: View, E: View>(result: Result<Option<T>, E>) -> Result<
    Option<T::V>,
    E::V,
> {
    match result {
        Ok(Some(value)) => Ok(Some(value@)),
        Ok(None) => Ok(None),
        Err(error) => Err(error@),
    }
}

} // verus!
