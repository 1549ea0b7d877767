//! The library's error type.
use vstd::prelude::*;

verus! {

/// What went wrong, with a message for people.
#[derive(Debug)]
pub enum LeashError {
    NotFound(String),
    Backend(String),
    Internal(String),
    Config(String),
    PermissionDenied(String),
}

/// The mathematical value of a [`LeashError`].
pub enum LeashErrorView {
    NotFound(Seq<char>),
    Backend(Seq<char>),
    Internal(Seq<char>),
    Config(Seq<char>),
    PermissionDenied(Seq<char>),
}

impl View for LeashError {
    type V = LeashErrorView;

    open spec fn view(&self) -> LeashErrorView {
        match self {
            LeashError::NotFound(m) => LeashErrorView::NotFound(m@),
            LeashError::Backend(m) => LeashErrorView::Backend(m@),
            LeashError::Internal(m) => LeashErrorView::Internal(m@),
            LeashError::Config(m) => LeashErrorView::Config(m@),
            LeashError::PermissionDenied(m) => LeashErrorView::PermissionDenied(m@),
        }
    }
}

impl LeashError {
    /// The message of the error.
    pub fn message(&self) -> (r: &String)
        ensures
            r@ == match self@ {
                LeashErrorView::NotFound(m) => m,
                LeashErrorView::Backend(m) => m,
                LeashErrorView::Internal(m) => m,
                LeashErrorView::Config(m) => m,
                LeashErrorView::PermissionDenied(m) => m,
            },
    {
        match self {
            LeashError::NotFound(m) => m,
            LeashError::Backend(m) => m,
            LeashError::Internal(m) => m,
            LeashError::Config(m) => m,
            LeashError::PermissionDenied(m) => m,
        }
    }
}

} // verus!
