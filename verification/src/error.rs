//! The error type of the application around the backend supervisor.

use crate::backend::error::{BackendError, BackendErrorView};
use vstd::prelude::*;

verus! {

#[derive(Debug)]
pub enum AppError {
    Backend(BackendError),
    Internal(String),
}

/// What an `AppError` holds, with texts as character sequences.
pub enum AppErrorView {
    Backend(BackendErrorView),
    Internal(Seq<char>),
}

impl View for AppError {
    type V = AppErrorView;

    open spec fn view(&self) -> AppErrorView {
        match *self {
            AppError::Backend(e) => AppErrorView::Backend(e@),
            AppError::Internal(m) => AppErrorView::Internal(m@),
        }
    }
}

impl AppErrorView {
    /// The message that the error shows to a user: that of the backend error
    /// it wraps, or its own text.
    pub open spec fn display_text(self) -> Seq<char> {
        match self {
            AppErrorView::Backend(e) => e.display_text(),
            AppErrorView::Internal(m) => m,
        }
    }
}

impl AppError {
    /// The message that the error shows to a user.
    pub fn to_string(&self) -> (r: String)
        ensures
            r@ == self@.display_text(),
    {
        match self {
            AppError::Backend(e) => e.to_string(),
            AppError::Internal(msg) => msg.clone(),
        }
    }
}

impl From<BackendError> for AppError {
    fn from(err: BackendError) -> (r: AppError) {
        AppError::Backend(err)
    }
}

impl vstd::std_specs::convert::FromSpecImpl<BackendError> for AppError {
    open spec fn obeys_from_spec() -> bool {
        true
    }

    open spec fn from_spec(err: BackendError) -> AppError {
        AppError::Backend(err)
    }
}

} // verus!
