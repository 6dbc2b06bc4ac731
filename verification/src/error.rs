//! The errors that an aggregation request can end in.

use vstd::prelude::*;

verus! {

/// Why a request failed. Every error ends the request it occurred in; none is
/// retried or replaced by a default.
#[derive(Debug, PartialEq, Eq)]
pub enum AppError {
    /// A row that must exist exactly once was not there.
    NotFound,
    /// A stored platform tag is not one of the canonical tags; carries the tag.
    UnknownPlatform(String),
    /// The remote platform could not be reached or its answer not decoded.
    FetchError(String),
    /// Reading or writing storage failed; carries the message for the user.
    StorageError(String),
}

pub type AppResult<T> = Result<T, AppError>;

/// An [`AppError`] with its texts as sequences of characters.
pub enum ErrorView {
    NotFound,
    UnknownPlatform(Seq<char>),
    FetchError(Seq<char>),
    StorageError(Seq<char>),
}

impl View for AppError {
    type V = ErrorView;

    open spec fn view(&self) -> ErrorView {
        match *self {
            AppError::NotFound => ErrorView::NotFound,
            AppError::UnknownPlatform(tag) => ErrorView::UnknownPlatform(tag@),
            AppError::FetchError(reason) => ErrorView::FetchError(reason@),
            AppError::StorageError(message) => ErrorView::StorageError(message@),
        }
    }
}

/// The storage operations that can fail, each with the message that its
/// failure is reported with.
#[derive(Clone, Copy, Debug, PartialEq, Eq, Structural)]
pub enum StorageOp {
    AddUser,
    CheckUser,
    GetUser,
    GetAvatar,
    DeleteUser,
}

impl StorageOp {
    /// The message under which a failure of the operation is reported.
    pub open spec fn message(self) -> Seq<char> {
        match self {
            StorageOp::AddUser => "Error adding repository data into database"@,
            StorageOp::CheckUser => "Error checking if user exists in database"@,
            StorageOp::GetUser => "Error getting user from database"@,
            StorageOp::GetAvatar => "Error getting user avatar from database"@,
            StorageOp::DeleteUser => "Error deleting user from database"@,
        }
    }

    /// The error that a failure of the operation ends the request in.
    pub fn failure(self) -> (error: AppError)
        ensures
            error@ == ErrorView::StorageError(self.message()),
    {
        let message = match self {
            StorageOp::AddUser => "Error adding repository data into database",
            StorageOp::CheckUser => "Error checking if user exists in database",
            StorageOp::GetUser => "Error getting user from database",
            StorageOp::GetAvatar => "Error getting user avatar from database",
            StorageOp::DeleteUser => "Error deleting user from database",
        };
        AppError::StorageError(message.to_owned())
    }
}

/// A row that must exist: the row where it was found, else `NotFound`.
pub fn require_row<T>(row: Option<T>) -> (found: Result<T, AppError>)
    ensures
        match row {
            Some(r) => found == Ok::<T, AppError>(r),
            None => found == Err::<T, AppError>(AppError::NotFound),
        },
{
    match row {
        Some(r) => Ok(r),
        None => Err(AppError::NotFound),
    }
}

} // verus!
