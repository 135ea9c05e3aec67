//! The conditions under which a request fails.

use crate::response::{BAD_REQUEST, CONFLICT, INTERNAL_SERVER_ERROR, NOT_FOUND};
use vstd::prelude::*;

verus! {

/// Why a request was turned away before any statement was issued.
#[derive(Clone, Copy, Debug, PartialEq, Eq, Structural)]
pub enum ValidationError {
    /// The path parameter is not the text of a UUID.
    MalformedId,
    /// A create body lacks `field_name`.
    MissingFieldName,
    /// A create body lacks `address`.
    MissingAddress,
    /// A create body lacks `day`.
    MissingDay,
    /// The body is not a JSON object of the expected shape.
    MalformedBody,
    /// Page and limit name rows beyond what a statement can address.
    PageOutOfRange,
}

/// How a gateway operation failed.
#[derive(Debug, PartialEq, Eq)]
pub enum GatewayError {
    /// The request was malformed; nothing reached the store.
    Validation(ValidationError),
    /// The address is that of another game.
    Conflict,
    /// No row has the given identifier.
    NotFound,
    /// Any other failure of the store, with its diagnostic text.
    Internal(String),
}

/// A gateway error as a mathematical value.
pub enum GatewayErrorView {
    Validation(ValidationError),
    Conflict,
    NotFound,
    Internal(Seq<char>),
}

impl View for GatewayError {
    type V = GatewayErrorView;

    open spec fn view(&self) -> GatewayErrorView {
        match *self {
            GatewayError::Validation(reason) => GatewayErrorView::Validation(reason),
            GatewayError::Conflict => GatewayErrorView::Conflict,
            GatewayError::NotFound => GatewayErrorView::NotFound,
            GatewayError::Internal(detail) => GatewayErrorView::Internal(detail@),
        }
    }
}

/// The one status code that answers each condition.
pub open spec fn status_of(error: GatewayErrorView) -> u16 {
    match error {
        GatewayErrorView::Validation(_) => BAD_REQUEST,
        GatewayErrorView::Conflict => CONFLICT,
        GatewayErrorView::NotFound => NOT_FOUND,
        GatewayErrorView::Internal(_) => INTERNAL_SERVER_ERROR,
    }
}

impl GatewayError {
    /// The status code that answers this condition: 400, 409, 404 or 500.
    pub fn status_code(&self) -> (code: u16)
        ensures
            code == status_of(self@),
    {
        match self {
            GatewayError::Validation(_) => BAD_REQUEST,
            GatewayError::Conflict => CONFLICT,
            GatewayError::NotFound => NOT_FOUND,
            GatewayError::Internal(_) => INTERNAL_SERVER_ERROR,
        }
    }
}

} // verus!
