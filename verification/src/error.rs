//! What can go wrong when pagination parameters are validated, and how each
//! failure is classified for the caller that answers a request.

use vstd::prelude::*;
use vstd::string::*;
use crate::text::{decimal, decimal_string};

verus! {

/// Status of a response to a request that the client got wrong.
pub const STATUS_BAD_REQUEST: u16 = 400;

/// Status of a response to a request that failed on the server's side.
pub const STATUS_INTERNAL_SERVER_ERROR: u16 = 500;

/// A failure of pagination.
#[derive(Debug, Clone, PartialEq, Eq)]
pub enum PaginationError {
    /// The page number is not a 1-based page.
    InvalidPage(u32),
    /// The page size lies outside the accepted range.
    InvalidLimit(u32),
    /// A quantity of the descriptor does not fit its integer type.
    Overflow,
    /// The parameters are invalid together, for the reason given.
    InvalidParams(String),
}

/// A failure as the hosting application reports it: either the client's
/// fault, tied to a field of the request, or the server's.
#[derive(Debug, Clone, PartialEq, Eq)]
pub enum Fault {
    /// The request was wrong in `field`.
    Client { field: String, message: String },
    /// The server could not do its part.
    Server { message: String },
}

/// The request field that every pagination failure of the client is tied to.
pub open spec fn fault_field() -> Seq<char> {
    "pagination"@
}

impl PaginationError {
    /// Whether the failure is the client's: everything but an overflow.
    pub open spec fn is_client_fault(&self) -> bool {
        !(self is Overflow)
    }

    /// The text that describes the failure.
    pub open spec fn message_text(&self) -> Seq<char> {
        match self {
            PaginationError::InvalidPage(n) => "Invalid page number: "@ + decimal(*n as nat)
                + ". Must be greater than 0."@,
            PaginationError::InvalidLimit(n) => "Invalid limit: "@ + decimal(*n as nat)
                + ". Must be between 1 and 100."@,
            PaginationError::Overflow => "Calculation overflow"@,
            PaginationError::InvalidParams(reason) => "Invalid pagination parameters: "@
                + reason@,
        }
    }

    /// The status number that a failure of this kind is reported with.
    pub open spec fn status_number(&self) -> u16 {
        if self.is_client_fault() {
            STATUS_BAD_REQUEST
        } else {
            STATUS_INTERNAL_SERVER_ERROR
        }
    }

    /// The text that describes the failure.
    pub fn message(&self) -> (text: String)
        ensures
            text@ == self.message_text(),
    {
        match self {
            PaginationError::InvalidPage(n) => {
                let mut text = String::from_str("Invalid page number: ");
                let number = decimal_string(*n as u64);
                text.append(number.as_str());
                text.append(". Must be greater than 0.");
                text
            },
            PaginationError::InvalidLimit(n) => {
                let mut text = String::from_str("Invalid limit: ");
                let number = decimal_string(*n as u64);
                text.append(number.as_str());
                text.append(". Must be between 1 and 100.");
                text
            },
            PaginationError::Overflow => String::from_str("Calculation overflow"),
            PaginationError::InvalidParams(reason) => {
                let mut text = String::from_str("Invalid pagination parameters: ");
                text.append(reason.as_str());
                text
            },
        }
    }

    /// The status number to answer with: 400 for a failure of the client,
    /// 500 for an overflow.
    pub fn status_code(&self) -> (status: u16)
        ensures
            status == self.status_number(),
            self.is_client_fault() ==> status == 400,
            !self.is_client_fault() ==> status == 500,
    {
        match self {
            PaginationError::InvalidPage(_)
            | PaginationError::InvalidLimit(_)
            | PaginationError::InvalidParams(_) => STATUS_BAD_REQUEST,
            PaginationError::Overflow => STATUS_INTERNAL_SERVER_ERROR,
        }
    }
}

impl Fault {
    /// Whether `self` is the classification of `err`: a failure of the client
    /// in the pagination field, or a failure of the server for an overflow,
    /// with the text of `err` carried over unchanged.
    pub open spec fn classifies(&self, err: PaginationError) -> bool {
        match self {
            Fault::Client { field, message } => {
                &&& err.is_client_fault()
                &&& field@ == fault_field()
                &&& message@ == err.message_text()
            },
            Fault::Server { message } => {
                &&& !err.is_client_fault()
                &&& message@ == err.message_text()
            },
        }
    }

    /// Classifies a pagination failure.
    pub fn from(err: PaginationError) -> (fault: Fault)
        ensures
            fault.classifies(err),
            fault is Client <==> err.is_client_fault(),
    {
        let message = err.message();
        match err {
            PaginationError::Overflow => Fault::Server { message },
            _ => Fault::Client { field: String::from_str("pagination"), message },
        }
    }
}

} // verus!
