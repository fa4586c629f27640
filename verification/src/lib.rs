//! Pagination metadata for list endpoints: a descriptor computed from an
//! optional page number, an optional page size and a total item count, the
//! navigation links that belong to it, and an envelope that pairs one page of
//! items with its descriptor.

pub mod error;
pub mod params;
pub mod response;
pub mod text;

pub use error::{Fault, PaginationError};
pub use params::PaginationParams;
pub use response::PaginatedResponse;
pub use text::decimal_string;
