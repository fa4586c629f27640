//! The envelope of a paginated response.

use vstd::prelude::*;
use crate::params::PaginationParams;

verus! {

/// One page of items together with the descriptor of that page. Nothing
/// ties the number of items to the descriptor: the caller supplies the page
/// it fetched.
#[derive(Debug, Clone)]
pub struct PaginatedResponse<T> {
    /// The items of the page, in order.
    pub data: Vec<T>,
    /// The descriptor of the page.
    pub pagination: PaginationParams,
}

impl<T> PaginatedResponse<T> {
    /// Pairs the items with the descriptor, both unchanged.
    pub fn new(data: Vec<T>, pagination: PaginationParams) -> (r: Self)
        ensures
            r.data == data,
            r.pagination == pagination,
    {
        PaginatedResponse { data, pagination }
    }
}

} // verus!
