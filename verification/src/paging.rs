//! How a query asks for its results to be searched, sorted and cut into
//! pages. This client never pages: it asks for everything at once.

use vstd::prelude::*;

verus! {

/// The page size that stands for "no limit": the server then returns every
/// result in one response.
pub const UNBOUNDED_PAGE_SIZE: i64 = -1;

/// The direction of a sort.
#[derive(Clone, Copy, Debug, PartialEq, Eq, Structural)]
pub enum SortDirectionEnum {
    Asc,
    Desc,
}

/// Search text, paging and sorting of a query, each of them optional.
#[derive(Debug, PartialEq, Eq)]
pub struct FindFilterType {
    pub q: Option<String>,
    pub page: Option<i64>,
    pub per_page: Option<i64>,
    pub sort: Option<String>,
    pub direction: Option<SortDirectionEnum>,
}

/// What a [`FindFilterType`] says.
pub struct FindFilter {
    pub q: Option<Seq<char>>,
    pub page: Option<i64>,
    pub per_page: Option<i64>,
    pub sort: Option<Seq<char>>,
    pub direction: Option<SortDirectionEnum>,
}

impl View for FindFilterType {
    type V = FindFilter;

    open spec fn view(&self) -> FindFilter {
        FindFilter {
            q: self.q.deep_view(),
            page: self.page,
            per_page: self.per_page,
            sort: self.sort.deep_view(),
            direction: self.direction,
        }
    }
}

impl FindFilter {
    /// Everything, in one response: the unbounded page size, no page number,
    /// no search text and the server's own order.
    pub open spec fn everything() -> FindFilter {
        FindFilter {
            q: None,
            page: None,
            per_page: Some(UNBOUNDED_PAGE_SIZE),
            sort: None,
            direction: None,
        }
    }
}

impl FindFilterType {
    /// Asks for every result in one response.
    pub fn everything() -> (filter: FindFilterType)
        ensures
            filter@ == FindFilter::everything(),
            filter@.per_page == Some(-1i64),
            filter@.page is None,
    {
        FindFilterType {
            q: None,
            page: None,
            per_page: Some(UNBOUNDED_PAGE_SIZE),
            sort: None,
            direction: None,
        }
    }
}

} // verus!
