//! Commands understood by the page cache.
use vstd::prelude::*;

verus! {

/// Zero-based index of a logical page within the document.
pub type PageNumber = usize;

/// Height of the cheap placeholder render that precedes every full render job.
pub const PLACEHOLDER_HEIGHT: i32 = 10;

/// Height at which a page is rendered when it has to be shown but is not cached.
pub const FALLBACK_HEIGHT: i32 = 100;

/// A request to render one page at a target pixel height and keep it cached.
#[derive(Debug, Clone, Copy, PartialEq, Eq, Structural)]
pub struct CachePageCommand {
    pub page: PageNumber,
    pub height: i32,
}

/// A request describing which page or pair of pages is shown right now.
#[derive(Debug, Clone, Copy, PartialEq, Eq, Structural)]
pub enum RetrievePagesCommand {
    GetCurrentTwoPages { page_left_number: PageNumber },
    GetCurrentPage { page_number: PageNumber },
}

/// Any command the cache can be asked to process.
#[derive(Debug, Clone, Copy, PartialEq, Eq, Structural)]
pub enum CacheCommand {
    Cache(CachePageCommand),
    Retrieve(RetrievePagesCommand),
}

/// The placeholder job for `page`.
pub open spec fn placeholder_job(page: PageNumber) -> CachePageCommand {
    CachePageCommand { page, height: PLACEHOLDER_HEIGHT }
}

/// The job that renders `page` at the full `height`.
pub open spec fn full_job(page: PageNumber, height: i32) -> CachePageCommand {
    CachePageCommand { page, height }
}

impl RetrievePagesCommand {
    /// Every page number the request names is representable: the right page
    /// of a pair is the left page number plus one.
    pub open spec fn in_range(self) -> bool {
        match self {
            RetrievePagesCommand::GetCurrentTwoPages { page_left_number } => page_left_number
                < usize::MAX,
            RetrievePagesCommand::GetCurrentPage { .. } => true,
        }
    }
}

impl CacheCommand {
    /// Every page number the command names is representable.
    pub open spec fn in_range(self) -> bool {
        match self {
            CacheCommand::Cache(_) => true,
            CacheCommand::Retrieve(request) => request.in_range(),
        }
    }

    /// Computes [`Self::in_range`].
    pub fn is_in_range(&self) -> (in_range: bool)
        ensures
            in_range == self.in_range(),
    {
        match self {
            CacheCommand::Retrieve(RetrievePagesCommand::GetCurrentTwoPages { page_left_number }) => {
                *page_left_number < usize::MAX
            },
            _ => true,
        }
    }
}

} // verus!
