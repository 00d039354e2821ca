//! Rendered pages and what the cache answers with.
use crate::command::PageNumber;
use std::rc::Rc;
use vstd::prelude::*;

verus! {

/// A bitmap produced for one page at a target height.
///
/// The image is shared by reference: the cache and everyone it answered
/// may hold the same page, and dropping it from the cache leaves the other
/// holders untouched.
#[derive(Debug)]
pub struct RenderedPage<T> {
    /// The target height the image was rendered for.
    pub height: i32,
    pub image: Rc<T>,
}

impl<T> RenderedPage<T> {
    /// The page that holds `image`, rendered for `height`.
    pub open spec fn rendered(height: i32, image: T) -> RenderedPage<T> {
        RenderedPage { height, image: Rc::new(image) }
    }

    /// Wraps `image`, rendered for `height`, for sharing.
    pub fn new(height: i32, image: T) -> (page: Self)
        ensures
            page == Self::rendered(height, image),
    {
        RenderedPage { height, image: Rc::new(image) }
    }

    /// Another handle to the same image.
    pub fn share(&self) -> (shared: Self)
        ensures
            shared == *self,
    {
        RenderedPage { height: self.height, image: self.image.clone() }
    }
}

/// Outcome of a cache command that a subscriber is told about.
#[derive(Debug)]
pub enum CacheResponse<T> {
    SinglePageRetrieved { page: RenderedPage<T> },
    TwoPagesRetrieved { page_left: RenderedPage<T>, page_right: RenderedPage<T> },
    /// A page that was already cached has been replaced by a new render of
    /// it.
    PageResolutionUpgraded { page_number: PageNumber, page: RenderedPage<T> },
}

/// Why a cache operation failed.
#[derive(Debug, Clone, Copy, PartialEq, Eq, Structural)]
pub enum CacheError {
    /// The page is not cached and the renderer produced nothing for it.
    PageUnavailable { page_number: PageNumber },
    /// Eviction was asked of a cache that holds fewer than two pages.
    CacheEmptyOnEvict,
}

} // verus!
