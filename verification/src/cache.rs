//! The bounded store of rendered pages.
pub mod laws;
pub mod model;

use crate::cache::laws::{lemma_extremes, lemma_stored_keeps_last_requested};
use crate::cache::model::{caches, fetches, processes, renders_any_page, shows_right_page, CacheView};
use crate::command::{CacheCommand, PageNumber, RetrievePagesCommand, FALLBACK_HEIGHT};
use crate::ordered_map::{pop_first, pop_last};
use crate::page::{CacheError, CacheResponse, RenderedPage};
use std::collections::BTreeMap;
use vstd::prelude::*;

verus! {

/// Bounded cache of rendered pages, ordered by page number.
///
/// The cache owns the renderer, a function from a page number and a target
/// height to the image of that page, or to nothing where the document has no
/// such page or the page cannot be rendered.
#[verifier::reject_recursive_types(T)]
#[verifier::reject_recursive_types(R)]
pub struct PageCache<T, R: Fn(PageNumber, i32) -> Option<T>> {
    render: R,
    max_num_stored_pages: usize,
    pages: BTreeMap<PageNumber, RenderedPage<T>>,
    last_requested_page_number: PageNumber,
}

impl<T, R: Fn(PageNumber, i32) -> Option<T>> View for PageCache<T, R> {
    type V = CacheView<T>;

    closed spec fn view(&self) -> CacheView<T> {
        CacheView {
            max_num_stored_pages: self.max_num_stored_pages,
            pages: self.pages@,
            last_requested_page_number: self.last_requested_page_number,
        }
    }
}

impl<T, R: Fn(PageNumber, i32) -> Option<T>> PageCache<T, R> {
    /// The renderer the cache owns.
    pub closed spec fn renderer(&self) -> R {
        self.render
    }

    /// The renderer may be asked for any page at any height, and the state
    /// is well formed.
    pub open spec fn wf(&self) -> bool {
        &&& renders_any_page(self.renderer())
        &&& self@.wf()
    }

    /// An empty cache around `render` that keeps at most
    /// `max_num_stored_pages` pages, or two if that is more.
    pub fn new(render: R, max_num_stored_pages: usize) -> (cache: Self)
        requires
            renders_any_page(render),
        ensures
            cache.wf(),
            cache.renderer() == render,
            cache@ == CacheView::<T>::empty(max_num_stored_pages),
    {
        PageCache {
            render,
            max_num_stored_pages,
            pages: BTreeMap::new(),
            last_requested_page_number: 0,
        }
    }

    /// Looks `page_number` up for display, without rendering. The lookup is
    /// remembered: eviction keeps what is near the page looked up last.
    pub fn get_page(&mut self, page_number: PageNumber) -> (page: Option<RenderedPage<T>>)
        requires
            old(self).wf(),
        ensures
            final(self).wf(),
            final(self).renderer() == old(self).renderer(),
            final(self)@ == old(self)@.looked_up(page_number),
            page == if old(self)@.pages.contains_key(page_number) {
                Some(old(self)@.pages[page_number])
            } else {
                None
            },
    {
        self.last_requested_page_number = page_number;
        match self.pages.get(&page_number) {
            Some(page) => Some(page.share()),
            None => None,
        }
    }

    /// The number of cached pages.
    pub fn len(&self) -> (len: usize)
        ensures
            len == self@.pages.len(),
    {
        self.pages.len()
    }

    /// The page most recently looked up for display.
    pub fn last_requested_page_number(&self) -> (page_number: PageNumber)
        ensures
            page_number == self@.last_requested_page_number,
    {
        self.last_requested_page_number
    }

    /// Whether `page_number` is cached at `height` or better.
    pub fn is_cached_at(&self, page_number: PageNumber, height: i32) -> (cached: bool)
        ensures
            cached == self@.cached_at(page_number, height),
    {
        match self.pages.get(&page_number) {
            Some(page) => page.height >= height,
            None => false,
        }
    }

    /// Stores `page` under `page_number` in place of what was cached under
    /// that number, then evicts one page if the cache has outgrown its
    /// limit. Tells of an upgrade if the page number was cached before.
    pub fn insert_page(&mut self, page_number: PageNumber, page: RenderedPage<T>) -> (notice:
        Option<CacheResponse<T>>)
        requires
            old(self).wf(),
        ensures
            final(self).wf(),
            final(self).renderer() == old(self).renderer(),
            final(self)@ == old(self)@.stored(page_number, page),
            notice == old(self)@.upgrade_notice(page_number, page),
    {
        let previous = self.pages.insert(page_number, page.share());
        let notice = match previous {
            Some(_) => Some(CacheResponse::PageResolutionUpgraded { page_number, page }),
            None => None,
        };
        if self.pages.len() > self.max_num_stored_pages && self.pages.len() > 2 {
            self.evict_farther_extreme();
        }
        notice
    }

    /// Takes in what the renderer gave for `page_number` at `height`: stores
    /// the image, if there is one, as [`Self::insert_page`] does.
    pub fn store_rendered(
        &mut self,
        page_number: PageNumber,
        height: i32,
        outcome: Option<T>,
    ) -> (response: Option<CacheResponse<T>>)
        requires
            old(self).wf(),
        ensures
            final(self).wf(),
            final(self).renderer() == old(self).renderer(),
            (final(self)@, response) == old(self)@.rendered(page_number, height, outcome),
    {
        match outcome {
            Some(image) => self.insert_page(page_number, RenderedPage::new(height, image)),
            None => None,
        }
    }

    /// Renders `page_number` at `height` and stores it, unless it is cached
    /// at that height or better already. Never fails: where the renderer
    /// gives nothing, nothing changes.
    pub fn cache_page(&mut self, page_number: PageNumber, height: i32) -> (response: Option<
        CacheResponse<T>,
    >)
        requires
            old(self).wf(),
        ensures
            final(self).wf(),
            final(self).renderer() == old(self).renderer(),
            caches(
                old(self).renderer(),
                old(self)@,
                page_number,
                height,
                final(self)@,
                response,
            ),
    {
        if self.is_cached_at(page_number, height) {
            return None;
        }
        let outcome = (self.render)(page_number, height);
        self.store_rendered(page_number, height, outcome)
    }

    /// Fetches `page_number` for display: the cached page if there is one,
    /// else the page rendered at [`FALLBACK_HEIGHT`] and stored. Fails if the
    /// page is neither cached nor rendered.
    pub fn get_page_or_cache(&mut self, page_number: PageNumber) -> (fetched: Result<
        RenderedPage<T>,
        CacheError,
    >)
        requires
            old(self).wf(),
        ensures
            final(self).wf(),
            final(self).renderer() == old(self).renderer(),
            fetches(old(self).renderer(), old(self)@, page_number, final(self)@, fetched),
    {
        if let Some(page) = self.get_page(page_number) {
            return Ok(page);
        }
        let ghost looked_up = self@;
        let _ = self.cache_page(page_number, FALLBACK_HEIGHT);
        proof {
            assert forall|page: RenderedPage<T>|
                (#[trigger] looked_up.stored(page_number, page)).pages.contains_key(page_number)
                    && looked_up.stored(page_number, page).pages[page_number] == page by {
                lemma_stored_keeps_last_requested(looked_up, page);
            }
        }
        match self.get_page(page_number) {
            Some(page) => Ok(page),
            None => Err(CacheError::PageUnavailable { page_number }),
        }
    }

    /// Processes one command.
    pub fn process_command(&mut self, command: CacheCommand) -> (result: Result<
        Option<CacheResponse<T>>,
        CacheError,
    >)
        requires
            old(self).wf(),
            command.in_range(),
        ensures
            final(self).wf(),
            final(self).renderer() == old(self).renderer(),
            processes(old(self).renderer(), old(self)@, command, final(self)@, result),
    {
        match command {
            CacheCommand::Cache(job) => Ok(self.cache_page(job.page, job.height)),
            CacheCommand::Retrieve(RetrievePagesCommand::GetCurrentTwoPages { page_left_number }) => {
                let fetched_left = self.get_page_or_cache(page_left_number);
                let ghost between = self@;
                match fetched_left {
                    Ok(page_left) => {
                        let fetched_right = self.get_page_or_cache(page_left_number + 1);
                        let result = match fetched_right {
                            Ok(page_right) => Ok(
                                Some(CacheResponse::TwoPagesRetrieved { page_left, page_right }),
                            ),
                            Err(error) => Err(error),
                        };
                        proof {
                            assert(fetches(
                                old(self).renderer(),
                                between,
                                (page_left_number + 1) as PageNumber,
                                self@,
                                fetched_right,
                            ));
                            assert(shows_right_page(
                                old(self).renderer(),
                                between,
                                page_left,
                                (page_left_number + 1) as PageNumber,
                                self@,
                                result,
                            ));
                            assert(fetches(
                                old(self).renderer(),
                                old(self)@,
                                page_left_number,
                                between,
                                fetched_left,
                            ));
                        }
                        result
                    },
                    Err(error) => {
                        assert(fetches(
                            old(self).renderer(),
                            old(self)@,
                            page_left_number,
                            between,
                            fetched_left,
                        ));
                        Err(error)
                    },
                }
            },
            CacheCommand::Retrieve(RetrievePagesCommand::GetCurrentPage { page_number }) => {
                let fetched = self.get_page_or_cache(page_number);
                assert(fetches(old(self).renderer(), old(self)@, page_number, self@, fetched));
                match fetched {
                    Ok(page) => Ok(Some(CacheResponse::SinglePageRetrieved { page })),
                    Err(error) => Err(error),
                }
            },
        }
    }

    /// Drops, of the lowest and the highest cached page, the one farther
    /// from the page last looked up. Fails, and changes nothing, on a cache
    /// with fewer than two pages.
    pub fn remove_most_distant_page(&mut self) -> (result: Result<(), CacheError>)
        requires
            old(self).wf(),
        ensures
            final(self).wf(),
            final(self).renderer() == old(self).renderer(),
            final(self)@ == old(self)@.evicted(),
            result == if old(self)@.pages.len() < 2 {
                Err::<(), CacheError>(CacheError::CacheEmptyOnEvict)
            } else {
                Ok(())
            },
    {
        if self.pages.len() < 2 {
            return Err(CacheError::CacheEmptyOnEvict);
        }
        self.evict_farther_extreme();
        Ok(())
    }

    /// The eviction step proper, on a cache that is allowed to hold one page
    /// more than its limit.
    fn evict_farther_extreme(&mut self)
        requires
            old(self)@.pages.dom().finite(),
            old(self)@.pages.len() >= 2,
        ensures
            final(self).renderer() == old(self).renderer(),
            final(self)@ == old(self)@.evicted(),
            final(self)@.pages.dom().finite(),
            final(self)@.pages.len() == old(self)@.pages.len() - 1,
    {
        let ghost before = self@;
        match pop_first(&mut self.pages) {
            Some((lowest, lowest_page)) => {
                let ghost between = self.pages@;
                match pop_last(&mut self.pages) {
                    Some((highest, highest_page)) => {
                        proof {
                            lemma_extremes(before, lowest, highest);
                        }
                        let to_lowest: usize = if self.last_requested_page_number >= lowest {
                            self.last_requested_page_number - lowest
                        } else {
                            lowest - self.last_requested_page_number
                        };
                        let to_highest: usize = if self.last_requested_page_number >= highest {
                            self.last_requested_page_number - highest
                        } else {
                            highest - self.last_requested_page_number
                        };
                        if to_lowest > to_highest {
                            self.pages.insert(highest, highest_page);
                            assert(self.pages@ =~= before.pages.remove(lowest));
                        } else {
                            self.pages.insert(lowest, lowest_page);
                            assert(self.pages@ =~= before.pages.remove(highest));
                        }
                    },
                    None => {
                        // Cannot happen: one page at least was left.
                        assert(between.len() == before.pages.len() - 1);
                        assert(false);
                    },
                }
            },
            None => {
                // Cannot happen: the cache held two pages at least.
                assert(false);
            },
        }
    }
}

} // verus!
