//! The mathematical model of the page cache: its state, what each operation
//! makes of it, and what an operation may do given what the renderer gives.
use crate::command::{CacheCommand, PageNumber, RetrievePagesCommand, FALLBACK_HEIGHT};
use crate::ordered_map::{is_highest, is_lowest};
use crate::page::{CacheError, CacheResponse, RenderedPage};
use vstd::prelude::*;

verus! {

/// How far apart two page numbers are.
pub open spec fn page_distance(a: PageNumber, b: PageNumber) -> nat {
    if a <= b {
        (b - a) as nat
    } else {
        (a - b) as nat
    }
}

/// Mathematical state of a page cache.
#[verifier::ext_equal]
pub struct CacheView<T> {
    /// The configured limit on the number of cached pages.
    pub max_num_stored_pages: usize,
    /// The cached pages by page number.
    pub pages: Map<PageNumber, RenderedPage<T>>,
    /// The page most recently looked up for display.
    pub last_requested_page_number: PageNumber,
}

impl<T> CacheView<T> {
    /// An empty cache that is to keep at most `max_num_stored_pages` pages.
    pub open spec fn empty(max_num_stored_pages: usize) -> CacheView<T> {
        CacheView { max_num_stored_pages, pages: Map::empty(), last_requested_page_number: 0 }
    }

    /// The number of pages the cache never exceeds between operations: the
    /// configured limit, but no less than two.
    pub open spec fn size_limit(self) -> nat {
        if self.max_num_stored_pages >= 2 {
            self.max_num_stored_pages as nat
        } else {
            2
        }
    }

    /// The cache holds finitely many pages, no more than its size limit.
    pub open spec fn wf(self) -> bool {
        self.pages.dom().finite() && self.pages.len() <= self.size_limit()
    }

    /// `page_number` is cached at `height` or better.
    pub open spec fn cached_at(self, page_number: PageNumber, height: i32) -> bool {
        self.pages.contains_key(page_number) && self.pages[page_number].height >= height
    }

    /// State after `page_number` was looked up for display.
    pub open spec fn looked_up(self, page_number: PageNumber) -> CacheView<T> {
        CacheView { last_requested_page_number: page_number, ..self }
    }

    /// The lowest cached page number.
    pub open spec fn lowest(self) -> PageNumber {
        choose|key: PageNumber| is_lowest(self.pages.dom(), key)
    }

    /// The highest cached page number.
    pub open spec fn highest(self) -> PageNumber {
        choose|key: PageNumber| is_highest(self.pages.dom(), key)
    }

    /// The page that eviction drops: of the lowest and the highest cached
    /// page, the one farther from the page last looked up; the highest when
    /// both are equally far.
    pub open spec fn most_distant(self) -> PageNumber {
        if page_distance(self.last_requested_page_number, self.lowest()) > page_distance(
            self.last_requested_page_number,
            self.highest(),
        ) {
            self.lowest()
        } else {
            self.highest()
        }
    }

    /// State after one eviction. A cache with fewer than two pages has
    /// nothing to evict.
    pub open spec fn evicted(self) -> CacheView<T> {
        if self.pages.len() < 2 {
            self
        } else {
            CacheView { pages: self.pages.remove(self.most_distant()), ..self }
        }
    }

    /// State after `page` was stored under `page_number`: it replaces what
    /// was cached under that number, and if the cache then holds more than
    /// both its configured limit and two pages, one page is evicted.
    pub open spec fn stored(self, page_number: PageNumber, page: RenderedPage<T>) -> CacheView<T> {
        let grown = CacheView { pages: self.pages.insert(page_number, page), ..self };
        if grown.pages.len() > self.max_num_stored_pages && grown.pages.len() > 2 {
            grown.evicted()
        } else {
            grown
        }
    }

    /// State and notice after the renderer, asked for `page_number` at
    /// `height`, gave `outcome`: what it renders is stored, and where it
    /// renders nothing, nothing changes.
    pub open spec fn rendered(self, page_number: PageNumber, height: i32, outcome: Option<T>) -> (
        CacheView<T>,
        Option<CacheResponse<T>>,
    ) {
        match outcome {
            Some(image) => {
                let page = RenderedPage::rendered(height, image);
                (self.stored(page_number, page), self.upgrade_notice(page_number, page))
            },
            None => (self, None),
        }
    }

    /// State and notice after a render job for `page_number` at `height`,
    /// where `outcome` is what the renderer gave if it was asked. It is
    /// asked only if the page is not yet cached at `height` or better.
    pub open spec fn job_done(
        self,
        page_number: PageNumber,
        height: i32,
        outcome: Option<T>,
    ) -> (CacheView<T>, Option<CacheResponse<T>>) {
        if self.cached_at(page_number, height) {
            (self, None)
        } else {
            self.rendered(page_number, height, outcome)
        }
    }

    /// State and result after `page_number` was fetched for display, where
    /// `outcome` is what the renderer gave if it was asked. A cached page
    /// is handed out as it is; otherwise the renderer is asked for the page
    /// at [`FALLBACK_HEIGHT`], and the fetch fails if it renders nothing.
    pub open spec fn fetch_done(self, page_number: PageNumber, outcome: Option<T>) -> (
        CacheView<T>,
        Result<RenderedPage<T>, CacheError>,
    ) {
        if self.pages.contains_key(page_number) {
            (self.looked_up(page_number), Ok(self.pages[page_number]))
        } else {
            match outcome {
                Some(image) => {
                    let page = RenderedPage::rendered(FALLBACK_HEIGHT, image);
                    (self.looked_up(page_number).stored(page_number, page), Ok(page))
                },
                None => (
                    self.looked_up(page_number),
                    Err(CacheError::PageUnavailable { page_number }),
                ),
            }
        }
    }

    /// State after the render jobs `jobs` were done one after another, each
    /// given as page number, height and what the renderer gave if asked.
    pub open spec fn jobs_done(self, jobs: Seq<(PageNumber, i32, Option<T>)>) -> CacheView<T>
        decreases jobs.len(),
    {
        if jobs.len() == 0 {
            self
        } else {
            let job = jobs.last();
            self.jobs_done(jobs.drop_last()).job_done(job.0, job.1, job.2).0
        }
    }

    /// What storing `page` under `page_number` tells subscribers: an upgrade
    /// notice if the page number was cached before, nothing otherwise.
    pub open spec fn upgrade_notice(
        self,
        page_number: PageNumber,
        page: RenderedPage<T>,
    ) -> Option<CacheResponse<T>> {
        if self.pages.contains_key(page_number) {
            Some(CacheResponse::PageResolutionUpgraded { page_number, page })
        } else {
            None
        }
    }
}

/// `render` may be asked for any page at any height.
pub open spec fn renders_any_page<T, R: Fn(PageNumber, i32) -> Option<T>>(render: R) -> bool {
    forall|page_number: PageNumber, height: i32| #[trigger] render.requires((page_number, height))
}

/// A render job for `page_number` at `height` may take a cache around
/// `render` from `before` to `after` and answer with `response`.
pub open spec fn caches<T, R: Fn(PageNumber, i32) -> Option<T>>(
    render: R,
    before: CacheView<T>,
    page_number: PageNumber,
    height: i32,
    after: CacheView<T>,
    response: Option<CacheResponse<T>>,
) -> bool {
    if before.cached_at(page_number, height) {
        after == before && response is None
    } else {
        exists|outcome: Option<T>| #[trigger]
            render.ensures((page_number, height), outcome) && (after, response) == before.job_done(
                page_number,
                height,
                outcome,
            )
    }
}

/// Fetching `page_number` for display may take a cache around `render`
/// from `before` to `after` and give `fetched`.
pub open spec fn fetches<T, R: Fn(PageNumber, i32) -> Option<T>>(
    render: R,
    before: CacheView<T>,
    page_number: PageNumber,
    after: CacheView<T>,
    fetched: Result<RenderedPage<T>, CacheError>,
) -> bool {
    if before.pages.contains_key(page_number) {
        (after, fetched) == before.fetch_done(page_number, None)
    } else {
        exists|outcome: Option<T>| #[trigger]
            render.ensures((page_number, FALLBACK_HEIGHT), outcome) && (after, fetched)
                == before.fetch_done(page_number, outcome)
    }
}

/// Fetching `page_number` alone for display may take a cache around
/// `render` from `before` to `after` and give `result`: the page in a
/// response, or the error of the fetch.
pub open spec fn shows_page<T, R: Fn(PageNumber, i32) -> Option<T>>(
    render: R,
    before: CacheView<T>,
    page_number: PageNumber,
    after: CacheView<T>,
    result: Result<Option<CacheResponse<T>>, CacheError>,
) -> bool {
    exists|fetched: Result<RenderedPage<T>, CacheError>| #[trigger]
        fetches(render, before, page_number, after, fetched) && result == match fetched {
            Ok(page) => Ok(Some(CacheResponse::SinglePageRetrieved { page })),
            Err(error) => Err(error),
        }
}

/// Fetching `page_left_number` and the page after it for display may take
/// a cache around `render` from `before` to `after` and give `result`. The
/// left page is fetched first; if that fails, the right page is not asked
/// for. Both pages in a response, or the error of the fetch that failed.
pub open spec fn shows_pair<T, R: Fn(PageNumber, i32) -> Option<T>>(
    render: R,
    before: CacheView<T>,
    page_left_number: PageNumber,
    after: CacheView<T>,
    result: Result<Option<CacheResponse<T>>, CacheError>,
) -> bool {
    exists|between: CacheView<T>, left: Result<RenderedPage<T>, CacheError>| #[trigger]
        fetches(render, before, page_left_number, between, left) && match left {
            Ok(page_left) => shows_right_page(
                render,
                between,
                page_left,
                (page_left_number + 1) as PageNumber,
                after,
                result,
            ),
            Err(error) => after == between && result == Err::<Option<CacheResponse<T>>, CacheError>(
                error,
            ),
        }
}

/// The second half of [`shows_pair`]: with `page_left` in hand, fetching
/// `page_right_number` may take the cache from `before` to `after` and give
/// `result`.
pub open spec fn shows_right_page<T, R: Fn(PageNumber, i32) -> Option<T>>(
    render: R,
    before: CacheView<T>,
    page_left: RenderedPage<T>,
    page_right_number: PageNumber,
    after: CacheView<T>,
    result: Result<Option<CacheResponse<T>>, CacheError>,
) -> bool {
    exists|right: Result<RenderedPage<T>, CacheError>| #[trigger]
        fetches(render, before, page_right_number, after, right) && result == match right {
            Ok(page_right) => Ok(Some(CacheResponse::TwoPagesRetrieved { page_left, page_right })),
            Err(error) => Err(error),
        }
}

/// Processing `command` may take a cache around `render` from `before` to
/// `after` and give `result`. A render job never fails.
pub open spec fn processes<T, R: Fn(PageNumber, i32) -> Option<T>>(
    render: R,
    before: CacheView<T>,
    command: CacheCommand,
    after: CacheView<T>,
    result: Result<Option<CacheResponse<T>>, CacheError>,
) -> bool {
    match command {
        CacheCommand::Cache(job) => {
            &&& result matches Ok(response)
            &&& caches(render, before, job.page, job.height, after, response)
        },
        CacheCommand::Retrieve(RetrievePagesCommand::GetCurrentPage { page_number }) => shows_page(
            render,
            before,
            page_number,
            after,
            result,
        ),
        CacheCommand::Retrieve(
            RetrievePagesCommand::GetCurrentTwoPages { page_left_number },
        ) => shows_pair(render, before, page_left_number, after, result),
    }
}

} // verus!
