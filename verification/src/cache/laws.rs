//! What holds of the page cache model.
use crate::cache::model::{caches, page_distance, CacheView};
use crate::command::PageNumber;
use crate::ordered_map::{is_highest, is_lowest};
use crate::page::{CacheResponse, RenderedPage};
use vstd::prelude::*;

verus! {

/// On a cache with at least two pages, a lowest page number and a highest
/// one, be it the highest of all or of all but the lowest, are the lowest
/// and the highest of the model, and they differ.
pub(crate) proof fn lemma_extremes<T>(view: CacheView<T>, lowest: PageNumber, highest: PageNumber)
    requires
        view.pages.dom().finite(),
        view.pages.len() >= 2,
        is_lowest(view.pages.dom(), lowest),
        is_highest(view.pages.dom().remove(lowest), highest) || is_highest(
            view.pages.dom(),
            highest,
        ),
    ensures
        view.lowest() == lowest,
        view.highest() == highest,
        lowest < highest,
{
    let keys = view.pages.dom();
    assert(keys.remove(lowest).len() >= 1);
    if is_highest(keys.remove(lowest), highest) {
        assert forall|other: PageNumber| keys.contains(other) implies other <= highest by {
            if other != lowest {
                assert(keys.remove(lowest).contains(other));
            }
        }
    } else {
        if highest == lowest {
            let other: PageNumber = keys.remove(lowest).choose();
            assert(keys.remove(lowest).contains(other));
            assert(keys.contains(other));
        }
    }
    assert(is_highest(keys, highest));
    assert(is_lowest(keys, view.lowest()));
    assert(is_highest(keys, view.highest()));
}

/// The lowest and the highest page of a cache with at least two pages are
/// cached, differ, and bound every cached page number.
pub proof fn lemma_lowest_below_highest<T>(view: CacheView<T>)
    requires
        view.pages.dom().finite(),
        view.pages.len() >= 2,
    ensures
        is_lowest(view.pages.dom(), view.lowest()),
        is_highest(view.pages.dom(), view.highest()),
        view.lowest() < view.highest(),
{
    lemma_extremes_exist(view.pages.dom());
    lemma_extremes(view, view.lowest(), view.highest());
}

/// Eviction looks at the lowest and the highest cached page only, drops one
/// of them and keeps the other, and the page it keeps is no farther from
/// the page last looked up than the page it drops. All other pages stay.
pub proof fn lemma_eviction_keeps_nearer<T>(view: CacheView<T>)
    requires
        view.pages.dom().finite(),
        view.pages.len() >= 2,
    ensures
        ({
            let dropped = view.most_distant();
            let kept = if dropped == view.lowest() {
                view.highest()
            } else {
                view.lowest()
            };
            &&& dropped == view.lowest() || dropped == view.highest()
            &&& kept != dropped
            &&& view.evicted().pages == view.pages.remove(dropped)
            &&& view.evicted().pages.contains_key(kept)
            &&& !view.evicted().pages.contains_key(dropped)
            &&& view.evicted().pages.len() == view.pages.len() - 1
            &&& page_distance(view.last_requested_page_number, kept) <= page_distance(
                view.last_requested_page_number,
                dropped,
            )
        }),
{
    lemma_lowest_below_highest(view);
}

/// Eviction never runs on a cache of two pages or fewer: where storing a
/// page leaves no more than two pages cached, every one of them stays.
pub proof fn lemma_two_pages_always_stay<T>(
    view: CacheView<T>,
    page_number: PageNumber,
    page: RenderedPage<T>,
)
    requires
        view.pages.insert(page_number, page).len() <= 2,
    ensures
        view.stored(page_number, page).pages == view.pages.insert(page_number, page),
{
}

/// Storing a page keeps a well-formed cache well formed: it holds no more
/// pages than its size limit, and the limit stays what it was.
pub proof fn lemma_stored_within_limit<T>(
    view: CacheView<T>,
    page_number: PageNumber,
    page: RenderedPage<T>,
)
    requires
        view.wf(),
    ensures
        view.stored(page_number, page).wf(),
        view.stored(page_number, page).max_num_stored_pages == view.max_num_stored_pages,
{
    let grown = CacheView { pages: view.pages.insert(page_number, page), ..view };
    if grown.pages.len() > view.max_num_stored_pages && grown.pages.len() > 2 {
        lemma_eviction_keeps_nearer(grown);
    }
}

/// After each of any number of render jobs, whatever the renderer gave, a
/// cache that started well formed holds no more pages than its size limit:
/// the configured limit, or two if that is more. Render jobs are no
/// lookups: the page last looked up stays what it was.
pub proof fn lemma_jobs_within_limit<T>(
    view: CacheView<T>,
    jobs: Seq<(PageNumber, i32, Option<T>)>,
)
    requires
        view.wf(),
    ensures
        view.jobs_done(jobs).wf(),
        view.jobs_done(jobs).max_num_stored_pages == view.max_num_stored_pages,
        view.jobs_done(jobs).pages.len() <= view.size_limit(),
        view.jobs_done(jobs).last_requested_page_number == view.last_requested_page_number,
    decreases jobs.len(),
{
    if jobs.len() > 0 {
        let job = jobs.last();
        let earlier = view.jobs_done(jobs.drop_last());
        lemma_jobs_within_limit(view, jobs.drop_last());
        if !earlier.cached_at(job.0, job.1) && job.2 is Some {
            lemma_stored_within_limit(
                earlier,
                job.0,
                RenderedPage::rendered(job.1, job.2->Some_0),
            );
        }
    }
}

/// A render job that had to render, and whose page was not evicted at once,
/// leaves the page cached at exactly the height of the job.
pub proof fn lemma_job_caches_at_height<T>(
    view: CacheView<T>,
    page_number: PageNumber,
    height: i32,
    image: T,
)
    requires
        view.wf(),
        !view.cached_at(page_number, height),
        view.job_done(page_number, height, Some(image)).0.pages.contains_key(page_number),
    ensures
        view.job_done(page_number, height, Some(image)).0.pages[page_number]
            == RenderedPage::rendered(height, image),
{
    let page = RenderedPage::rendered(height, image);
    let grown = CacheView { pages: view.pages.insert(page_number, page), ..view };
    if grown.pages.len() > view.max_num_stored_pages && grown.pages.len() > 2 {
        lemma_eviction_keeps_nearer(grown);
    }
}

/// A render job that did not fail, repeated at once at the same or a lower
/// height, answers nothing, whatever the renderer gives.
pub proof fn lemma_repeated_job_answers_nothing<T>(
    view: CacheView<T>,
    page_number: PageNumber,
    height: i32,
    again: i32,
    first: Option<T>,
    second: Option<T>,
)
    requires
        view.wf(),
        again <= height,
        view.cached_at(page_number, height) || first is Some,
    ensures
        view.job_done(page_number, height, first).0.job_done(page_number, again, second).1 is None,
{
    let after = view.job_done(page_number, height, first).0;
    if !view.cached_at(page_number, height) && after.pages.contains_key(page_number) {
        lemma_job_caches_at_height(view, page_number, height, first->Some_0);
    }
}

/// A render job that did not fail and whose page was not evicted at once,
/// repeated at the same or a lower height, does nothing: the page is
/// cached at that height or better, so the renderer is not asked again,
/// the cache stays as it is and nothing is answered.
pub proof fn lemma_repeated_job_is_noop<T, R: Fn(PageNumber, i32) -> Option<T>>(
    render: R,
    view: CacheView<T>,
    page_number: PageNumber,
    height: i32,
    again: i32,
    first: Option<T>,
)
    requires
        view.wf(),
        again <= height,
        view.cached_at(page_number, height) || first is Some,
        view.job_done(page_number, height, first).0.pages.contains_key(page_number),
    ensures
        ({
            let after = view.job_done(page_number, height, first).0;
            &&& after.cached_at(page_number, again)
            &&& forall|next: CacheView<T>, response: Option<CacheResponse<T>>|
                caches(render, after, page_number, again, next, response) ==> next == after
                    && response is None
        }),
{
    if !view.cached_at(page_number, height) {
        lemma_job_caches_at_height(view, page_number, height, first->Some_0);
    }
}

/// Where a render job leaves its page cached below `higher`, a job for the
/// same page at `higher` that the renderer serves answers with an upgrade
/// notice for that page, and the page in the notice is not the one that
/// was cached.
pub proof fn lemma_higher_job_upgrades<T>(
    view: CacheView<T>,
    page_number: PageNumber,
    height: i32,
    higher: i32,
    first: Option<T>,
    second: T,
)
    requires
        view.wf(),
        height < higher,
        view.job_done(page_number, height, first).0.pages.contains_key(page_number),
        view.job_done(page_number, height, first).0.pages[page_number].height < higher,
    ensures
        ({
            let after = view.job_done(page_number, height, first).0;
            let page = RenderedPage::rendered(higher, second);
            &&& after.job_done(page_number, higher, Some(second)).1 == Some(
                CacheResponse::PageResolutionUpgraded { page_number, page },
            )
            &&& page != after.pages[page_number]
        }),
{
}

/// Storing the page that was looked up last never evicts that page: a
/// page fetched for display is there to be handed out.
pub proof fn lemma_stored_keeps_last_requested<T>(view: CacheView<T>, page: RenderedPage<T>)
    requires
        view.pages.dom().finite(),
    ensures
        view.stored(view.last_requested_page_number, page).pages.contains_key(
            view.last_requested_page_number,
        ),
        view.stored(view.last_requested_page_number, page).pages[view.last_requested_page_number]
            == page,
{
    let shown: PageNumber = view.last_requested_page_number;
    let grown = CacheView { pages: view.pages.insert(shown, page), ..view };
    if grown.pages.len() > view.max_num_stored_pages && grown.pages.len() > 2 {
        lemma_extremes_exist(grown.pages.dom());
        let lowest: PageNumber = grown.lowest();
        let highest: PageNumber = grown.highest();
        lemma_extremes(grown, lowest, highest);
    }
}

/// A finite, non-empty set of page numbers has a lowest and a highest
/// member.
pub proof fn lemma_extremes_exist(keys: Set<PageNumber>)
    requires
        keys.finite(),
        keys.len() > 0,
    ensures
        exists|key: PageNumber| is_lowest(keys, key),
        exists|key: PageNumber| is_highest(keys, key),
    decreases keys.len(),
{
    let picked: PageNumber = keys.choose();
    let rest = keys.remove(picked);
    if rest.len() == 0 {
        assert forall|other: PageNumber| keys.contains(other) implies other == picked by {
            if other != picked {
                assert(rest.contains(other));
            }
        }
        assert(is_lowest(keys, picked));
        assert(is_highest(keys, picked));
    } else {
        lemma_extremes_exist(rest);
        let lowest_of_rest: PageNumber = choose|key: PageNumber| is_lowest(rest, key);
        let highest_of_rest: PageNumber = choose|key: PageNumber| is_highest(rest, key);
        let lowest: PageNumber = if picked < lowest_of_rest {
            picked
        } else {
            lowest_of_rest
        };
        let highest: PageNumber = if picked > highest_of_rest {
            picked
        } else {
            highest_of_rest
        };
        assert forall|other: PageNumber| keys.contains(other) implies lowest <= other && other
            <= highest by {
            if other != picked {
                assert(rest.contains(other));
            }
        }
        assert(is_lowest(keys, lowest));
        assert(is_highest(keys, highest));
    }
}

} // verus!
