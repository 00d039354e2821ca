//! The cooperative worker that drains the command queue into the cache.
//!
//! The worker shares one scheduler with the display layer, so it does not
//! run by itself: whoever owns it asks [`SyncCacheWorker::is_running`],
//! pauses briefly so that drawing gets its turn, and then calls
//! [`SyncCacheWorker::poll`] once, round after round. A response that `poll`
//! hands back goes to the subscriber before the next round.
use crate::cache::model::{processes, renders_any_page, CacheView};
use crate::cache::PageCache;
use crate::channel::{
    ChannelView, SyncCacheCommandChannel, SyncCacheCommandReceiver, SyncCacheCommandSender,
};
use crate::command::PageNumber;
use crate::page::{CacheError, CacheResponse};
use vstd::prelude::*;

verus! {

/// The number of pages a worker's cache keeps.
pub const MAX_NUM_STORED_PAGES: usize = 20;

/// What the subscriber is told of a processed command: the response, if the
/// command gave one. A failure is not fatal and tells the subscriber
/// nothing; the viewport will ask again.
pub open spec fn response_of<T>(result: Result<Option<CacheResponse<T>>, CacheError>) -> Option<
    CacheResponse<T>,
> {
    match result {
        Ok(response) => response,
        Err(_) => None,
    }
}

/// A page cache together with the receiving end of its command queue.
#[verifier::reject_recursive_types(T)]
#[verifier::reject_recursive_types(R)]
pub struct SyncCacheWorker<T, R: Fn(PageNumber, i32) -> Option<T>> {
    cache: PageCache<T, R>,
    receiver: SyncCacheCommandReceiver,
}

/// Sets up a cache worker around `render`: opens a command queue, and puts
/// an empty cache of [`MAX_NUM_STORED_PAGES`] pages behind its receiving
/// end. The sending end is for the viewport.
pub fn spawn_sync_cache<T, R: Fn(PageNumber, i32) -> Option<T>>(render: R) -> (spawned: (
    SyncCacheCommandChannel,
    SyncCacheCommandSender,
    SyncCacheWorker<T, R>,
))
    requires
        renders_any_page(render),
    ensures
        spawned.0@ == ChannelView::opened(),
        spawned.2.wf(),
        spawned.2.cache().renderer() == render,
        spawned.2.cache()@ == CacheView::<T>::empty(MAX_NUM_STORED_PAGES),
{
    let (channel, sender, receiver) = SyncCacheCommandChannel::open();
    let cache = PageCache::new(render, MAX_NUM_STORED_PAGES);
    (channel, sender, SyncCacheWorker { cache, receiver })
}

impl<T, R: Fn(PageNumber, i32) -> Option<T>> SyncCacheWorker<T, R> {
    /// The cache the worker feeds.
    pub closed spec fn cache(&self) -> PageCache<T, R> {
        self.cache
    }

    /// The worker's cache is well formed.
    pub open spec fn wf(&self) -> bool {
        self.cache().wf()
    }

    /// Whether the worker is still running. It has terminated once the
    /// sending end of `channel` is disconnected.
    pub fn is_running(&self, channel: &SyncCacheCommandChannel) -> (running: bool)
        ensures
            running == channel@.sender_connected,
    {
        self.receiver.is_channel_open(channel)
    }

    /// One round of work: takes the most important pending command, if any,
    /// and processes it. Hands back the response to pass on to the
    /// subscriber.
    ///
    /// A command that fails, or that names a page number that is not
    /// representable, is taken off the queue and answered with nothing.
    pub fn poll(&mut self, channel: &mut SyncCacheCommandChannel) -> (response: Option<
        CacheResponse<T>,
    >)
        requires
            old(self).wf(),
        ensures
            final(self).wf(),
            final(self).cache().renderer() == old(self).cache().renderer(),
            final(channel)@ == old(channel)@.without_most_important(),
            match old(channel)@.most_important() {
                Some(command) if command.in_range() => exists|
                    result: Result<Option<CacheResponse<T>>, CacheError>,
                | #[trigger]
                    processes(
                        old(self).cache().renderer(),
                        old(self).cache()@,
                        command,
                        final(self).cache()@,
                        result,
                    ) && response == response_of(result),
                _ => final(self).cache()@ == old(self).cache()@ && response is None,
            },
    {
        match self.receiver.receive_most_important_command(channel) {
            Some(command) => {
                if !command.is_in_range() {
                    return None;
                }
                let result = self.cache.process_command(command);
                proof {
                    assert(processes(
                        old(self).cache().renderer(),
                        old(self).cache()@,
                        command,
                        self.cache()@,
                        result,
                    ));
                }
                match result {
                    Ok(response) => response,
                    Err(_) => None,
                }
            },
            None => None,
        }
    }

    /// Ends the worker: disconnects the receiving end of `channel` and
    /// releases the cache.
    pub fn shut_down(self, channel: &mut SyncCacheCommandChannel)
        ensures
            final(channel)@ == old(channel)@.without_receiver(),
    {
        self.receiver.disconnect(channel);
    }
}

} // verus!
