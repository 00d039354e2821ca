//! The command queue between the viewport and the cache worker.
//!
//! The queue state lives in one [`SyncCacheCommandChannel`]. The two ends
//! are capabilities: whoever holds the [`SyncCacheCommandSender`] may submit
//! commands, whoever holds the [`SyncCacheCommandReceiver`] may take them.
//! Everything runs on one thread, so each operation borrows the channel for
//! the duration of the call. An end that goes away says so by disconnecting.
use crate::command::{
    full_job, placeholder_job, CacheCommand, CachePageCommand, PageNumber, RetrievePagesCommand,
    PLACEHOLDER_HEIGHT,
};
use std::collections::VecDeque;
use vstd::prelude::*;

verus! {

/// Mathematical state of a channel.
#[verifier::ext_equal]
pub struct ChannelView {
    /// Display requests in the order they were sent; the last one is the
    /// only one that matters.
    pub retrieve_requests: Seq<RetrievePagesCommand>,
    /// Render jobs, front first.
    pub cache_jobs: Seq<CachePageCommand>,
    /// The sending end has not disconnected.
    pub sender_connected: bool,
    /// The receiving end has not disconnected.
    pub receiver_connected: bool,
}

impl ChannelView {
    /// A freshly opened channel: nothing pending, both ends connected.
    pub open spec fn opened() -> ChannelView {
        ChannelView {
            retrieve_requests: Seq::empty(),
            cache_jobs: Seq::empty(),
            sender_connected: true,
            receiver_connected: true,
        }
    }

    /// State after one more display request.
    pub open spec fn with_retrieve(self, command: RetrievePagesCommand) -> ChannelView {
        ChannelView { retrieve_requests: self.retrieve_requests.push(command), ..self }
    }

    /// State after a batch of render jobs for `pages` at `height`.
    ///
    /// Every page of the batch gets a placeholder job that jumps to the very
    /// front, so the placeholders end up in reverse submission order ahead
    /// of all older jobs; the full-height jobs queue up at the back in
    /// submission order.
    pub open spec fn with_cache_jobs(self, pages: Seq<PageNumber>, height: i32) -> ChannelView {
        ChannelView {
            cache_jobs: pages.reverse().map_values(|page: PageNumber| placeholder_job(page))
                + self.cache_jobs + pages.map_values(|page: PageNumber| full_job(page, height)),
            ..self
        }
    }

    /// The command a receiver gets next: the newest display request if there
    /// is one, else the front render job, else nothing.
    pub open spec fn most_important(self) -> Option<CacheCommand> {
        if self.retrieve_requests.len() > 0 {
            Some(CacheCommand::Retrieve(self.retrieve_requests.last()))
        } else if self.cache_jobs.len() > 0 {
            Some(CacheCommand::Cache(self.cache_jobs.first()))
        } else {
            None
        }
    }

    /// State after the receiver took [`Self::most_important`]. Taking a
    /// display request discards the older requests buried under it: they
    /// are superseded and never serviced.
    pub open spec fn without_most_important(self) -> ChannelView {
        if self.retrieve_requests.len() > 0 {
            ChannelView { retrieve_requests: Seq::empty(), ..self }
        } else if self.cache_jobs.len() > 0 {
            ChannelView { cache_jobs: self.cache_jobs.drop_first(), ..self }
        } else {
            self
        }
    }

    /// State after the receiver took a command `count` times.
    pub open spec fn after_receiving(self, count: nat) -> ChannelView
        decreases count,
    {
        if count == 0 {
            self
        } else {
            self.after_receiving((count - 1) as nat).without_most_important()
        }
    }

    /// State after the sending end disconnected.
    pub open spec fn without_sender(self) -> ChannelView {
        ChannelView { sender_connected: false, ..self }
    }

    /// State after the receiving end disconnected.
    pub open spec fn without_receiver(self) -> ChannelView {
        ChannelView { receiver_connected: false, ..self }
    }
}

/// Queue state shared by one sender and one receiver.
pub struct SyncCacheCommandChannel {
    retrieve_commands: Vec<RetrievePagesCommand>,
    cache_commands: VecDeque<CachePageCommand>,
    sender_connected: bool,
    receiver_connected: bool,
}

/// The capability to submit commands to a channel.
pub struct SyncCacheCommandSender {
    token: (),
}

/// The capability to take commands from a channel.
pub struct SyncCacheCommandReceiver {
    token: (),
}

impl View for SyncCacheCommandChannel {
    type V = ChannelView;

    closed spec fn view(&self) -> ChannelView {
        ChannelView {
            retrieve_requests: self.retrieve_commands@,
            cache_jobs: self.cache_commands@,
            sender_connected: self.sender_connected,
            receiver_connected: self.receiver_connected,
        }
    }
}

impl SyncCacheCommandChannel {
    /// Opens an empty channel and hands out its two ends.
    pub fn open() -> (opened: (
        SyncCacheCommandChannel,
        SyncCacheCommandSender,
        SyncCacheCommandReceiver,
    ))
        ensures
            opened.0@ == ChannelView::opened(),
    {
        let channel = SyncCacheCommandChannel {
            retrieve_commands: Vec::new(),
            cache_commands: VecDeque::new(),
            sender_connected: true,
            receiver_connected: true,
        };
        let sender = SyncCacheCommandSender { token: () };
        let receiver = SyncCacheCommandReceiver { token: () };
        (channel, sender, receiver)
    }
}

impl SyncCacheCommandSender {
    /// Whether the receiving end of `channel` is still connected.
    pub fn is_channel_open(&self, channel: &SyncCacheCommandChannel) -> (open: bool)
        ensures
            open == channel@.receiver_connected,
    {
        channel.receiver_connected
    }

    /// Submits a display request. Nothing is deduplicated: the request is
    /// stacked on top of the ones not yet taken.
    pub fn send_retrieve_command(
        &self,
        channel: &mut SyncCacheCommandChannel,
        command: RetrievePagesCommand,
    )
        ensures
            final(channel)@ == old(channel)@.with_retrieve(command),
    {
        channel.retrieve_commands.push(command);
    }

    /// Submits, for each of `pages` in turn, a placeholder job at the front
    /// of the queue and a job at `height` at its back.
    pub fn send_cache_commands(
        &self,
        channel: &mut SyncCacheCommandChannel,
        pages: &[PageNumber],
        height: i32,
    )
        ensures
            final(channel)@ == old(channel)@.with_cache_jobs(pages@, height),
    {
        let ghost before = channel@;
        let mut i: usize = 0;
        while i < pages.len()
            invariant
                i <= pages.len(),
                channel@ == before.with_cache_jobs(pages@.take(i as int), height),
            decreases pages.len() - i,
        {
            let page: PageNumber = pages[i];
            let ghost sent = pages@.take(i as int);
            channel.cache_commands.push_front(
                CachePageCommand { page, height: PLACEHOLDER_HEIGHT },
            );
            channel.cache_commands.push_back(CachePageCommand { page, height });
            proof {
                let grown = pages@.take(i + 1);
                assert(grown == sent.push(page));
                assert(grown.reverse() =~= seq![page] + sent.reverse());
                assert(channel@.cache_jobs =~= before.with_cache_jobs(grown, height).cache_jobs);
            }
            i = i + 1;
        }
        proof {
            assert(pages@.take(pages.len() as int) == pages@);
        }
    }

    /// Gives up the sending end: the receiver sees the channel as closed.
    pub fn disconnect(self, channel: &mut SyncCacheCommandChannel)
        ensures
            final(channel)@ == old(channel)@.without_sender(),
    {
        channel.sender_connected = false;
    }
}

impl SyncCacheCommandReceiver {
    /// Whether the sending end of `channel` is still connected.
    pub fn is_channel_open(&self, channel: &SyncCacheCommandChannel) -> (open: bool)
        ensures
            open == channel@.sender_connected,
    {
        channel.sender_connected
    }

    /// Takes the most important pending command, if any. Display requests
    /// always go before render jobs.
    pub fn receive_most_important_command(&self, channel: &mut SyncCacheCommandChannel) -> (command:
        Option<CacheCommand>)
        ensures
            command == old(channel)@.most_important(),
            final(channel)@ == old(channel)@.without_most_important(),
    {
        if let Some(request) = channel.retrieve_commands.pop() {
            channel.retrieve_commands.clear();
            return Some(CacheCommand::Retrieve(request));
        } else if let Some(job) = channel.cache_commands.pop_front() {
            return Some(CacheCommand::Cache(job));
        }
        None
    }

    /// Gives up the receiving end: the sender sees the channel as closed.
    pub fn disconnect(self, channel: &mut SyncCacheCommandChannel)
        ensures
            final(channel)@ == old(channel)@.without_receiver(),
    {
        channel.receiver_connected = false;
    }
}

/// While no display request is pending, the receiver gets the render jobs
/// one by one, front first, and nothing once they are used up.
pub proof fn lemma_cache_jobs_drain_front_first(view: ChannelView, count: nat)
    requires
        view.retrieve_requests.len() == 0,
    ensures
        view.after_receiving(count).retrieve_requests.len() == 0,
        view.after_receiving(count).cache_jobs == if count <= view.cache_jobs.len() {
            view.cache_jobs.skip(count as int)
        } else {
            Seq::empty()
        },
        view.after_receiving(count).most_important() == if count < view.cache_jobs.len() {
            Some(CacheCommand::Cache(view.cache_jobs[count as int]))
        } else {
            None
        },
    decreases count,
{
    if count > 0 {
        lemma_cache_jobs_drain_front_first(view, (count - 1) as nat);
        let earlier = view.after_receiving((count - 1) as nat);
        if count <= view.cache_jobs.len() {
            assert(earlier.cache_jobs.drop_first() =~= view.cache_jobs.skip(count as int));
        } else {
            assert(earlier.without_most_important().cache_jobs =~= Seq::empty());
        }
    } else {
        assert(view.cache_jobs.skip(0) =~= view.cache_jobs);
    }
}

/// A batch of render jobs for `pages`, sent on an empty queue, queues up as
/// the placeholder jobs, last page of the batch first, and behind them the
/// jobs at `height`, first page of the batch first.
pub proof fn lemma_batch_queues_placeholders_first(pages: Seq<PageNumber>, height: i32)
    ensures
        ({
            let jobs = ChannelView::opened().with_cache_jobs(pages, height).cache_jobs;
            &&& jobs.len() == 2 * pages.len()
            &&& forall|i: int|
                0 <= i < pages.len() ==> #[trigger] jobs[i] == placeholder_job(
                    pages[pages.len() - 1 - i],
                )
            &&& forall|i: int|
                pages.len() <= i < 2 * pages.len() ==> #[trigger] jobs[i] == full_job(
                    pages[i - pages.len()],
                    height,
                )
        }),
{
}

/// Of two display requests sent one after the other, the receiver gets the
/// second; after that no display request is left, though the first was
/// never handed out.
pub proof fn lemma_last_retrieve_wins(
    view: ChannelView,
    first: RetrievePagesCommand,
    second: RetrievePagesCommand,
)
    ensures
        ({
            let sent = view.with_retrieve(first).with_retrieve(second);
            &&& sent.most_important() == Some(CacheCommand::Retrieve(second))
            &&& sent.without_most_important().retrieve_requests.len() == 0
            &&& !(sent.without_most_important().most_important() is Some
                && sent.without_most_important().most_important()->Some_0 is Retrieve)
        }),
{
}

} // verus!
