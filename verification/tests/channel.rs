use music_reader::channel::SyncCacheCommandChannel;
use music_reader::command::{
    CacheCommand, CachePageCommand, RetrievePagesCommand, FALLBACK_HEIGHT, PLACEHOLDER_HEIGHT,
};

fn placeholder(page: usize) -> Option<CacheCommand> {
    Some(CacheCommand::Cache(CachePageCommand { page, height: 10 }))
}

fn full(page: usize, height: i32) -> Option<CacheCommand> {
    Some(CacheCommand::Cache(CachePageCommand { page, height }))
}

#[test]
fn heights_of_placeholder_and_fallback_renders() {
    assert_eq!(PLACEHOLDER_HEIGHT, 10);
    assert_eq!(FALLBACK_HEIGHT, 100);
}

#[test]
fn fresh_channel_is_open_and_empty() {
    let (mut channel, sender, receiver) = SyncCacheCommandChannel::open();
    assert!(sender.is_channel_open(&channel));
    assert!(receiver.is_channel_open(&channel));
    assert_eq!(receiver.receive_most_important_command(&mut channel), None);
}

#[test]
fn last_retrieve_request_wins() {
    let (mut channel, sender, receiver) = SyncCacheCommandChannel::open();
    let a = RetrievePagesCommand::GetCurrentPage { page_number: 4 };
    let b = RetrievePagesCommand::GetCurrentTwoPages { page_left_number: 8 };
    sender.send_retrieve_command(&mut channel, a);
    sender.send_retrieve_command(&mut channel, b);
    assert_eq!(
        receiver.receive_most_important_command(&mut channel),
        Some(CacheCommand::Retrieve(b))
    );
    assert_eq!(receiver.receive_most_important_command(&mut channel), None);
}

#[test]
fn superseded_retrieve_requests_do_not_hide_cache_jobs() {
    let (mut channel, sender, receiver) = SyncCacheCommandChannel::open();
    sender.send_cache_commands(&mut channel, &[3], 150);
    sender.send_retrieve_command(
        &mut channel,
        RetrievePagesCommand::GetCurrentPage { page_number: 1 },
    );
    sender.send_retrieve_command(
        &mut channel,
        RetrievePagesCommand::GetCurrentPage { page_number: 2 },
    );
    assert_eq!(
        receiver.receive_most_important_command(&mut channel),
        Some(CacheCommand::Retrieve(RetrievePagesCommand::GetCurrentPage { page_number: 2 }))
    );
    assert_eq!(receiver.receive_most_important_command(&mut channel), placeholder(3));
    assert_eq!(receiver.receive_most_important_command(&mut channel), full(3, 150));
    assert_eq!(receiver.receive_most_important_command(&mut channel), None);
}

#[test]
fn cache_jobs_drain_placeholders_first() {
    let (mut channel, sender, receiver) = SyncCacheCommandChannel::open();
    sender.send_cache_commands(&mut channel, &[5, 6], 200);
    assert_eq!(receiver.receive_most_important_command(&mut channel), placeholder(6));
    assert_eq!(receiver.receive_most_important_command(&mut channel), placeholder(5));
    assert_eq!(receiver.receive_most_important_command(&mut channel), full(5, 200));
    assert_eq!(receiver.receive_most_important_command(&mut channel), full(6, 200));
    assert_eq!(receiver.receive_most_important_command(&mut channel), None);
}

#[test]
fn later_placeholders_go_before_earlier_full_jobs() {
    let (mut channel, sender, receiver) = SyncCacheCommandChannel::open();
    sender.send_cache_commands(&mut channel, &[1], 300);
    sender.send_cache_commands(&mut channel, &[2, 3], 400);
    assert_eq!(receiver.receive_most_important_command(&mut channel), placeholder(3));
    assert_eq!(receiver.receive_most_important_command(&mut channel), placeholder(2));
    assert_eq!(receiver.receive_most_important_command(&mut channel), placeholder(1));
    assert_eq!(receiver.receive_most_important_command(&mut channel), full(1, 300));
    assert_eq!(receiver.receive_most_important_command(&mut channel), full(2, 400));
    assert_eq!(receiver.receive_most_important_command(&mut channel), full(3, 400));
    assert_eq!(receiver.receive_most_important_command(&mut channel), None);
}

#[test]
fn retrieve_request_goes_before_cache_jobs() {
    let (mut channel, sender, receiver) = SyncCacheCommandChannel::open();
    sender.send_cache_commands(&mut channel, &[7], 500);
    let request = RetrievePagesCommand::GetCurrentTwoPages { page_left_number: 7 };
    sender.send_retrieve_command(&mut channel, request);
    assert_eq!(
        receiver.receive_most_important_command(&mut channel),
        Some(CacheCommand::Retrieve(request))
    );
    assert_eq!(receiver.receive_most_important_command(&mut channel), placeholder(7));
}

#[test]
fn empty_batch_of_cache_jobs_changes_nothing() {
    let (mut channel, sender, receiver) = SyncCacheCommandChannel::open();
    sender.send_cache_commands(&mut channel, &[], 200);
    assert_eq!(receiver.receive_most_important_command(&mut channel), None);
}

#[test]
fn same_page_may_be_queued_twice() {
    let (mut channel, sender, receiver) = SyncCacheCommandChannel::open();
    sender.send_cache_commands(&mut channel, &[0, 0], 90);
    assert_eq!(receiver.receive_most_important_command(&mut channel), placeholder(0));
    assert_eq!(receiver.receive_most_important_command(&mut channel), placeholder(0));
    assert_eq!(receiver.receive_most_important_command(&mut channel), full(0, 90));
    assert_eq!(receiver.receive_most_important_command(&mut channel), full(0, 90));
    assert_eq!(receiver.receive_most_important_command(&mut channel), None);
}

#[test]
fn channel_closes_for_receiver_when_sender_disconnects() {
    let (mut channel, sender, receiver) = SyncCacheCommandChannel::open();
    sender.send_cache_commands(&mut channel, &[2], 120);
    sender.disconnect(&mut channel);
    assert!(!receiver.is_channel_open(&channel));
    assert_eq!(receiver.receive_most_important_command(&mut channel), placeholder(2));
}

#[test]
fn channel_closes_for_sender_when_receiver_disconnects() {
    let (mut channel, sender, receiver) = SyncCacheCommandChannel::open();
    receiver.disconnect(&mut channel);
    assert!(!sender.is_channel_open(&channel));
}

#[test]
fn command_range_check() {
    assert!(CacheCommand::Cache(CachePageCommand { page: usize::MAX, height: 1 }).is_in_range());
    assert!(CacheCommand::Retrieve(RetrievePagesCommand::GetCurrentPage {
        page_number: usize::MAX
    })
    .is_in_range());
    assert!(CacheCommand::Retrieve(RetrievePagesCommand::GetCurrentTwoPages {
        page_left_number: usize::MAX - 1
    })
    .is_in_range());
    assert!(!CacheCommand::Retrieve(RetrievePagesCommand::GetCurrentTwoPages {
        page_left_number: usize::MAX
    })
    .is_in_range());
}
