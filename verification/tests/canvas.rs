use music_reader::canvas::{DocumentCanvas, PageIndicator};
use music_reader::channel::{SyncCacheCommandChannel, SyncCacheCommandReceiver};
use music_reader::command::{CacheCommand, CachePageCommand, RetrievePagesCommand};

fn canvas_at(
    current_page_number: usize,
    num_pages: Option<usize>,
) -> (SyncCacheCommandChannel, DocumentCanvas, SyncCacheCommandReceiver) {
    let (channel, sender, receiver) = SyncCacheCommandChannel::open();
    let mut canvas = DocumentCanvas::new(sender);
    canvas.current_page_number = current_page_number;
    canvas.num_pages = num_pages;
    (channel, canvas, receiver)
}

fn drain(
    channel: &mut SyncCacheCommandChannel,
    receiver: &SyncCacheCommandReceiver,
) -> Vec<CacheCommand> {
    let mut commands = Vec::new();
    while let Some(command) = receiver.receive_most_important_command(channel) {
        commands.push(command);
    }
    commands
}

fn job(page: usize, height: i32) -> CacheCommand {
    CacheCommand::Cache(CachePageCommand { page, height })
}

#[test]
fn new_canvas_is_on_the_first_page() {
    let (_channel, sender, _receiver) = SyncCacheCommandChannel::open();
    let canvas = DocumentCanvas::new(sender);
    assert_eq!(canvas.current_page_number, 0);
    assert_eq!(canvas.num_pages, None);
}

#[test]
fn increase_stops_at_the_last_left_page() {
    let (_channel, mut canvas, _receiver) = canvas_at(0, Some(4));
    canvas.increase_page_number();
    assert_eq!(canvas.current_page_number, 1);
    canvas.increase_page_number();
    assert_eq!(canvas.current_page_number, 2);
    canvas.increase_page_number();
    assert_eq!(canvas.current_page_number, 2);
    assert_eq!(canvas.num_pages, Some(4));
}

#[test]
fn increase_does_nothing_without_a_page_count() {
    let (_channel, mut canvas, _receiver) = canvas_at(0, None);
    canvas.increase_page_number();
    assert_eq!(canvas.current_page_number, 0);
}

#[test]
fn increase_does_nothing_on_short_documents() {
    for num_pages in 0..3 {
        let (_channel, mut canvas, _receiver) = canvas_at(0, Some(num_pages));
        canvas.increase_page_number();
        assert_eq!(canvas.current_page_number, 0);
    }
}

#[test]
fn increase_does_nothing_beyond_the_last_left_page() {
    let (_channel, mut canvas, _receiver) = canvas_at(9, Some(4));
    canvas.increase_page_number();
    assert_eq!(canvas.current_page_number, 9);
}

#[test]
fn decrease_stops_at_the_first_page() {
    let (_channel, mut canvas, _receiver) = canvas_at(2, Some(4));
    canvas.decrease_page_number();
    assert_eq!(canvas.current_page_number, 1);
    canvas.decrease_page_number();
    assert_eq!(canvas.current_page_number, 0);
    canvas.decrease_page_number();
    assert_eq!(canvas.current_page_number, 0);
}

#[test]
fn initial_pages_are_the_current_page_and_the_next() {
    let (mut channel, canvas, receiver) = canvas_at(4, Some(10));
    canvas.cache_initial_pages(&mut channel, 800);
    assert_eq!(
        drain(&mut channel, &receiver),
        vec![job(5, 10), job(4, 10), job(4, 800), job(5, 800)]
    );
}

#[test]
fn surrounding_pages_are_two_behind_and_three_ahead() {
    let (mut channel, canvas, receiver) = canvas_at(10, Some(100));
    canvas.cache_surrounding_pages(&mut channel, 900);
    assert_eq!(
        drain(&mut channel, &receiver),
        vec![
            job(13, 10),
            job(12, 10),
            job(11, 10),
            job(10, 10),
            job(9, 10),
            job(8, 10),
            job(8, 900),
            job(9, 900),
            job(10, 900),
            job(11, 900),
            job(12, 900),
            job(13, 900),
        ]
    );
}

#[test]
fn surrounding_pages_do_not_go_below_the_first_page() {
    let (mut channel, canvas, receiver) = canvas_at(1, Some(100));
    canvas.cache_surrounding_pages(&mut channel, 900);
    let full: Vec<CacheCommand> = drain(&mut channel, &receiver).into_iter().skip(6).collect();
    assert_eq!(
        full,
        vec![job(0, 900), job(0, 900), job(1, 900), job(2, 900), job(3, 900), job(4, 900)]
    );
}

#[test]
fn one_page_document_asks_for_a_single_page() {
    let (mut channel, canvas, receiver) = canvas_at(0, Some(1));
    canvas.request_to_draw_pages(&mut channel);
    assert_eq!(
        drain(&mut channel, &receiver),
        vec![CacheCommand::Retrieve(RetrievePagesCommand::GetCurrentPage { page_number: 0 })]
    );
}

#[test]
fn longer_document_asks_for_two_pages() {
    let (mut channel, canvas, receiver) = canvas_at(6, Some(12));
    canvas.request_to_draw_pages(&mut channel);
    assert_eq!(
        drain(&mut channel, &receiver),
        vec![CacheCommand::Retrieve(RetrievePagesCommand::GetCurrentTwoPages {
            page_left_number: 6
        })]
    );
}

#[test]
fn document_of_unknown_length_asks_for_two_pages() {
    let (mut channel, canvas, receiver) = canvas_at(0, None);
    canvas.request_to_draw_pages(&mut channel);
    assert_eq!(
        drain(&mut channel, &receiver),
        vec![CacheCommand::Retrieve(RetrievePagesCommand::GetCurrentTwoPages {
            page_left_number: 0
        })]
    );
}

#[test]
fn left_and_right_page() {
    let (_channel, canvas, _receiver) = canvas_at(6, Some(12));
    assert!(canvas.is_left_page(6));
    assert!(!canvas.is_left_page(7));
    assert!(canvas.is_right_page(7));
    assert!(!canvas.is_right_page(6));
    assert!(!canvas.is_right_page(0));
}

#[test]
fn no_page_is_right_of_the_last_page_number() {
    let (_channel, canvas, _receiver) = canvas_at(usize::MAX, None);
    assert!(canvas.is_left_page(usize::MAX));
    assert!(!canvas.is_right_page(0));
    assert!(!canvas.is_right_page(usize::MAX));
}

#[test]
fn page_indicator_of_a_one_page_document() {
    let (_channel, canvas, _receiver) = canvas_at(0, Some(1));
    assert_eq!(canvas.page_indicator(), PageIndicator::Single { page: 0, num_pages: 1 });
}

#[test]
fn page_indicator_of_a_spread() {
    let (_channel, canvas, _receiver) = canvas_at(6, Some(12));
    assert_eq!(
        canvas.page_indicator(),
        PageIndicator::Spread { left: 7, right: 8, num_pages: 12 }
    );
    let (_channel, canvas, _receiver) = canvas_at(0, None);
    assert_eq!(
        canvas.page_indicator(),
        PageIndicator::Spread { left: 1, right: 2, num_pages: 0 }
    );
}

#[test]
fn closing_the_canvas_closes_the_channel() {
    let (mut channel, canvas, receiver) = canvas_at(0, Some(3));
    assert!(receiver.is_channel_open(&channel));
    canvas.close(&mut channel);
    assert!(!receiver.is_channel_open(&channel));
}
