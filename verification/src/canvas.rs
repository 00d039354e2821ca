//! The viewport's position in the document and the commands it issues.
use crate::channel::{SyncCacheCommandChannel, SyncCacheCommandSender};
use crate::command::{PageNumber, RetrievePagesCommand};
use vstd::prelude::*;

verus! {

/// What the page indicator shows.
#[derive(Debug, Clone, Copy, PartialEq, Eq, Structural)]
pub enum PageIndicator {
    /// A document of one page: the current page number and the page count.
    Single { page: usize, num_pages: usize },
    /// Two pages side by side, counted from one, and the page count.
    Spread { left: usize, right: usize, num_pages: usize },
}

/// The position of the viewport in an open document.
pub struct DocumentCanvas {
    /// The page shown, or the left one of the two pages shown.
    pub current_page_number: usize,
    pub num_pages: Option<usize>,
    pub page_cache_sender: SyncCacheCommandSender,
}

impl DocumentCanvas {
    /// A canvas on the first page of a document whose page count is not
    /// known yet.
    pub fn new(page_cache_sender: SyncCacheCommandSender) -> (canvas: Self)
        ensures
            canvas.current_page_number == 0,
            canvas.num_pages is None,
    {
        DocumentCanvas { current_page_number: 0, num_pages: None, page_cache_sender }
    }

    /// The page count, taken as zero while it is not known.
    pub open spec fn known_num_pages(&self) -> usize {
        match self.num_pages {
            Some(num_pages) => num_pages,
            None => 0,
        }
    }

    /// The last page number that can be the left page of a spread: the one
    /// before the last page.
    pub open spec fn last_left_page(&self) -> usize {
        if self.known_num_pages() >= 2 {
            (self.known_num_pages() - 2) as usize
        } else {
            0
        }
    }

    /// The pages to render ahead of time around the current page: the two
    /// before it, as far as there are any, the page itself and the three
    /// after it.
    pub open spec fn surrounding_pages(&self) -> Seq<PageNumber> {
        let current = self.current_page_number;
        seq![
            if current >= 2 { (current - 2) as usize } else { 0 },
            if current >= 1 { (current - 1) as usize } else { 0 },
            current,
            (current + 1) as usize,
            (current + 2) as usize,
            (current + 3) as usize,
        ]
    }

    /// The display request for the current position: the single page of a
    /// one-page document, else the current page and the one after it.
    pub open spec fn display_request(&self) -> RetrievePagesCommand {
        if self.num_pages == Some(1usize) {
            RetrievePagesCommand::GetCurrentPage { page_number: self.current_page_number }
        } else {
            RetrievePagesCommand::GetCurrentTwoPages {
                page_left_number: self.current_page_number,
            }
        }
    }

    /// What the page indicator shows at the current position.
    pub open spec fn indicated(&self) -> PageIndicator {
        if self.known_num_pages() == 1 {
            PageIndicator::Single {
                page: self.current_page_number,
                num_pages: self.known_num_pages(),
            }
        } else {
            PageIndicator::Spread {
                left: (self.current_page_number + 1) as usize,
                right: (self.current_page_number + 2) as usize,
                num_pages: self.known_num_pages(),
            }
        }
    }

    /// Moves one page forward, unless the current page is the last left
    /// page already, or beyond it.
    pub fn increase_page_number(&mut self)
        ensures
            final(self).num_pages == old(self).num_pages,
            final(self).current_page_number == if old(self).current_page_number >= old(
                self,
            ).last_left_page() {
                old(self).current_page_number
            } else {
                (old(self).current_page_number + 1) as usize
            },
    {
        let num_pages: usize = match self.num_pages {
            Some(num_pages) => num_pages,
            None => 0,
        };
        if self.current_page_number >= num_pages.saturating_sub(2) {
            return ;
        }
        self.current_page_number += 1;
    }

    /// Moves one page back, unless the current page is the first.
    pub fn decrease_page_number(&mut self)
        ensures
            final(self).num_pages == old(self).num_pages,
            final(self).current_page_number == if old(self).current_page_number > 0 {
                (old(self).current_page_number - 1) as usize
            } else {
                0
            },
    {
        self.current_page_number = self.current_page_number.saturating_sub(1);
    }

    /// Submits render jobs at `area_height` for the current page and the
    /// one after it.
    pub fn cache_initial_pages(&self, channel: &mut SyncCacheCommandChannel, area_height: i32)
        requires
            self.current_page_number + 1 <= usize::MAX,
        ensures
            final(channel)@ == old(channel)@.with_cache_jobs(
                seq![self.current_page_number, (self.current_page_number + 1) as usize],
                area_height,
            ),
    {
        let mut pages: Vec<PageNumber> = Vec::new();
        pages.push(self.current_page_number);
        pages.push(self.current_page_number + 1);
        proof {
            assert(pages@ =~= seq![
                self.current_page_number,
                (self.current_page_number + 1) as usize,
            ]);
        }
        self.page_cache_sender.send_cache_commands(channel, pages.as_slice(), area_height);
    }

    /// Submits render jobs at `area_height` for
    /// [`Self::surrounding_pages`].
    pub fn cache_surrounding_pages(&self, channel: &mut SyncCacheCommandChannel, area_height: i32)
        requires
            self.current_page_number + 3 <= usize::MAX,
        ensures
            final(channel)@ == old(channel)@.with_cache_jobs(
                self.surrounding_pages(),
                area_height,
            ),
    {
        let mut pages: Vec<PageNumber> = Vec::new();
        pages.push(self.current_page_number.saturating_sub(2));
        pages.push(self.current_page_number.saturating_sub(1));
        pages.push(self.current_page_number);
        pages.push(self.current_page_number + 1);
        pages.push(self.current_page_number + 2);
        pages.push(self.current_page_number + 3);
        proof {
            assert(pages@ =~= self.surrounding_pages());
        }
        self.page_cache_sender.send_cache_commands(channel, pages.as_slice(), area_height);
    }

    /// Submits the display request for the current position.
    pub fn request_to_draw_pages(&self, channel: &mut SyncCacheCommandChannel)
        ensures
            final(channel)@ == old(channel)@.with_retrieve(self.display_request()),
    {
        let request = match self.num_pages {
            Some(1) => RetrievePagesCommand::GetCurrentPage {
                page_number: self.current_page_number,
            },
            _ => RetrievePagesCommand::GetCurrentTwoPages {
                page_left_number: self.current_page_number,
            },
        };
        self.page_cache_sender.send_retrieve_command(channel, request);
    }

    /// Whether `page_number` is shown on the left.
    pub fn is_left_page(&self, page_number: PageNumber) -> (left: bool)
        ensures
            left == (page_number == self.current_page_number),
    {
        page_number == self.current_page_number
    }

    /// Whether `page_number` is shown on the right.
    pub fn is_right_page(&self, page_number: PageNumber) -> (right: bool)
        ensures
            right == (page_number == self.current_page_number + 1),
    {
        page_number > 0 && page_number - 1 == self.current_page_number
    }

    /// Computes [`Self::indicated`].
    pub fn page_indicator(&self) -> (indicator: PageIndicator)
        requires
            self.known_num_pages() != 1 ==> self.current_page_number + 2 <= usize::MAX,
        ensures
            indicator == self.indicated(),
    {
        let num_pages: usize = match self.num_pages {
            Some(num_pages) => num_pages,
            None => 0,
        };
        if num_pages == 1 {
            PageIndicator::Single { page: self.current_page_number, num_pages }
        } else {
            PageIndicator::Spread {
                left: self.current_page_number + 1,
                right: self.current_page_number + 2,
                num_pages,
            }
        }
    }

    /// Closes the document: disconnects the sending end of `channel`, which
    /// ends the worker behind it.
    pub fn close(self, channel: &mut SyncCacheCommandChannel)
        ensures
            final(channel)@ == old(channel)@.without_sender(),
    {
        self.page_cache_sender.disconnect(channel);
    }
}

} // verus!
