//! The sweep: one pass over all feeds, page by page, refreshing each. The
//! sweep decides what is done next; fetching, storing and waiting are the
//! caller's part.

use vstd::prelude::*;
use crate::cursor::Mark;
use crate::cursor::Page;
use crate::cursor::Token;
use crate::error::Error;
use crate::model::feed_views;
use crate::model::Feed;
use crate::model::FeedView;

verus! {

/// What happened since the sweep last said what to do.
pub enum Event {
    /// The timer fired: a new sweep starts, whatever was left of the last.
    Tick,
    /// The page of feeds that was asked for, or why there is none.
    Listed(Result<Page<Feed>, Error>),
    /// How the refresh that was asked for ended.
    Refreshed(Result<(), Error>),
}

/// What the caller is to do next.
#[derive(Debug)]
pub enum Action {
    /// Ask the catalog for the page of feeds behind this token.
    ListFeeds(Token),
    /// Fetch this feed's document and refresh the feed from it.
    RefreshFeed(Feed),
    /// Nothing: the sweep is over until the timer fires again.
    Rest,
}

/// How far a sweep has come: the feeds of the page at hand, how many of them
/// have been refreshed, and where the listing goes on.
pub struct Sweep {
    queue: Vec<Feed>,
    position: usize,
    has_next: bool,
    next: Token,
}

/// The contents of a `Sweep`.
pub ghost struct SweepView {
    pub queue: Seq<FeedView>,
    pub position: nat,
    pub has_next: bool,
    pub next: Mark,
}

/// The contents of an `Event`.
pub ghost enum EventView {
    Tick,
    Listed(Result<(Seq<FeedView>, bool, Mark), Error>),
    Refreshed(Result<(), Error>),
}

/// The contents of an `Action`.
pub ghost enum ActionView {
    ListFeeds(Mark),
    RefreshFeed(FeedView),
    Rest,
}

impl View for Event {
    type V = EventView;

    open spec fn view(&self) -> EventView {
        match self {
            Event::Tick => EventView::Tick,
            Event::Listed(Ok(page)) => EventView::Listed(
                Ok((feed_views(page.items@), page.cursor.has_next, page.cursor.next@)),
            ),
            Event::Listed(Err(e)) => EventView::Listed(Err(*e)),
            Event::Refreshed(outcome) => EventView::Refreshed(*outcome),
        }
    }
}

impl View for Action {
    type V = ActionView;

    open spec fn view(&self) -> ActionView {
        match self {
            Action::ListFeeds(token) => ActionView::ListFeeds(token@),
            Action::RefreshFeed(feed) => ActionView::RefreshFeed(feed@),
            Action::Rest => ActionView::Rest,
        }
    }
}

impl SweepView {
    /// Whether the position lies within the page at hand or at its end.
    pub open spec fn wf(self) -> bool {
        self.position <= self.queue.len()
    }

    /// What is to be done in this state: the next feed of the page at hand
    /// is refreshed; when the page is done the next page is asked for; when
    /// there is none the sweep rests.
    pub open spec fn pending(self) -> ActionView {
        if self.position < self.queue.len() {
            ActionView::RefreshFeed(self.queue[self.position as int])
        } else if self.has_next {
            ActionView::ListFeeds(self.next)
        } else {
            ActionView::Rest
        }
    }

    /// The state after an event. A tick starts at the top of the listing. A
    /// page that was asked for becomes the page at hand; a listing that
    /// failed ends the sweep. The end of a refresh, good or bad, moves on to
    /// the next feed. An event that was not asked for changes nothing.
    pub open spec fn after(self, event: EventView) -> SweepView {
        match event {
            EventView::Tick => SweepView {
                queue: Seq::empty(),
                position: 0,
                has_next: true,
                next: Mark::Start,
            },
            EventView::Listed(outcome) => if self.pending() is ListFeeds {
                match outcome {
                    Ok((feeds, has_next, next)) => SweepView {
                        queue: feeds,
                        position: 0,
                        has_next,
                        next,
                    },
                    Err(_) => SweepView { has_next: false, ..self },
                }
            } else {
                self
            },
            EventView::Refreshed(_) => if self.pending() is RefreshFeed {
                SweepView { position: self.position + 1, ..self }
            } else {
                self
            },
        }
    }
}

impl View for Sweep {
    type V = SweepView;

    closed spec fn view(&self) -> SweepView {
        SweepView {
            queue: feed_views(self.queue@),
            position: self.position as nat,
            has_next: self.has_next,
            next: self.next@,
        }
    }
}

impl Sweep {
    /// Whether the sweep is in order.
    pub open spec fn wf(&self) -> bool {
        self@.wf()
    }

    /// A sweep at rest: it does nothing until the timer fires.
    pub fn new() -> (sweep: Self)
        ensures
            sweep.wf(),
            sweep@.pending() == ActionView::Rest,
            sweep@ == (SweepView {
                queue: Seq::empty(),
                position: 0,
                has_next: false,
                next: Mark::Start,
            }),
    {
        let sweep = Sweep { queue: Vec::new(), position: 0, has_next: false, next: Token::Start };
        assert(sweep@.queue =~= Seq::empty());
        sweep
    }

    /// What is to be done now.
    pub fn pending(&self) -> (action: Action)
        ensures
            action@ == self@.pending(),
    {
        if self.position < self.queue.len() {
            Action::RefreshFeed(self.queue[self.position].clone())
        } else if self.has_next {
            Action::ListFeeds(self.next.clone())
        } else {
            Action::Rest
        }
    }

    /// Takes an event and says what is to be done next.
    pub fn advance(&mut self, event: Event) -> (action: Action)
        ensures
            old(self).wf() ==> final(self).wf(),
            final(self)@ == old(self)@.after(event@),
            action@ == final(self)@.pending(),
    {
        match event {
            Event::Tick => {
                self.queue = Vec::new();
                self.position = 0;
                self.has_next = true;
                self.next = Token::Start;
                assert(self@.queue =~= Seq::empty());
            },
            Event::Listed(outcome) => {
                if self.position >= self.queue.len() && self.has_next {
                    match outcome {
                        Ok(page) => {
                            self.queue = page.items;
                            self.position = 0;
                            self.has_next = page.cursor.has_next;
                            self.next = page.cursor.next;
                        },
                        Err(_) => {
                            self.has_next = false;
                        },
                    }
                }
            },
            Event::Refreshed(_) => {
                if self.position < self.queue.len() {
                    self.position = self.position + 1;
                }
            },
        }
        self.pending()
    }
}

/// A refresh that failed moves the sweep on exactly as one that went well:
/// no failure of a single feed stops the sweep or changes what it does next.
pub proof fn a_failed_refresh_does_not_stop_the_sweep(sweep: SweepView, failure: Error)
    ensures
        sweep.after(EventView::Refreshed(Err(failure))) == sweep.after(
            EventView::Refreshed(Ok(())),
        ),
{
}

/// Within a page the sweep refreshes the feeds in the order of the page,
/// each once: after the refresh of one feed it asks for the next, and after
/// the last for the next page, if there is one.
pub proof fn the_sweep_takes_each_feed_of_a_page_in_turn(
    sweep: SweepView,
    outcome: Result<(), Error>,
)
    requires
        sweep.wf(),
        sweep.pending() is RefreshFeed,
    ensures
        sweep.after(EventView::Refreshed(outcome)).wf(),
        sweep.after(EventView::Refreshed(outcome)).queue == sweep.queue,
        sweep.after(EventView::Refreshed(outcome)).position == sweep.position + 1,
        sweep.position + 1 < sweep.queue.len() ==> sweep.after(
            EventView::Refreshed(outcome),
        ).pending() == ActionView::RefreshFeed(sweep.queue[sweep.position as int + 1]),
        sweep.position + 1 == sweep.queue.len() && sweep.has_next ==> sweep.after(
            EventView::Refreshed(outcome),
        ).pending() == ActionView::ListFeeds(sweep.next),
        sweep.position + 1 == sweep.queue.len() && !sweep.has_next ==> sweep.after(
            EventView::Refreshed(outcome),
        ).pending() == ActionView::Rest,
{
}

/// A page that the sweep asked for becomes the page at hand, to be
/// refreshed from its first feed on; and when all its feeds are done the
/// sweep asks for the page behind the token that came with it, or rests
/// where the page was the last. So the sweep's requests are those of a walk
/// through the listing.
pub proof fn the_sweep_asks_for_page_after_page(
    sweep: SweepView,
    feeds: Seq<FeedView>,
    has_next: bool,
    next: Mark,
)
    requires
        sweep.pending() is ListFeeds,
    ensures
        sweep.after(EventView::Listed(Ok((feeds, has_next, next)))) == (SweepView {
            queue: feeds,
            position: 0,
            has_next,
            next,
        }),
        (SweepView { queue: feeds, position: feeds.len(), has_next, next }).pending() == (
        if has_next {
            ActionView::ListFeeds(next)
        } else {
            ActionView::Rest
        }),
{
}

/// Where the catalog cannot be listed the sweep ends there: it rests until
/// the timer fires again, once the page at hand, which is done, is left.
pub proof fn a_failed_listing_ends_the_sweep(sweep: SweepView, failure: Error)
    requires
        sweep.pending() is ListFeeds,
    ensures
        sweep.after(EventView::Listed(Err(failure))).pending() == ActionView::Rest,
{
}

} // verus!
