//! The event feed behind the Dream Inspector panel: a bounded buffer of the
//! most recent events, the poll cursor, the category filter, and the
//! decisions of the poll loop.

use vstd::prelude::*;

use crate::categories::{
    csv_of, in_panel_order, lemma_toggle_twice, lemma_wire_name_round_trip, toggled, wire_category,
    wire_seq, Category, CategoryFilter,
};
use crate::dream_http::{ClientError, RecentResponse, WireEvent};
use crate::text::push_str;
use crate::url::{decimal, push_decimal};

verus! {

/// The most events the feed keeps; older ones are dropped first.
pub const RING_CAP: usize = 500;

/// The poll delay after a poll that brought events, in milliseconds.
pub const FAST_POLL_MS: u64 = 1000;

/// The poll delay after an empty or failed poll, or while paused.
pub const SLOW_POLL_MS: u64 = 3000;

/// The wait before the first poll.
pub const FIRST_POLL_MS: u64 = 1000;

/// How many events one poll asks for.
pub const POLL_LIMIT: usize = 100;

/// What the poll loop does next.
#[derive(Debug, Clone, PartialEq, Eq)]
pub enum PollStep {
    /// Paused: make no request, wait this long and look again.
    Wait(u64),
    /// Ask the daemon for up to `limit` events after `after` in
    /// `categories` (comma-separated wire names).
    Fetch { after: Option<String>, limit: usize, categories: String },
}

/// The delay before the next poll after a poll with this result: quick
/// only when events came back.
pub open spec fn poll_delay(result: Result<RecentResponse, ClientError>) -> u64 {
    match result {
        Ok(resp) => if resp.events@.len() > 0 {
            FAST_POLL_MS
        } else {
            SLOW_POLL_MS
        },
        Err(_) => SLOW_POLL_MS,
    }
}

/// What the status line reports.
#[derive(Debug, Clone, PartialEq, Eq)]
pub enum FeedState {
    Idle,
    Connected { total: usize },
    Error(String),
}

/// Notification that the feed changed.
#[derive(Debug, Copy, Clone, PartialEq, Eq, Structural)]
pub enum FeedEvent {
    Updated,
}

/// The last `RING_CAP` elements of `s` (all of `s` when it is shorter).
pub open spec fn keep_last<T>(s: Seq<T>) -> Seq<T> {
    if s.len() <= RING_CAP {
        s
    } else {
        s.subrange(s.len() - RING_CAP, s.len() as int)
    }
}

/// Whether the filter `cats` lets `ev` through: its category must be a known
/// one, and switched on.
pub open spec fn shown(cats: Set<Category>, ev: WireEvent) -> bool {
    match wire_category(ev.category@) {
        Some(c) => cats.contains(c),
        None => false,
    }
}

/// The status message after a failed poll.
pub open spec fn poll_error_message(err: ClientError) -> Seq<char> {
    match err {
        ClientError::Transport => "reverie daemon unreachable — retrying"@,
        ClientError::Status(n) => "reverie returned HTTP "@ + decimal(n as nat) + " — retrying"@,
    }
}

/// Buffered events, cursor, filter and status of the feed.
pub struct FeedModel {
    events: std::collections::VecDeque<WireEvent>,
    cursor: Option<String>,
    categories: CategoryFilter,
    state: FeedState,
    paused: bool,
}

impl FeedModel {
    /// The feed holds at most `RING_CAP` events.
    #[verifier::type_invariant]
    spec fn within_cap(&self) -> bool {
        self.events@.len() <= RING_CAP
    }

    /// The buffered events, oldest first.
    pub closed spec fn events_seq(&self) -> Seq<WireEvent> {
        self.events@
    }

    /// The cursor to poll after.
    pub closed spec fn cursor_view(&self) -> Option<Seq<char>> {
        match self.cursor {
            Some(c) => Some(c@),
            None => None,
        }
    }

    pub closed spec fn filter_view(&self) -> Set<Category> {
        self.categories@
    }

    pub closed spec fn state_view(&self) -> FeedState {
        self.state
    }

    pub closed spec fn paused_view(&self) -> bool {
        self.paused
    }

    /// An empty feed, not paused, with the default filter, before any poll.
    pub fn new() -> (r: Self)
        ensures
            r.events_seq() == Seq::<WireEvent>::empty(),
            r.cursor_view() is None,
            r.filter_view() == set![Category::MemoryIo, Category::Dream],
            r.state_view() == FeedState::Idle,
            !r.paused_view(),
    {
        let categories = CategoryFilter::default();
        FeedModel {
            events: std::collections::VecDeque::with_capacity(RING_CAP),
            cursor: None,
            categories,
            state: FeedState::Idle,
            paused: false,
        }
    }

    /// The buffered events, oldest first; never more than `RING_CAP`.
    pub fn events(&self) -> (r: &std::collections::VecDeque<WireEvent>)
        ensures
            r@ == self.events_seq(),
            r@.len() <= RING_CAP,
    {
        proof {
            use_type_invariant(self);
        }
        &self.events
    }

    pub fn categories(&self) -> (r: &CategoryFilter)
        ensures
            r@ == self.filter_view(),
    {
        &self.categories
    }

    pub fn toggle_category(&mut self, c: Category)
        ensures
            final(self).filter_view() == toggled(old(self).filter_view(), c),
            final(self).events_seq() == old(self).events_seq(),
            final(self).cursor_view() == old(self).cursor_view(),
            final(self).state_view() == old(self).state_view(),
            final(self).paused_view() == old(self).paused_view(),
    {
        proof {
            use_type_invariant(&*self);
        }
        let mut categories = CategoryFilter::default();
        std::mem::swap(&mut categories, &mut self.categories);
        categories.toggle(c);
        self.categories = categories;
    }

    pub fn is_paused(&self) -> (r: bool)
        ensures
            r == self.paused_view(),
    {
        self.paused
    }

    pub fn set_paused(&mut self, paused: bool)
        ensures
            final(self).paused_view() == paused,
            final(self).events_seq() == old(self).events_seq(),
            final(self).cursor_view() == old(self).cursor_view(),
            final(self).filter_view() == old(self).filter_view(),
            final(self).state_view() == old(self).state_view(),
    {
        proof {
            use_type_invariant(&*self);
        }
        self.paused = paused;
    }

    pub fn state(&self) -> (r: &FeedState)
        ensures
            *r == self.state_view(),
    {
        &self.state
    }

    /// The cursor the next poll continues from.
    pub fn cursor(&self) -> (r: Option<&str>)
        ensures
            match r {
                Some(c) => self.cursor_view() == Some(c@),
                None => self.cursor_view() is None,
            },
    {
        match &self.cursor {
            Some(c) => Some(c.as_str()),
            None => None,
        }
    }

    /// Appends a batch of events, dropping the oldest beyond `RING_CAP`,
    /// moves the cursor when a new one is given, and reports the new total.
    pub fn push_batch(&mut self, batch: Vec<WireEvent>, next_cursor: Option<String>)
        ensures
            final(self).events_seq() == keep_last(old(self).events_seq() + batch@),
            final(self).cursor_view() == (match next_cursor {
                Some(c) => Some(c@),
                None => old(self).cursor_view(),
            }),
            final(self).state_view() == (FeedState::Connected {
                total: final(self).events_seq().len() as usize,
            }),
            final(self).filter_view() == old(self).filter_view(),
            final(self).paused_view() == old(self).paused_view(),
    {
        proof {
            use_type_invariant(&*self);
        }
        // The buffer is taken out while the batch goes in; an empty buffer
        // stands in for it meanwhile.
        let mut events: std::collections::VecDeque<WireEvent> = std::collections::VecDeque::new();
        std::mem::swap(&mut events, &mut self.events);
        let ghost start = events@;
        let ghost items = batch@;
        for ev in it: batch.into_iter()
            invariant
                events@.len() <= RING_CAP,
                items == it.seq(),
                events@ == keep_last(start + items.take(it.index() as int)),
        {
            assert(items.take(it.index() as int + 1) =~= items.take(it.index() as int).push(ev));
            if events.len() >= RING_CAP {
                events.pop_front();
            }
            events.push_back(ev);
            proof {
                let whole = start + items.take(it.index() as int);
                assert(start + items.take(it.index() as int + 1) =~= whole.push(ev));
                assert(events@ =~= keep_last(whole.push(ev)));
            }
        }
        assert(items.take(items.len() as int) =~= items);
        self.events = events;
        if let Some(c) = next_cursor {
            self.cursor = Some(c);
        }
        let total = self.events.len();
        self.state = FeedState::Connected { total };
    }

    /// Shows `msg` in the status line; the events stay.
    pub fn set_error(&mut self, msg: String)
        ensures
            final(self).state_view() == FeedState::Error(msg),
            final(self).events_seq() == old(self).events_seq(),
            final(self).cursor_view() == old(self).cursor_view(),
            final(self).filter_view() == old(self).filter_view(),
            final(self).paused_view() == old(self).paused_view(),
    {
        proof {
            use_type_invariant(&*self);
        }
        self.state = FeedState::Error(msg);
    }

    /// The buffered events that the filter lets through, oldest first.
    pub fn visible(&self) -> (r: Vec<&WireEvent>)
        ensures
            r@.map_values(|e: &WireEvent| *e) == self.events_seq().filter(
                |ev: WireEvent| shown(self.filter_view(), ev),
            ),
    {
        let ghost pred = |ev: WireEvent| shown(self.filter_view(), ev);
        let mut out: Vec<&WireEvent> = Vec::new();
        let n = self.events.len();
        let mut i: usize = 0;
        while i < n
            invariant
                n == self.events@.len(),
                i <= n,
                pred == (|ev: WireEvent| shown(self.filter_view(), ev)),
                out@.map_values(|e: &WireEvent| *e) == self.events@.take(i as int).filter(pred),
            decreases n - i,
        {
            let ev = &self.events[i];
            reveal_with_fuel(Seq::<_>::filter, 1);
            assert(self.events@.take(i as int + 1).drop_last() =~= self.events@.take(i as int));
            let keep = match Category::from_wire(ev.category.as_str()) {
                Some(c) => self.categories.is_enabled(c),
                None => false,
            };
            assert(keep == pred(self.events@[i as int]));
            let ghost before = out@;
            if keep {
                out.push(ev);
                assert(out@.map_values(|e: &WireEvent| *e) =~= before.map_values(
                    |e: &WireEvent| *e,
                ).push(*ev));
            }
            i = i + 1;
        }
        assert(self.events@.take(n as int) =~= self.events@);
        out
    }

    /// The next step of the poll loop: while paused, no request and a
    /// slow wait; otherwise a request for up to `POLL_LIMIT` events after
    /// the cursor, in the enabled categories as a comma-separated list.
    pub fn poll_step(&self) -> (r: PollStep)
        ensures
            self.paused_view() ==> r == PollStep::Wait(SLOW_POLL_MS),
            !self.paused_view() ==> {
                &&& r matches PollStep::Fetch { after, limit, categories }
                &&& limit == POLL_LIMIT
                &&& match after {
                    Some(a) => self.cursor_view() == Some(a@),
                    None => self.cursor_view() is None,
                }
                &&& categories@ == csv_of(in_panel_order(self.filter_view()))
            },
    {
        if self.paused {
            return PollStep::Wait(SLOW_POLL_MS);
        }
        let after = match &self.cursor {
            Some(c) => Some(c.clone()),
            None => None,
        };
        PollStep::Fetch { after, limit: POLL_LIMIT, categories: self.categories.as_query() }
    }

    /// Takes in the result of a poll and returns the delay before the next
    /// one: events are appended (and a quick re-poll follows when there were
    /// any); a failure is shown in the status line and the events stay.
    pub fn apply_poll(&mut self, result: Result<RecentResponse, ClientError>) -> (r: u64)
        ensures
            r == poll_delay(result),
            final(self).filter_view() == old(self).filter_view(),
            final(self).paused_view() == old(self).paused_view(),
            match result {
                Ok(resp) => {
                    &&& final(self).events_seq() == keep_last(
                        old(self).events_seq() + resp.events@,
                    )
                    &&& final(self).cursor_view() == (match resp.next_after {
                        Some(c) => Some(c@),
                        None => old(self).cursor_view(),
                    })
                    &&& final(self).state_view() == (FeedState::Connected {
                        total: final(self).events_seq().len() as usize,
                    })
                },
                Err(e) => {
                    &&& final(self).events_seq() == old(self).events_seq()
                    &&& final(self).cursor_view() == old(self).cursor_view()
                    &&& final(self).state_view() matches FeedState::Error(m)
                    &&& m@ == poll_error_message(e)
                },
            },
    {
        match result {
            Ok(resp) => {
                let delay = if resp.events.len() > 0 {
                    FAST_POLL_MS
                } else {
                    SLOW_POLL_MS
                };
                self.push_batch(resp.events, resp.next_after);
                delay
            },
            Err(e) => {
                self.set_error(error_message(&e));
                SLOW_POLL_MS
            },
        }
    }
}

/// The status message after a failed poll.
pub fn error_message(err: &ClientError) -> (r: String)
    ensures
        r@ == poll_error_message(*err),
{
    match err {
        ClientError::Transport => "reverie daemon unreachable — retrying".to_owned(),
        ClientError::Status(n) => {
            let mut m = "reverie returned HTTP ".to_owned();
            push_decimal(&mut m, *n as u64);
            push_str(&mut m, " — retrying");
            m
        },
    }
}

/// The poll loop's cadence: a round waits `FAST_POLL_MS` before the next
/// one exactly when the feed was not paused and the poll brought events
/// back; a paused round, an empty answer and a failed poll all wait
/// `SLOW_POLL_MS`.
pub proof fn lemma_poll_cadence(paused: bool, result: Result<RecentResponse, ClientError>)
    ensures
        ({
            let wait = if paused {
                SLOW_POLL_MS
            } else {
                poll_delay(result)
            };
            &&& (wait == FAST_POLL_MS) <==> (!paused && result is Ok
                && result->Ok_0.events@.len() > 0)
            &&& wait == FAST_POLL_MS || wait == SLOW_POLL_MS
        }),
{
}

/// The filter decides visibility by category alone: an event whose
/// category is the wire name of `c` is shown exactly when `c` is switched
/// on, whichever category `c` is; an event whose category is no known wire
/// name is never shown.
pub proof fn lemma_shown_follows_filter(cats: Set<Category>, ev: WireEvent, c: Category)
    ensures
        ev.category@ == wire_seq(c) ==> (shown(cats, ev) <==> cats.contains(c)),
        (forall|d: Category| ev.category@ != #[trigger] wire_seq(d)) ==> !shown(cats, ev),
{
    lemma_wire_name_round_trip(c, ev.category@);
}

/// Switching a category off and on again (or on and off) shows the same
/// events as before.
pub proof fn lemma_double_toggle_keeps_visible(events: Seq<WireEvent>, cats: Set<Category>, c: Category)
    ensures
        events.filter(|ev: WireEvent| shown(toggled(toggled(cats, c), c), ev)) == events.filter(
            |ev: WireEvent| shown(cats, ev),
        ),
{
    lemma_toggle_twice(cats, c);
    assert((|ev: WireEvent| shown(toggled(toggled(cats, c), c), ev)) =~= (|ev: WireEvent|
        shown(cats, ev)));
}

/// Taking events in two batches leaves the same buffer as taking them in
/// one: the buffer is always the newest `RING_CAP` events seen.
pub proof fn lemma_batches_compose<T>(events: Seq<T>, a: Seq<T>, b: Seq<T>)
    ensures
        keep_last(keep_last(events + a) + b) == keep_last(events + a + b),
{
    let x = events + a;
    let y = x + b;
    assert(events + a + b =~= y);
    if x.len() > RING_CAP {
        let t = x.subrange(x.len() - RING_CAP, x.len() as int);
        let z = t + b;
        assert(z =~= y.subrange(x.len() - RING_CAP, y.len() as int));
        if z.len() > RING_CAP {
            assert(z.subrange(z.len() - RING_CAP, z.len() as int) =~= y.subrange(
                y.len() - RING_CAP,
                y.len() as int,
            ));
        }
    }
}

} // verus!
