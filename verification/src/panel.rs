//! What the Dream Inspector panel shows: the status line and the colour of
//! each event row.

use vstd::prelude::*;

use crate::feed::FeedState;
use crate::text::{push_str, str_eq};
use crate::url::{decimal, digit_char, push_decimal};

verus! {

/// The key under which the panel is registered.
pub const PANEL_KEY: &'static str = "DreamInspectorPanel";

/// The colour of an event row, by category.
#[derive(Debug, Copy, Clone, PartialEq, Eq, Structural)]
pub enum RowColor {
    Info,
    Accent,
    Muted,
    Default,
}

/// The text of the status line.
pub open spec fn status_line(state: FeedState) -> Seq<char> {
    match state {
        FeedState::Idle => "connecting…"@,
        FeedState::Connected { total } => "connected · "@ + decimal(total as nat) + " events"@,
        FeedState::Error(msg) => msg@,
    }
}

pub fn status_text(state: &FeedState) -> (r: String)
    ensures
        r@ == status_line(*state),
{
    match state {
        FeedState::Idle => "connecting…".to_owned(),
        FeedState::Connected { total } => {
            let mut t = "connected · ".to_owned();
            push_decimal(&mut t, *total as u64);
            push_str(&mut t, " events");
            t
        },
        FeedState::Error(msg) => msg.clone(),
    }
}

/// Whether the status line is shown as a warning: only for errors.
pub fn status_is_warning(state: &FeedState) -> (r: bool)
    ensures
        r == (*state is Error),
{
    match state {
        FeedState::Error(_) => true,
        _ => false,
    }
}

/// The colour for a row whose category has the wire name `wire`.
pub open spec fn row_color(wire: Seq<char>) -> RowColor {
    if wire == "memory-io"@ {
        RowColor::Info
    } else if wire == "dream"@ {
        RowColor::Accent
    } else if wire == "tx"@ || wire == "coord"@ || wire == "gate"@ || wire == "permission"@ {
        RowColor::Muted
    } else {
        RowColor::Default
    }
}

pub fn color_for_category(wire: &str) -> (r: RowColor)
    ensures
        r == row_color(wire@),
{
    if str_eq(wire, "memory-io") {
        RowColor::Info
    } else if str_eq(wire, "dream") {
        RowColor::Accent
    } else if str_eq(wire, "tx") || str_eq(wire, "coord") || str_eq(wire, "gate") || str_eq(
        wire,
        "permission",
    ) {
        RowColor::Muted
    } else {
        RowColor::Default
    }
}

/// The number that a string of decimal digits spells.
pub open spec fn digits_value(s: Seq<char>) -> int
    decreases s.len(),
{
    if s.len() == 0 {
        0
    } else {
        digits_value(s.drop_last()) * 10 + (s.last() as u32 - 48)
    }
}

/// Whether every character of `s` is a decimal digit.
pub open spec fn all_digits(s: Seq<char>) -> bool {
    forall|i: int| 0 <= i < s.len() ==> 48 <= #[trigger] (s[i] as u32) <= 57
}

proof fn lemma_decimal_reads_back(n: nat)
    ensures
        decimal(n).len() >= 1,
        all_digits(decimal(n)),
        digits_value(decimal(n)) == n,
    decreases n,
{
    if n < 10 {
        assert(digit_char(n as int) as u32 == 48 + n);
        assert(decimal(n).drop_last() =~= Seq::<char>::empty());
        assert(digits_value(decimal(n)) == digits_value(Seq::<char>::empty()) * 10 + n);
    } else {
        lemma_decimal_reads_back(n / 10);
        let d = decimal(n);
        assert(d.drop_last() =~= decimal(n / 10));
        assert(digit_char((n % 10) as int) as u32 == 48 + n % 10);
        assert(forall|i: int| 0 <= i < d.len() - 1 ==> d[i] == decimal(n / 10)[i]);
        assert(d.last() == digit_char((n % 10) as int));
        assert(digits_value(d) == digits_value(decimal(n / 10)) * 10 + (n % 10));
        assert((n / 10) * 10 + n % 10 == n) by (nonlinear_arith);
    }
}

/// Once the daemon has answered, the status line says so and carries the
/// number of buffered events, whatever it is (none included): it reads
/// `connected · `, then digits that spell `total`, then ` events`; it is
/// never the line shown before the first answer.
pub proof fn lemma_connected_status_reports_total(total: usize)
    ensures
        ({
            let line = status_line(FeedState::Connected { total });
            let head = "connected · "@;
            let tail = " events"@;
            &&& line.len() > head.len() + tail.len()
            &&& line.take(head.len() as int) == head
            &&& line.skip(line.len() - tail.len()) == tail
            &&& all_digits(line.subrange(head.len() as int, line.len() - tail.len()))
            &&& digits_value(line.subrange(head.len() as int, line.len() - tail.len())) == total
            &&& line != status_line(FeedState::Idle)
        }),
{
    let head = "connected · "@;
    let tail = " events"@;
    let digits = decimal(total as nat);
    lemma_decimal_reads_back(total as nat);
    let line = head + digits + tail;
    assert(line.take(head.len() as int) =~= head);
    assert(line.skip(line.len() - tail.len()) =~= tail);
    assert(line.subrange(head.len() as int, line.len() - tail.len()) =~= digits);
    reveal_strlit("connecting…");
    reveal_strlit("connected · ");
    assert(line[2] != "connecting…"@[2] || line.len() != "connecting…"@.len());
}

} // verus!
