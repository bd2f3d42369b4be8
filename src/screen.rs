use vstd::prelude::*;

use ratatui::layout::{Constraint, Layout, Rect};
use ratatui::widgets::Block;

use crate::state::{texts, App};

verus! {

/// A rectangle of terminal cells.
#[derive(Clone, Copy, Debug, PartialEq, Eq, Structural)]
pub struct Pane {
    pub x: u16,
    pub y: u16,
    pub width: u16,
    pub height: u16,
}

/// Share of the width given to the chat pane, in percent.
pub const CHAT_PERCENT: u16 = 70;

/// Share of the width given to the side panel, in percent.
pub const SIDE_PERCENT: u16 = 30;

/// Where ratatui's horizontal layout puts two columns of the given
/// percentages inside `area`.
pub uninterp spec fn columns_of(area: Pane, left_percent: u16, right_percent: u16) -> (Pane, Pane);

/// `a - b`, or 0 where `b` exceeds `a`.
pub open spec fn minus_or_zero(a: int, b: int) -> int {
    if a > b {
        a - b
    } else {
        0
    }
}

/// Relies on ratatui's `Layout::split` with a horizontal direction: each
/// column spans the full height of the area, at its top row.
#[verifier::external_body]
fn split_columns(area: Pane, left_percent: u16, right_percent: u16) -> (r: (Pane, Pane))
    ensures
        r == columns_of(area, left_percent, right_percent),
        r.0.y == area.y && r.0.height == area.height,
        r.1.y == area.y && r.1.height == area.height,
{
    let rect = Rect { x: area.x, y: area.y, width: area.width, height: area.height };
    let c = Layout::horizontal(
        [Constraint::Percentage(left_percent), Constraint::Percentage(right_percent)],
    ).split(rect);
    (
        Pane { x: c[0].x, y: c[0].y, width: c[0].width, height: c[0].height },
        Pane { x: c[1].x, y: c[1].y, width: c[1].width, height: c[1].height },
    )
}

/// Relies on ratatui's `Block::inner` for a block with all four borders and
/// no padding: the border takes one cell on each side.
#[verifier::external_body]
fn bordered_inner(area: Pane) -> (r: Pane)
    ensures
        r.width as int == minus_or_zero(area.width as int, 2),
        r.height as int == minus_or_zero(area.height as int, 2),
{
    let rect = Rect { x: area.x, y: area.y, width: area.width, height: area.height };
    let r = Block::bordered().inner(rect);
    Pane { x: r.x, y: r.y, width: r.width, height: r.height }
}

/// The first message shown when `count` messages are listed in `rows`
/// rows, scrolled so that the newest one is visible.
pub open spec fn scroll_of(count: nat, rows: nat) -> nat {
    minus_or_zero(count as int, rows as int) as nat
}

/// The messages that a pane of `rows` rows shows.
pub open spec fn shown(messages: Seq<Seq<char>>, rows: nat) -> Seq<Seq<char>> {
    messages.subrange(scroll_of(messages.len(), rows) as int, messages.len() as int)
}

/// Vertical scroll offset of a list of `count` lines in `rows` rows: the
/// number of lines hidden above, so that the last line is on the last row.
pub fn scroll_offset(count: usize, rows: usize) -> (r: usize)
    ensures
        r == scroll_of(count as nat, rows as nat),
{
    if count > rows {
        count - rows
    } else {
        0
    }
}

/// The areas of one frame and the messages the chat pane shows.
#[derive(Debug)]
pub struct Screen {
    /// The chat pane, border included.
    pub chat: Pane,
    /// The side panel, border included.
    pub side: Pane,
    /// Rows inside the chat pane's border.
    pub rows: u16,
    /// Number of messages scrolled out above the pane.
    pub scroll: usize,
    /// The messages shown, top to bottom.
    pub lines: Vec<String>,
}

impl App {
    /// The messages that a pane of `rows` rows shows: the newest ones, as
    /// many as fit, oldest first.
    pub fn visible_messages(&self, rows: usize) -> (r: Vec<String>)
        ensures
            texts(r@) == shown(self@.messages, rows as nat),
    {
        let messages = self.messages();
        let n = messages.len();
        let start = scroll_offset(n, rows);
        let mut r: Vec<String> = Vec::new();
        let mut i: usize = start;
        while i < n
            invariant
                start <= i <= n,
                n == messages@.len(),
                texts(messages@) == self@.messages,
                start == scroll_of(n as nat, rows as nat),
                texts(r@) =~= self@.messages.subrange(start as int, i as int),
            decreases n - i,
        {
            let line = messages[i].clone();
            let ghost before = r@;
            r.push(line);
            proof {
                assert(texts(messages@)[i as int] == messages@[i as int]@);
                assert(r@ == before.push(line));
                assert(line@ == self@.messages[i as int]);
                assert(texts(r@) =~= texts(before).push(line@));
                assert(texts(r@) =~= self@.messages.subrange(
                    start as int,
                    i + 1,
                ));
            }
            i = i + 1;
        }
        r
    }

    /// Lays out a frame of `area`: the chat pane and the side panel side by
    /// side, and the chat pane scrolled to its newest message.
    pub fn screen(&self, area: Pane) -> (r: Screen)
        ensures
            (r.chat, r.side) == columns_of(area, CHAT_PERCENT, SIDE_PERCENT),
            r.chat.y == area.y && r.chat.height == area.height,
            r.side.y == area.y && r.side.height == area.height,
            r.rows as int == minus_or_zero(area.height as int, 2),
            r.scroll == scroll_of(self@.messages.len(), r.rows as nat),
            texts(r.lines@) == shown(self@.messages, r.rows as nat),
    {
        let (chat, side) = split_columns(area, CHAT_PERCENT, SIDE_PERCENT);
        let inner = bordered_inner(chat);
        let rows = inner.height;
        let scroll = scroll_offset(self.messages().len(), rows as usize);
        let lines = self.visible_messages(rows as usize);
        Screen { chat, side, rows, scroll, lines }
    }
}

} // verus!
