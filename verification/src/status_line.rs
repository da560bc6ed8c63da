//! A line of short-lived messages.
//!
//! Time is a count of milliseconds that the caller reads from its clock and
//! hands in; the line itself reads no clock.

use vstd::prelude::*;
use vstd::string::*;
use crate::dock::{Direction, SplitLayout};
use crate::sorting::reversed;
use crate::tabular::Constraint;
use crate::text::{decimal, decimal_digits, digit_char, join, joined};

verus! {

/// The name of a message on the line.
#[derive(Clone, Copy, Debug, PartialEq, Eq, Structural)]
pub struct StatusId(pub u32);

impl StatusId {
    /// The name after `self`; after the last one the names start again.
    pub open spec fn spec_next(self) -> StatusId {
        if self.0 == u32::MAX {
            StatusId(0)
        } else {
            StatusId((self.0 + 1) as u32)
        }
    }

    /// Steps to the next name.
    pub fn next(&mut self)
        ensures
            *final(self) == old(self).spec_next(),
    {
        self.0 = self.0.wrapping_add(1);
    }
}

impl Default for StatusId {
    fn default() -> (id: StatusId)
        ensures
            id == StatusId(0),
    {
        StatusId(0)
    }
}

/// A message on the line.
#[derive(Clone, Debug)]
pub struct Message {
    pub id: StatusId,
    pub msg: String,
    /// When the message was shown.
    pub created_at: u64,
    /// How long the message stays, or `None` for one that stays until it is
    /// removed.
    pub duration: Option<u64>,
    /// Whether the line shows for how long the message has been there.
    pub show_elapsed: bool,
}

impl Message {
    /// Whether the message is still due at the time `now`: it has no
    /// duration, or its duration has not passed.
    pub open spec fn spec_is_due(self, now: u64) -> bool {
        match self.duration {
            None => true,
            Some(ttl) => self.created_at + ttl > now,
        }
    }

    pub fn is_due(&self, now: u64) -> (due: bool)
        ensures
            due == self.spec_is_due(now),
    {
        match self.duration {
            None => true,
            Some(ttl) => ttl > now || self.created_at > now - ttl,
        }
    }

    /// The milliseconds between the showing of the message and `now`.
    pub open spec fn elapsed(self, now: u64) -> nat {
        if now < self.created_at {
            0
        } else {
            (now - self.created_at) as nat
        }
    }

    /// The message as the line shows it at the time `now`: its text, and
    /// behind it the seconds it has been there where it asks for that.
    pub open spec fn shown(self, now: u64) -> Seq<char> {
        if self.show_elapsed {
            self.msg@ + " ("@ + seconds(self.elapsed(now)) + "s)"@
        } else {
            self.msg@
        }
    }

    /// The message as the line shows it at the time `now`.
    pub fn to_string(&self, now: u64) -> (s: String)
        ensures
            s@ == self.shown(now),
    {
        if self.show_elapsed {
            let elapsed = now.saturating_sub(self.created_at);
            let mut s = self.msg.clone();
            s.append(" (");
            s.append(seconds_text(elapsed).as_str());
            s.append("s)");
            s
        } else {
            self.msg.clone()
        }
    }
}

/// The digits behind the point of `thousandths` thousandths, without zeros
/// at the end.
pub open spec fn fraction_digits(thousandths: nat) -> Seq<char> {
    if thousandths % 100 == 0 {
        seq![digit_char(thousandths / 100)]
    } else if thousandths % 10 == 0 {
        seq![digit_char(thousandths / 100), digit_char(thousandths / 10 % 10)]
    } else {
        seq![
            digit_char(thousandths / 100),
            digit_char(thousandths / 10 % 10),
            digit_char(thousandths % 10),
        ]
    }
}

/// `millis` milliseconds in seconds, as a decimal number: the whole seconds,
/// and where the rest is not zero a point and the rest.
pub open spec fn seconds(millis: nat) -> Seq<char> {
    if millis % 1000 == 0 {
        decimal_digits(millis / 1000)
    } else {
        decimal_digits(millis / 1000) + seq!['.'] + fraction_digits(millis % 1000)
    }
}

fn seconds_text(millis: u64) -> (s: String)
    ensures
        s@ == seconds(millis as nat),
{
    let whole = millis / 1000;
    let rest = millis % 1000;
    let mut s = decimal(whole);
    if rest == 0 {
        return s;
    }
    proof {
        reveal_strlit(".");
    }
    s.append(".");
    s.append(decimal(rest / 100).as_str());
    if rest % 100 != 0 {
        s.append(decimal(rest / 10 % 10).as_str());
        if rest % 10 != 0 {
            s.append(decimal(rest % 10).as_str());
        }
    }
    proof {
        assert(decimal_digits((rest / 100) as nat) =~= seq![digit_char((rest / 100) as nat)]);
        assert(decimal_digits((rest / 10 % 10) as nat) =~= seq![
            digit_char((rest / 10 % 10) as nat),
        ]);
        assert(decimal_digits((rest % 10) as nat) =~= seq![digit_char((rest % 10) as nat)]);
        assert(s@ =~= seconds(millis as nat));
    }
    s
}

/// The messages that are shown, oldest first.
pub struct StatusLine {
    pub ids: StatusId,
    pub lines: Vec<Message>,
}

/// What the line shows of the message at place `i`: its number, counted from
/// one, in brackets, and the message.
pub open spec fn numbered(i: int, message: Message, now: u64) -> Seq<char> {
    "["@ + decimal_digits((i + 1) as nat) + "] "@ + message.shown(now)
}

/// The texts of the line at the time `now`, newest first.
pub open spec fn line_parts(lines: Seq<Message>, now: u64) -> Seq<Seq<char>> {
    Seq::new(lines.len(), |k: int| numbered(lines.len() - 1 - k, lines[lines.len() - 1 - k], now))
}

impl StatusLine {
    /// A line without messages.
    pub fn new() -> (line: StatusLine)
        ensures
            line.ids == StatusId(0),
            line.lines@.len() == 0,
    {
        StatusLine { ids: StatusId(0), lines: Vec::new() }
    }

    /// Puts `msg` on the line at the time `now`, for `duration` milliseconds
    /// or until it is removed, and gives it the next name.
    pub fn show(&mut self, msg: String, duration: Option<u64>, show_elapsed: bool, now: u64) -> (id:
        StatusId)
        ensures
            id == old(self).ids.spec_next(),
            final(self).ids == id,
            final(self).lines@ == old(self).lines@.push(
                Message { id, msg, created_at: now, duration, show_elapsed },
            ),
    {
        self.ids.next();
        let id = self.ids;
        self.lines.push(Message { id, msg, created_at: now, duration, show_elapsed });
        id
    }

    /// Takes off the line the messages whose duration has passed at the time
    /// `now`.
    pub fn update(&mut self, now: u64)
        ensures
            final(self).ids == old(self).ids,
            final(self).lines@ == old(self).lines@.filter(|m: Message| m.spec_is_due(now)),
    {
        let ghost orig = self.lines@;
        let ghost due = |m: Message| m.spec_is_due(now);
        let mut taken: Vec<Message> = Vec::new();
        std::mem::swap(&mut self.lines, &mut taken);
        let mut rest = reversed(taken);
        let mut kept: Vec<Message> = Vec::new();
        while rest.len() > 0
            invariant
                rest@.len() <= orig.len(),
                forall|k: int|
                    0 <= k < rest@.len() ==> #[trigger] rest@[k] == orig[orig.len() - 1 - k],
                kept@ == orig.take(orig.len() - rest@.len()).filter(due),
                due == |m: Message| m.spec_is_due(now),
            decreases rest@.len(),
        {
            let ghost i = orig.len() - rest@.len();
            let message = rest.pop().unwrap();
            proof {
                assert(message == orig[i]);
                assert(orig.take(i + 1) =~= orig.take(i).push(message));
                orig.take(i).lemma_filter_push(message, due);
            }
            if message.is_due(now) {
                kept.push(message);
            }
        }
        assert(orig.take(orig.len() as int) =~= orig);
        self.lines = kept;
    }

    /// Takes the message with the name `id` off the line.
    pub fn remove(&mut self, id: StatusId)
        ensures
            final(self).ids == old(self).ids,
            final(self).lines@ == old(self).lines@.filter(|m: Message| m.id != id),
    {
        let ghost orig = self.lines@;
        let ghost other = |m: Message| m.id != id;
        let mut taken: Vec<Message> = Vec::new();
        std::mem::swap(&mut self.lines, &mut taken);
        let mut rest = reversed(taken);
        let mut kept: Vec<Message> = Vec::new();
        while rest.len() > 0
            invariant
                rest@.len() <= orig.len(),
                forall|k: int|
                    0 <= k < rest@.len() ==> #[trigger] rest@[k] == orig[orig.len() - 1 - k],
                kept@ == orig.take(orig.len() - rest@.len()).filter(other),
                other == |m: Message| m.id != id,
            decreases rest@.len(),
        {
            let ghost i = orig.len() - rest@.len();
            let message = rest.pop().unwrap();
            proof {
                assert(message == orig[i]);
                assert(orig.take(i + 1) =~= orig.take(i).push(message));
                orig.take(i).lemma_filter_push(message, other);
            }
            if message.id.0 != id.0 {
                kept.push(message);
            }
        }
        assert(orig.take(orig.len() as int) =~= orig);
        self.lines = kept;
    }

    /// How the screen is split between the views and the line: the line is
    /// the lower part, one row high where it has a message and of no height
    /// where it has none.
    pub fn get_layout(&self) -> (layout: SplitLayout)
        ensures
            layout == (SplitLayout {
                direction: Direction::Vertical,
                first: Constraint::Fill(1),
                second: Constraint::Length(
                    if self.lines@.len() == 0 {
                        0
                    } else {
                        1
                    },
                ),
            }),
    {
        let rows: u16 = if self.lines.len() == 0 {
            0
        } else {
            1
        };
        SplitLayout {
            direction: Direction::Vertical,
            first: Constraint::Fill(1),
            second: Constraint::Length(rows),
        }
    }

    /// The line at the time `now`: the messages from the newest to the
    /// oldest, each with its number, with ` | ` between them.
    pub fn get_line(&self, now: u64) -> (line: String)
        ensures
            line@ == joined(line_parts(self.lines@, now), " | "@),
    {
        let mut parts: Vec<String> = Vec::new();
        let n = self.lines.len();
        while parts.len() < n
            invariant
                n == self.lines@.len(),
                parts@.len() <= n,
                forall|k: int|
                    0 <= k < parts@.len() ==> (#[trigger] parts@[k])@ == numbered(
                        n - 1 - k,
                        self.lines@[n - 1 - k],
                        now,
                    ),
            decreases n - parts@.len(),
        {
            let i = n - 1 - parts.len();
            let mut part = String::from_str("[");
            part.append(decimal((i + 1) as u64).as_str());
            part.append("] ");
            part.append(self.lines[i].to_string(now).as_str());
            assert(part@ =~= numbered(i as int, self.lines@[i as int], now));
            parts.push(part);
        }
        assert(parts.deep_view() =~= line_parts(self.lines@, now));
        join(&parts, " | ")
    }
}

impl Default for StatusLine {
    fn default() -> (line: StatusLine)
        ensures
            line.ids == StatusId(0),
            line.lines@.len() == 0,
    {
        StatusLine::new()
    }
}

} // verus!
