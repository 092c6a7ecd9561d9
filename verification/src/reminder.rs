//! The full-screen plan reminder: a message with a three-minute countdown
//! (`MM:SS`) below it.  A double click on the message closes it; so does the
//! end of the countdown.  Either way it closes once, and the plan log says
//! why.
//!
//! The window toolkit drives this state machine: it calls `tick` once a
//! second and `close_by_user` on a double click, and carries out what they
//! return.
use vstd::prelude::*;

use crate::number::nat_decimal;
use crate::text::{owned, push_char, push_str};

verus! {

/// Length of the countdown, in seconds.
pub const REMINDER_SECONDS: i32 = 180;

/// The countdown as mathematical values.
pub struct ReminderView {
    pub remaining: int,
    pub closed: bool,
    pub message: Seq<char>,
}

/// A shown reminder.
pub struct Reminder {
    remaining: i32,
    closed: bool,
    message: String,
}

impl Reminder {
    /// At most the whole countdown remains, and an open reminder has time left.
    #[verifier::type_invariant]
    spec fn countdown_valid(self) -> bool {
        &&& 0 <= self.remaining <= REMINDER_SECONDS
        &&& (self.closed || self.remaining > 0)
    }
}

impl View for Reminder {
    type V = ReminderView;

    closed spec fn view(&self) -> ReminderView {
        ReminderView { remaining: self.remaining as int, closed: self.closed, message: self.message@ }
    }
}

/// Why a reminder closed.
#[derive(Debug, Clone, Copy, PartialEq, Eq)]
pub enum CloseReason {
    /// The user double-clicked the message.
    DoubleClick,
    /// The countdown ran out.
    Countdown,
}

/// The words of a close reason in the plan log.
pub open spec fn reason_text(r: CloseReason) -> Seq<char> {
    match r {
        CloseReason::DoubleClick => "closed by user double-click"@,
        CloseReason::Countdown => "auto-closed after countdown"@,
    }
}

/// `n` as at least two decimal digits (`{:02}`).
pub open spec fn two_digits(n: nat) -> Seq<char> {
    if n < 10 {
        seq!['0'] + nat_decimal(n)
    } else {
        nat_decimal(n)
    }
}

/// The countdown label for `secs` seconds: `MM:SS`.
pub open spec fn countdown_label(secs: nat) -> Seq<char> {
    two_digits(secs / 60) + seq![':'] + two_digits(secs % 60)
}

/// What the window does after a tick.
#[derive(Debug)]
pub enum TickAction {
    /// The reminder is already closed: nothing.
    Nothing,
    /// Show this countdown label.
    ShowCountdown(String),
    /// Hide the window and log this line (`Reminder REASON: MESSAGE`).
    Close(String),
}

/// The plan log line of a closing reminder.
pub open spec fn close_line(r: CloseReason, message: Seq<char>) -> Seq<char> {
    "Reminder "@ + reason_text(r) + ": "@ + message
}

/// The state after one tick of the countdown.
pub open spec fn ticked(v: ReminderView) -> ReminderView {
    if v.closed {
        v
    } else if v.remaining - 1 <= 0 {
        ReminderView { remaining: v.remaining - 1, closed: true, ..v }
    } else {
        ReminderView { remaining: v.remaining - 1, ..v }
    }
}

/// The state after `n` ticks.
pub open spec fn ticked_n(v: ReminderView, n: nat) -> ReminderView
    decreases n,
{
    if n == 0 {
        v
    } else {
        ticked(ticked_n(v, (n - 1) as nat))
    }
}

/// `{:02}` for numbers below 100.
fn push_two_digits(out: &mut String, n: i32)
    requires
        0 <= n < 100,
    ensures
        final(out)@ == old(out)@ + two_digits(n as nat),
{
    let tens: u8 = (n / 10) as u8;
    let ones: u8 = (n % 10) as u8;
    push_char(out, (tens + 48) as char);
    push_char(out, (ones + 48) as char);
    proof {
        let d = n as nat;
        if d < 10 {
            assert(nat_decimal(d) == seq![((d + 48) as u32) as char]);
            assert(final(out)@ =~= old(out)@ + two_digits(d));
        } else {
            assert(nat_decimal(d / 10) == seq![(((d / 10) + 48) as u32) as char]);
            assert(nat_decimal(d) == nat_decimal(d / 10).push((((d % 10) + 48) as u32) as char));
            assert(final(out)@ =~= old(out)@ + two_digits(d));
        }
    }
}

/// The countdown label for `secs` seconds (`MM:SS`).
pub fn countdown_text(secs: i32) -> (r: String)
    requires
        0 <= secs < 6000,
    ensures
        r@ == countdown_label(secs as nat),
{
    let mut s = String::new();
    push_two_digits(&mut s, secs / 60);
    push_char(&mut s, ':');
    push_two_digits(&mut s, secs % 60);
    s
}

impl Reminder {
    /// A reminder for `message`, with the whole countdown to go.
    pub fn new(message: &str) -> (r: Self)
        ensures
            r@ == (ReminderView { remaining: REMINDER_SECONDS as int, closed: false, message: message@ }),
    {
        Reminder { remaining: REMINDER_SECONDS, closed: false, message: owned(message) }
    }

    /// Whether the reminder has closed.
    pub fn is_closed(&self) -> (r: bool)
        ensures
            r == self@.closed,
    {
        self.closed
    }

    /// Seconds left on the countdown.
    pub fn remaining(&self) -> (r: i32)
        ensures
            r == self@.remaining,
            0 <= r <= REMINDER_SECONDS,
    {
        proof {
            use_type_invariant(self);
        }
        self.remaining
    }

    /// The plan log line when the reminder appears: `Reminder triggered: MESSAGE`.
    pub fn triggered_line(&self) -> (r: String)
        ensures
            r@ == "Reminder triggered: "@ + self@.message,
    {
        let mut s = owned("Reminder triggered: ");
        push_str(&mut s, self.message.as_str());
        s
    }

    fn closing_line(&self, reason: CloseReason) -> (r: String)
        ensures
            r@ == close_line(reason, self@.message),
    {
        let mut s = owned("Reminder ");
        match reason {
            CloseReason::DoubleClick => push_str(&mut s, "closed by user double-click"),
            CloseReason::Countdown => push_str(&mut s, "auto-closed after countdown"),
        }
        push_str(&mut s, ": ");
        push_str(&mut s, self.message.as_str());
        s
    }

    /// One second of the countdown.
    pub fn tick(&mut self) -> (a: TickAction)
        ensures
            final(self)@ == ticked(old(self)@),
            0 <= final(self)@.remaining <= REMINDER_SECONDS,
            old(self)@.closed ==> a is Nothing,
            !old(self)@.closed && final(self)@.closed ==> (a matches TickAction::Close(line)
                && line@ == close_line(CloseReason::Countdown, old(self)@.message)),
            !final(self)@.closed ==> (a matches TickAction::ShowCountdown(label) && label@
                == countdown_label(final(self)@.remaining as nat)),
    {
        proof {
            use_type_invariant(&*self);
        }
        if self.closed {
            return TickAction::Nothing;
        }
        let left = self.remaining - 1;
        if left <= 0 {
            self.closed = true;
            self.remaining = left;
            TickAction::Close(self.closing_line(CloseReason::Countdown))
        } else {
            self.remaining = left;
            TickAction::ShowCountdown(countdown_text(left))
        }
    }

    /// A double click on the message: closes the reminder unless it already
    /// closed, and gives the plan log line.
    pub fn close_by_user(&mut self) -> (line: Option<String>)
        ensures
            final(self)@ == (ReminderView { closed: true, ..old(self)@ }),
            match line {
                Some(l) => !old(self)@.closed && l@ == close_line(
                    CloseReason::DoubleClick,
                    old(self)@.message,
                ),
                None => old(self)@.closed,
            },
    {
        proof {
            use_type_invariant(&*self);
        }
        if self.closed {
            None
        } else {
            self.closed = true;
            Some(self.closing_line(CloseReason::DoubleClick))
        }
    }
}

/// A reminder left alone counts down one second per tick and closes by
/// itself exactly at the last second of the countdown: after `n` ticks, with
/// `n` at most the countdown length, `180 - n` seconds remain and it is
/// closed just when `n` is 180.  Later ticks change nothing.
pub proof fn reminder_closes_when_countdown_ends(message: Seq<char>, n: nat)
    ensures
        n <= REMINDER_SECONDS ==> ticked_n(
            ReminderView { remaining: REMINDER_SECONDS as int, closed: false, message },
            n,
        ) == (ReminderView {
            remaining: REMINDER_SECONDS - n,
            closed: n == REMINDER_SECONDS,
            message,
        }),
        n >= REMINDER_SECONDS ==> ticked_n(
            ReminderView { remaining: REMINDER_SECONDS as int, closed: false, message },
            n,
        ) == (ReminderView { remaining: 0, closed: true, message }),
    decreases n,
{
    if n > 0 {
        reminder_closes_when_countdown_ends(message, (n - 1) as nat);
    }
}

} // verus!
