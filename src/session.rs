use vstd::prelude::*;

use crate::countdown::{Countdown, Phase, law_expires_after_duration, signals_after, tick_spec};
use crate::duration::{InputError, MAX_MINUTES, parse_minutes, parse_minutes_spec, signed_value};

verus! {

/// Ticks of the clock in one minute: the clock ticks once a second.
pub const TICKS_PER_MINUTE: u64 = 60;

/// What the user may answer when the countdown has expired.
#[derive(Clone, Copy, Debug, PartialEq, Eq, Structural)]
pub enum Choice {
    /// Leave the program.
    Quit,
    /// Go back to idle and clear the duration field.
    Reset,
    /// Go back to idle and keep the duration, ready to start again.
    Continue,
}

/// The options of the expiry dialog, in the order they are offered.
pub open spec fn choice_list() -> Seq<Choice> {
    seq![Choice::Quit, Choice::Reset, Choice::Continue]
}

/// The answer that the dialog's result stands for: the option at the index the
/// dialog gave back, or `Continue` when it was closed without one.
pub open spec fn choice_from_index_spec(index: Option<i32>) -> Choice {
    match index {
        Some(i) => if 0 <= i < choice_list().len() {
            choice_list()[i as int]
        } else {
            Choice::Continue
        },
        None => Choice::Continue,
    }
}

/// The text of each option's button.
pub open spec fn label_spec(c: Choice) -> Seq<char> {
    match c {
        Choice::Quit => "Quit"@,
        Choice::Reset => "Reset"@,
        Choice::Continue => "Continue"@,
    }
}

/// The options of the expiry dialog, in the order they are offered.
pub fn choices() -> (r: Vec<Choice>)
    ensures
        r@ == choice_list(),
{
    let r = vec![Choice::Quit, Choice::Reset, Choice::Continue];
    assert(r@ =~= choice_list());
    r
}

impl Choice {
    /// The text of this option's button.
    pub fn label(&self) -> (r: &'static str)
        ensures
            r@ == label_spec(*self),
    {
        match self {
            Choice::Quit => "Quit",
            Choice::Reset => "Reset",
            Choice::Continue => "Continue",
        }
    }

    /// The answer for what the expiry dialog gave back.
    pub fn from_index(index: Option<i32>) -> (r: Choice)
        ensures
            r == choice_from_index_spec(index),
    {
        match index {
            Some(0) => Choice::Quit,
            Some(1) => Choice::Reset,
            _ => Choice::Continue,
        }
    }
}

/// The text the duration field holds when the program starts.
pub open spec fn initial_text() -> Seq<char> {
    seq!['3', '0']
}

/// The text the duration field is cleared to.
pub open spec fn default_text() -> Seq<char> {
    seq!['0']
}

/// The abstract state of the reminder: the countdown's phase and the
/// duration text that was last submitted or set.
pub struct ReminderView {
    pub phase: Phase,
    pub field: Seq<char>,
}

/// The decisions of the reminder: what each press of a button, each tick of
/// the clock and each answer to the expiry dialog does to its state.
pub struct Reminder {
    countdown: Countdown,
    field: String,
}

impl View for Reminder {
    type V = ReminderView;

    closed spec fn view(&self) -> ReminderView {
        ReminderView { phase: self.countdown@, field: self.field@ }
    }
}

impl Reminder {
    /// An idle reminder whose duration field holds the initial text.
    pub fn new() -> (r: Reminder)
        ensures
            r@.phase == Phase::Idle,
            r@.field == initial_text(),
    {
        let field = String::from_str("30");
        proof {
            reveal_strlit("30");
        }
        assert(field@ =~= initial_text());
        Reminder { countdown: Countdown::new(), field }
    }

    /// Start pressed with `text` in the duration field.
    ///
    /// A valid duration of `m` minutes arms the countdown with `m` minutes of
    /// ticks, replacing any run under way, and returns that number of ticks.
    /// Text that is not a number, or a negative or too large one, is refused
    /// with its error and leaves the state as it was.
    pub fn start(&mut self, text: &str) -> (r: Result<u64, InputError>)
        ensures
            match parse_minutes_spec(text@) {
                Ok(m) => {
                    &&& r == Ok::<u64, InputError>((m * TICKS_PER_MINUTE) as u64)
                    &&& final(self)@.phase == (Phase::Running {
                        remaining: (m * TICKS_PER_MINUTE) as u64,
                    })
                    &&& final(self)@.field == text@
                },
                Err(e) => {
                    &&& r == Err::<u64, InputError>(e)
                    &&& final(self)@ == old(self)@
                },
            },
    {
        match parse_minutes(text) {
            Ok(m) => {
                let ticks = m as u64 * TICKS_PER_MINUTE;
                self.countdown.arm(ticks);
                self.field = String::from_str(text);
                Ok(ticks)
            },
            Err(e) => Err(e),
        }
    }

    /// Reset pressed: back to idle, with the duration field cleared, whatever
    /// the state was.
    pub fn reset(&mut self)
        ensures
            final(self)@.phase == Phase::Idle,
            final(self)@.field == default_text(),
    {
        self.countdown.cancel();
        self.field = String::from_str("0");
        proof {
            reveal_strlit("0");
        }
        assert(self.field@ =~= default_text());
    }

    /// One tick of the clock; true exactly when the countdown expires on it,
    /// which is when the expiry dialog is due.
    pub fn tick(&mut self) -> (expired: bool)
        ensures
            (final(self)@.phase, expired) == tick_spec(old(self)@.phase),
            final(self)@.field == old(self)@.field,
    {
        self.countdown.tick()
    }

    /// The user's answer to the expiry dialog; true when the program is to quit.
    ///
    /// `Quit` changes nothing; `Reset` does what the Reset button does;
    /// `Continue` goes back to idle and keeps the duration.
    pub fn resolve(&mut self, choice: Choice) -> (quit: bool)
        ensures
            quit == (choice == Choice::Quit),
            choice == Choice::Quit ==> final(self)@ == old(self)@,
            choice == Choice::Reset ==> final(self)@.phase == Phase::Idle && final(self)@.field
                == default_text(),
            choice == Choice::Continue ==> final(self)@.phase == Phase::Idle && final(self)@.field
                == old(self)@.field,
    {
        match choice {
            Choice::Quit => true,
            Choice::Reset => {
                self.reset();
                false
            },
            Choice::Continue => {
                self.countdown.cancel();
                false
            },
        }
    }

    /// The current phase of the countdown.
    pub fn phase(&self) -> (r: Phase)
        ensures
            r == self@.phase,
    {
        self.countdown.phase()
    }

    /// The duration text to show in the field.
    pub fn field(&self) -> (r: &str)
        ensures
            r@ == self@.field,
    {
        self.field.as_str()
    }
}

/// Text that is not a number, or a number below zero, is refused with the
/// matching error, so `Reminder::start` given it reports that error and leaves
/// the state as it was: an idle reminder stays idle.
pub proof fn law_bad_input_is_refused(s: Seq<char>)
    requires
        signed_value(s) is None || signed_value(s).unwrap() < 0,
    ensures
        signed_value(s) is None ==> parse_minutes_spec(s) == Err::<u32, InputError>(
            InputError::NotANumber,
        ),
        signed_value(s) is Some ==> parse_minutes_spec(s) == Err::<u32, InputError>(
            InputError::Negative,
        ),
{
}

/// Starting with a duration of `m` minutes, `m` at least one, arms a run that
/// signals expiry exactly once when `m` minutes of ticks have passed, and not
/// before.
pub proof fn law_started_run_expires_on_time(s: Seq<char>, m: u32)
    requires
        parse_minutes_spec(s) == Ok::<u32, InputError>(m),
        m >= 1,
    ensures
        signals_after(Phase::Running { remaining: (m * TICKS_PER_MINUTE) as u64 }, m as nat * TICKS_PER_MINUTE as nat)
            == 1,
        signals_after(
            Phase::Running { remaining: (m * TICKS_PER_MINUTE) as u64 },
            (m as nat * TICKS_PER_MINUTE as nat - 1) as nat,
        ) == 0,
{
    assert(m <= MAX_MINUTES);
    law_expires_after_duration((m * TICKS_PER_MINUTE) as u64);
}

} // verus!
