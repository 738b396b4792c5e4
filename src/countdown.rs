use vstd::prelude::*;

verus! {

/// Where a countdown stands.
#[derive(Clone, Copy, Debug, PartialEq, Eq, Structural)]
pub enum Phase {
    /// Nothing is armed.
    Idle,
    /// Armed, with `remaining` ticks to go before expiry.
    Running { remaining: u64 },
    /// The countdown has expired and its signal was delivered.
    Expired,
}

/// One tick of the clock: the next phase, and whether expiry is signalled now.
///
/// A running countdown with at most one tick left expires on this tick, so a
/// countdown armed with zero expires on the first tick.
pub open spec fn tick_spec(p: Phase) -> (Phase, bool) {
    match p {
        Phase::Running { remaining } => if remaining <= 1 {
            (Phase::Expired, true)
        } else {
            (Phase::Running { remaining: (remaining - 1) as u64 }, false)
        },
        _ => (p, false),
    }
}

/// The phase after `n` ticks from `p`.
pub open spec fn phase_after(p: Phase, n: nat) -> Phase
    decreases n,
{
    if n == 0 {
        p
    } else {
        phase_after(tick_spec(p).0, (n - 1) as nat)
    }
}

/// How many expiry signals `n` ticks from `p` deliver.
pub open spec fn signals_after(p: Phase, n: nat) -> nat
    decreases n,
{
    if n == 0 {
        0
    } else {
        (if tick_spec(p).1 { 1nat } else { 0nat }) + signals_after(tick_spec(p).0, (n - 1) as nat)
    }
}

/// The tick on which a countdown armed with `ticks` expires.
pub open spec fn expiry_tick(ticks: u64) -> nat {
    if ticks == 0 {
        1
    } else {
        ticks as nat
    }
}

/// A countdown measured in ticks of the clock.
pub struct Countdown {
    phase: Phase,
}

impl View for Countdown {
    type V = Phase;

    closed spec fn view(&self) -> Phase {
        self.phase
    }
}

impl Countdown {
    /// A countdown that is not armed.
    pub fn new() -> (r: Countdown)
        ensures
            r@ == Phase::Idle,
    {
        Countdown { phase: Phase::Idle }
    }

    /// Arms the countdown with `ticks`, dropping any run that was under way.
    pub fn arm(&mut self, ticks: u64)
        ensures
            final(self)@ == (Phase::Running { remaining: ticks }),
    {
        self.phase = Phase::Running { remaining: ticks };
    }

    /// Stops the countdown, whatever its phase.
    pub fn cancel(&mut self)
        ensures
            final(self)@ == Phase::Idle,
    {
        self.phase = Phase::Idle;
    }

    /// Advances the clock by one tick; true exactly when the countdown expires on it.
    pub fn tick(&mut self) -> (expired: bool)
        ensures
            (final(self)@, expired) == tick_spec(old(self)@),
    {
        match self.phase {
            Phase::Running { remaining } => {
                if remaining <= 1 {
                    self.phase = Phase::Expired;
                    true
                } else {
                    self.phase = Phase::Running { remaining: remaining - 1 };
                    false
                }
            },
            _ => false,
        }
    }

    /// The current phase.
    pub fn phase(&self) -> (r: Phase)
        ensures
            r == self@,
    {
        self.phase
    }
}

/// An expired or idle countdown never signals again, however long the clock runs.
pub proof fn lemma_quiet_when_not_running(p: Phase, n: nat)
    requires
        !(p is Running),
    ensures
        signals_after(p, n) == 0,
        phase_after(p, n) == p,
    decreases n,
{
    if n > 0 {
        lemma_quiet_when_not_running(p, (n - 1) as nat);
    }
}

/// A countdown armed with `ticks` delivers no signal before its expiry tick,
/// exactly one signal from that tick on, and is expired from then on.
pub proof fn lemma_signals_of_armed(ticks: u64, n: nat)
    ensures
        signals_after(Phase::Running { remaining: ticks }, n) == (if n >= expiry_tick(ticks) {
            1nat
        } else {
            0nat
        }),
        n >= expiry_tick(ticks) ==> phase_after(Phase::Running { remaining: ticks }, n)
            == Phase::Expired,
        n < expiry_tick(ticks) ==> phase_after(Phase::Running { remaining: ticks }, n) == (
        Phase::Running { remaining: (ticks - n) as u64 }),
    decreases n,
{
    if n > 0 {
        if ticks <= 1 {
            lemma_quiet_when_not_running(Phase::Expired, (n - 1) as nat);
        } else {
            lemma_signals_of_armed((ticks - 1) as u64, (n - 1) as nat);
        }
    }
}

/// Arming with a duration of `d` ticks, `d` at least one, and letting exactly
/// `d` ticks pass delivers exactly one expiry signal, and none before.
pub proof fn law_expires_after_duration(d: u64)
    requires
        d >= 1,
    ensures
        signals_after(Phase::Running { remaining: d }, d as nat) == 1,
        signals_after(Phase::Running { remaining: d }, (d - 1) as nat) == 0,
        phase_after(Phase::Running { remaining: d }, d as nat) == Phase::Expired,
{
    lemma_signals_of_armed(d, d as nat);
    lemma_signals_of_armed(d, (d - 1) as nat);
}

/// A countdown armed with zero expires on the first tick, not later.
pub proof fn law_zero_expires_on_first_tick()
    ensures
        tick_spec(Phase::Running { remaining: 0 }) == (Phase::Expired, true),
        signals_after(Phase::Running { remaining: 0 }, 1) == 1,
{
    lemma_signals_of_armed(0, 1);
}

/// One armed run delivers at most one expiry signal: once it has expired,
/// any number of further ticks signal nothing more.
pub proof fn law_single_signal(d: u64, n: nat, m: nat)
    requires
        n >= expiry_tick(d),
    ensures
        signals_after(Phase::Running { remaining: d }, n) == 1,
        signals_after(phase_after(Phase::Running { remaining: d }, n), m) == 0,
        signals_after(Phase::Running { remaining: d }, n + m) == 1,
{
    lemma_signals_of_armed(d, n);
    lemma_signals_of_armed(d, n + m);
    lemma_quiet_when_not_running(Phase::Expired, m);
}

} // verus!
