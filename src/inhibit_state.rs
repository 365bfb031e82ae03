//! The inhibit-state machine: it combines the audio candidate with the manual toggle and holds a
//! rising audio candidate back for a minimum duration before it counts.
//!
//! The machine does no I/O. Each input returns what the caller must do: start or cancel the
//! one-shot timer, and the effective state to deliver, if any.

use vstd::prelude::*;

verus! {

/// Events of the inhibit-state machine: the effective state it delivers, and the expiry of its
/// minimum-duration timer.
#[derive(Clone, Copy, Debug, PartialEq, Eq, Structural)]
pub enum InhibitIdleStateEvent {
    InhibitIdle(bool),
    AudioInhibitTimerFired,
}

/// Inputs of the machine.
#[derive(Clone, Copy, Debug, PartialEq, Eq, Structural)]
pub enum InhibitInput {
    /// The audio worker's current belief that some sink plays audio.
    AudioCandidate(bool),
    /// The minimum-duration timer expired.
    TimerFired,
    /// The user flipped the manual inhibit.
    ManualToggle,
}

/// What the caller does with the one-shot timer.
#[derive(Clone, Copy, Debug, PartialEq, Eq, Structural)]
pub enum TimerCommand {
    /// Leave it as it is.
    Keep,
    /// Start it for the given number of seconds; on expiry feed [InhibitInput::TimerFired].
    Start(u64),
    /// Cancel it; an expiry that still arrives is ignored.
    Cancel,
}

/// The outcome of one input.
#[derive(Clone, Copy, Debug, PartialEq, Eq, Structural)]
pub struct InhibitOutput {
    pub timer: TimerCommand,
    /// The effective state to deliver, if any.
    pub emission: Option<bool>,
}

/// Mathematical model of [InhibitIdleState].
pub struct InhibitModel {
    pub min_duration: Option<u64>,
    pub timer_armed: bool,
    pub audio: bool,
    pub manual: bool,
    pub effective: bool,
}

/// Recomputes the effective state; it is delivered when it changed or when `force` asks.
pub open spec fn settle(m: InhibitModel, force: bool) -> (InhibitModel, Option<bool>) {
    let new = m.audio || m.manual;
    let m2 = InhibitModel { effective: new, ..m };
    if new != m.effective || force {
        (m2, Some(new))
    } else {
        (m2, None)
    }
}

/// One transition of the machine.
pub open spec fn step(m: InhibitModel, input: InhibitInput) -> (InhibitModel, InhibitOutput) {
    match input {
        InhibitInput::AudioCandidate(true) => match m.min_duration {
            None => {
                let (m2, e) = settle(InhibitModel { audio: true, ..m }, false);
                (m2, InhibitOutput { timer: TimerCommand::Keep, emission: e })
            },
            Some(d) => if m.timer_armed {
                (m, InhibitOutput { timer: TimerCommand::Keep, emission: None })
            } else {
                (
                    InhibitModel { timer_armed: true, ..m },
                    InhibitOutput { timer: TimerCommand::Start(d), emission: None },
                )
            },
        },
        InhibitInput::AudioCandidate(false) => {
            let (m2, e) = settle(InhibitModel { audio: false, timer_armed: false, ..m }, false);
            (
                m2,
                InhibitOutput {
                    timer: if m.timer_armed {
                        TimerCommand::Cancel
                    } else {
                        TimerCommand::Keep
                    },
                    emission: e,
                },
            )
        },
        InhibitInput::TimerFired => if m.timer_armed {
            let (m2, e) = settle(InhibitModel { audio: true, ..m }, false);
            (m2, InhibitOutput { timer: TimerCommand::Keep, emission: e })
        } else {
            (m, InhibitOutput { timer: TimerCommand::Keep, emission: None })
        },
        InhibitInput::ManualToggle => {
            let (m2, e) = settle(InhibitModel { manual: !m.manual, ..m }, true);
            (m2, InhibitOutput { timer: TimerCommand::Keep, emission: e })
        },
    }
}

/// The state the machine starts in.
pub open spec fn initial(min_duration: Option<u64>) -> InhibitModel {
    InhibitModel { min_duration, timer_armed: false, audio: false, manual: false, effective: false }
}

/// Manager of the idle-inhibit state.
#[derive(Debug)]
pub struct InhibitIdleState {
    inhibit_idle_timeout: Option<u64>,
    timer_armed: bool,
    is_audio_inhibited: bool,
    is_manual_inhibited: bool,
    is_inhibited: bool,
}

impl View for InhibitIdleState {
    type V = InhibitModel;

    closed spec fn view(&self) -> InhibitModel {
        InhibitModel {
            min_duration: self.inhibit_idle_timeout,
            timer_armed: self.timer_armed,
            audio: self.is_audio_inhibited,
            manual: self.is_manual_inhibited,
            effective: self.is_inhibited,
        }
    }
}

impl InhibitIdleState {
    /// A machine with nothing inhibited. `inhibit_idle_timeout` is the minimum audio duration in
    /// seconds; `None` lets audio count at once.
    pub fn new(inhibit_idle_timeout: Option<u64>) -> (r: Self)
        ensures
            r@ == initial(inhibit_idle_timeout),
    {
        InhibitIdleState {
            inhibit_idle_timeout,
            timer_armed: false,
            is_audio_inhibited: false,
            is_manual_inhibited: false,
            is_inhibited: false,
        }
    }

    /// The effective inhibit state.
    pub fn is_inhibited(&self) -> (r: bool)
        ensures
            r == self@.effective,
    {
        self.is_inhibited
    }

    /// The manual inhibit state.
    pub fn is_manual_inhibited(&self) -> (r: bool)
        ensures
            r == self@.manual,
    {
        self.is_manual_inhibited
    }

    /// Whether audio currently counts towards inhibiting.
    pub fn is_audio_inhibited(&self) -> (r: bool)
        ensures
            r == self@.audio,
    {
        self.is_audio_inhibited
    }

    /// Whether the minimum-duration timer is live.
    pub fn is_timer_armed(&self) -> (r: bool)
        ensures
            r == self@.timer_armed,
    {
        self.timer_armed
    }

    fn update_is_idle_inhibited(&mut self, force: bool) -> (r: Option<bool>)
        ensures
            (final(self)@, r) == settle(old(self)@, force),
    {
        let should_inhibit = self.is_audio_inhibited || self.is_manual_inhibited;
        if self.is_inhibited == should_inhibit && !force {
            return None;
        }
        self.is_inhibited = should_inhibit;
        Some(should_inhibit)
    }

    /// Flips the manual inhibit and delivers the effective state, changed or not.
    pub fn toggle_manual_inhibit(&mut self) -> (r: InhibitOutput)
        ensures
            (final(self)@, r) == step(old(self)@, InhibitInput::ManualToggle),
    {
        self.is_manual_inhibited = !self.is_manual_inhibited;
        let e = self.update_is_idle_inhibited(true);
        InhibitOutput { timer: TimerCommand::Keep, emission: e }
    }

    /// Takes the audio worker's candidate. A rising candidate starts the timer (or counts at
    /// once without a minimum duration); a falling one cancels the timer and counts at once.
    pub fn set_is_audio_inhibited(&mut self, is_audio_inhibited: bool) -> (r: InhibitOutput)
        ensures
            (final(self)@, r) == step(old(self)@, InhibitInput::AudioCandidate(is_audio_inhibited)),
    {
        if is_audio_inhibited {
            match self.inhibit_idle_timeout {
                None => {
                    self.is_audio_inhibited = true;
                    let e = self.update_is_idle_inhibited(false);
                    InhibitOutput { timer: TimerCommand::Keep, emission: e }
                },
                Some(d) => {
                    if self.timer_armed {
                        InhibitOutput { timer: TimerCommand::Keep, emission: None }
                    } else {
                        self.timer_armed = true;
                        InhibitOutput { timer: TimerCommand::Start(d), emission: None }
                    }
                },
            }
        } else {
            let timer = if self.timer_armed {
                TimerCommand::Cancel
            } else {
                TimerCommand::Keep
            };
            self.timer_armed = false;
            self.is_audio_inhibited = false;
            let e = self.update_is_idle_inhibited(false);
            InhibitOutput { timer, emission: e }
        }
    }

    /// The minimum-duration timer expired: audio counts, unless the timer was cancelled.
    pub fn set_is_inhibited_from_timer(&mut self) -> (r: InhibitOutput)
        ensures
            (final(self)@, r) == step(old(self)@, InhibitInput::TimerFired),
    {
        if !self.timer_armed {
            return InhibitOutput { timer: TimerCommand::Keep, emission: None };
        }
        self.is_audio_inhibited = true;
        let e = self.update_is_idle_inhibited(false);
        InhibitOutput { timer: TimerCommand::Keep, emission: e }
    }

    /// Feeds one input.
    pub fn handle(&mut self, input: InhibitInput) -> (r: InhibitOutput)
        ensures
            (final(self)@, r) == step(old(self)@, input),
    {
        match input {
            InhibitInput::AudioCandidate(b) => self.set_is_audio_inhibited(b),
            InhibitInput::TimerFired => self.set_is_inhibited_from_timer(),
            InhibitInput::ManualToggle => self.toggle_manual_inhibit(),
        }
    }
}

} // verus!

verus! {

/// Runs the machine over a sequence of inputs from state `m`: the final state and the effective
/// states delivered, in order.
pub open spec fn run(m: InhibitModel, inputs: Seq<InhibitInput>) -> (InhibitModel, Seq<bool>)
    decreases inputs.len(),
{
    if inputs.len() == 0 {
        (m, Seq::empty())
    } else {
        let (mp, ep) = run(m, inputs.drop_last());
        let (m2, out) = step(mp, inputs.last());
        (
            m2,
            match out.emission {
                Some(v) => ep.push(v),
                None => ep,
            },
        )
    }
}

/// How many deliveries say `true`.
pub open spec fn count_true(es: Seq<bool>) -> nat
    decreases es.len(),
{
    if es.len() == 0 {
        0
    } else {
        count_true(es.drop_last()) + if es.last() {
            1nat
        } else {
            0nat
        }
    }
}

/// The most recent audio candidate among the inputs; `false` before any.
pub open spec fn last_candidate(inputs: Seq<InhibitInput>) -> bool
    decreases inputs.len(),
{
    if inputs.len() == 0 {
        false
    } else {
        match inputs.last() {
            InhibitInput::AudioCandidate(b) => b,
            _ => last_candidate(inputs.drop_last()),
        }
    }
}

/// How many inputs raise the audio candidate from `false` to `true`.
pub open spec fn rising_candidates(inputs: Seq<InhibitInput>) -> nat
    decreases inputs.len(),
{
    if inputs.len() == 0 {
        0
    } else {
        rising_candidates(inputs.drop_last()) + if inputs.last() == InhibitInput::AudioCandidate(true)
            && !last_candidate(inputs.drop_last()) {
            1nat
        } else {
            0nat
        }
    }
}

/// How many inputs are manual toggles.
pub open spec fn manual_toggles(inputs: Seq<InhibitInput>) -> nat
    decreases inputs.len(),
{
    if inputs.len() == 0 {
        0
    } else {
        manual_toggles(inputs.drop_last()) + if inputs.last() == InhibitInput::ManualToggle {
            1nat
        } else {
            0nat
        }
    }
}

spec fn trace_inv(d: Option<u64>, inputs: Seq<InhibitInput>) -> bool {
    let (m, es) = run(initial(d), inputs);
    let last = last_candidate(inputs);
    &&& m.min_duration == d
    &&& m.effective == (m.audio || m.manual)
    &&& !last ==> !m.audio && !m.timer_armed
    &&& last && d is None ==> m.audio
    &&& last && d is Some ==> m.timer_armed
    &&& count_true(es) + (if last && !m.audio {
        1nat
    } else {
        0nat
    }) <= rising_candidates(inputs) + manual_toggles(inputs)
}

proof fn lemma_count_true_push(es: Seq<bool>, v: bool)
    ensures
        count_true(es.push(v)) == count_true(es) + if v {
            1nat
        } else {
            0nat
        },
{
    assert(es.push(v).drop_last() =~= es);
}

proof fn lemma_trace_inv(d: Option<u64>, inputs: Seq<InhibitInput>)
    ensures
        trace_inv(d, inputs),
    decreases inputs.len(),
{
    if inputs.len() > 0 {
        let prev = inputs.drop_last();
        lemma_trace_inv(d, prev);
        let (mp, ep) = run(initial(d), prev);
        let (m2, out) = step(mp, inputs.last());
        match out.emission {
            Some(v) => lemma_count_true_push(ep, v),
            None => {},
        }
    }
}

/// Over any input trace from the initial state, the machine delivers `true` at most as often as
/// the audio candidate rises plus the number of manual toggles.
pub proof fn lemma_true_emissions_bounded(min_duration: Option<u64>, inputs: Seq<InhibitInput>)
    ensures
        count_true(run(initial(min_duration), inputs).1) <= rising_candidates(inputs)
            + manual_toggles(inputs),
{
    lemma_trace_inv(min_duration, inputs);
}

/// Deliveries are edge-triggered: a delivery carries the new effective state; without one the
/// effective state stays; and, a manual toggle aside, a delivery always differs from the
/// effective state before it, so equal consecutive states are never delivered twice.
pub proof fn lemma_emissions_edge_triggered(m: InhibitModel, input: InhibitInput)
    ensures
        step(m, input).1.emission matches Some(v) ==> v == step(m, input).0.effective,
        step(m, input).1.emission is None ==> step(m, input).0.effective == m.effective,
        input != InhibitInput::ManualToggle && step(m, input).1.emission is Some
            ==> step(m, input).1.emission->0 != m.effective,
{
}


proof fn lemma_last_emission_is_effective(m: InhibitModel, inputs: Seq<InhibitInput>)
    ensures
        run(m, inputs).1.len() > 0 ==> run(m, inputs).1.last() == run(m, inputs).0.effective,
        run(m, inputs).1.len() == 0 ==> run(m, inputs).0.effective == m.effective,
    decreases inputs.len(),
{
    if inputs.len() > 0 {
        lemma_last_emission_is_effective(m, inputs.drop_last());
        lemma_emissions_edge_triggered(run(m, inputs.drop_last()).0, inputs.last());
    }
}

/// Over a whole trace: after any inputs, an input other than a manual toggle never delivers the
/// value that was delivered last, nor the current effective state.
pub proof fn lemma_no_repeated_emission(m: InhibitModel, inputs: Seq<InhibitInput>, input: InhibitInput)
    requires
        input != InhibitInput::ManualToggle,
    ensures
        ({
            let (state, delivered) = run(m, inputs);
            step(state, input).1.emission matches Some(v) ==> {
                &&& v != state.effective
                &&& delivered.len() > 0 ==> v != delivered.last()
            }
        }),
{
    lemma_last_emission_is_effective(m, inputs);
    lemma_emissions_edge_triggered(run(m, inputs).0, input);
}

} // verus!
