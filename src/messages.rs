//! Messages between the audio worker and the main loop, and the decisions each side takes on
//! them. The loops themselves, which wait and perform the actions, stay with the caller.

use vstd::prelude::*;

use crate::graph::{active_set, PWGraph};
use crate::inhibit_state::{step, InhibitIdleState, InhibitIdleStateEvent, InhibitInput, InhibitOutput};

verus! {

/// Messages to the audio worker.
#[derive(Clone, Copy, Debug, PartialEq, Eq, Structural)]
pub enum PWMsg {
    Terminate,
    GraphUpdated,
}

/// Events that the audio worker sends to the main loop.
#[derive(Clone, Debug)]
pub enum PWEvent {
    /// The graph changed; the worker should recompute its candidate.
    GraphUpdated,
    /// Whether some sink plays audio.
    InhibitIdleState(bool),
    /// The worker panicked, with the panic message when there was one.
    ThreadPanic(Option<String>),
}

/// Messages of the main loop.
#[derive(Clone, Debug)]
pub enum Msg {
    PWEvent(PWEvent),
    InhibitIdleStateEvent(InhibitIdleStateEvent),
    ToggleManual,
}

/// What the main loop does after a message.
#[derive(Clone, Debug)]
pub enum MainAction {
    /// Ask the audio worker to recompute ([PWMsg::GraphUpdated]).
    NotifyWorker,
    /// Carry out the timer command and deliver the emission, if any, as
    /// [InhibitIdleStateEvent::InhibitIdle].
    Inhibitor(InhibitOutput),
    /// Assert or release inhibition with the backend and report the new state.
    ApplyInhibit(bool),
    /// Stop the loop with a fatal error, with the panic message when there was one.
    Fatal(Option<String>),
}

/// The input of the inhibit-state machine that a message carries, if any.
pub open spec fn machine_input(msg: Msg) -> Option<InhibitInput> {
    match msg {
        Msg::PWEvent(PWEvent::InhibitIdleState(b)) => Some(InhibitInput::AudioCandidate(b)),
        Msg::InhibitIdleStateEvent(InhibitIdleStateEvent::AudioInhibitTimerFired) => Some(
            InhibitInput::TimerFired,
        ),
        Msg::ToggleManual => Some(InhibitInput::ManualToggle),
        _ => None,
    }
}

impl Msg {
    /// Dispatches one message of the main loop. Machine inputs go to `state`; the rest become
    /// actions for the caller.
    pub fn handle(&self, state: &mut InhibitIdleState) -> (r: MainAction)
        ensures
            match machine_input(*self) {
                Some(input) => {
                    let (m2, out) = step(old(state)@, input);
                    &&& final(state)@ == m2
                    &&& r == MainAction::Inhibitor(out)
                },
                None => {
                    &&& final(state)@ == old(state)@
                    &&& match *self {
                        Msg::PWEvent(PWEvent::GraphUpdated) => r == MainAction::NotifyWorker,
                        Msg::PWEvent(PWEvent::ThreadPanic(e)) => r == MainAction::Fatal(e),
                        Msg::InhibitIdleStateEvent(InhibitIdleStateEvent::InhibitIdle(b)) => r
                            == MainAction::ApplyInhibit(b),
                        _ => false,
                    }
                },
            },
    {
        match self {
            Msg::PWEvent(PWEvent::GraphUpdated) => MainAction::NotifyWorker,
            Msg::PWEvent(PWEvent::InhibitIdleState(b)) => MainAction::Inhibitor(
                state.set_is_audio_inhibited(*b),
            ),
            Msg::PWEvent(PWEvent::ThreadPanic(e)) => MainAction::Fatal(e.clone()),
            Msg::InhibitIdleStateEvent(InhibitIdleStateEvent::InhibitIdle(b)) => {
                MainAction::ApplyInhibit(*b)
            },
            Msg::InhibitIdleStateEvent(InhibitIdleStateEvent::AudioInhibitTimerFired) => {
                MainAction::Inhibitor(state.set_is_inhibited_from_timer())
            },
            Msg::ToggleManual => MainAction::Inhibitor(state.toggle_manual_inhibit()),
        }
    }
}

/// What the audio worker does after a message.
#[derive(Clone, Debug)]
pub enum WorkerAction {
    /// Leave the local loop.
    Quit,
    /// Send the event to the main loop.
    Send(PWEvent),
}

/// The worker's inhibit candidate: whether some sink is active.
pub fn inhibit_candidate(graph: &PWGraph) -> (r: bool)
    requires
        graph.wf(),
    ensures
        r == !active_set(graph.objects(), graph.whitelist(), graph.blacklist()).is_empty(),
{
    let active = graph.get_active_sinks();
    !active.is_empty()
}

/// Decides what the audio worker does with a message from the main loop.
pub fn worker_step(graph: &PWGraph, msg: PWMsg) -> (r: WorkerAction)
    requires
        graph.wf(),
    ensures
        match msg {
            PWMsg::Terminate => r is Quit,
            PWMsg::GraphUpdated => r == WorkerAction::Send(
                PWEvent::InhibitIdleState(
                    !active_set(graph.objects(), graph.whitelist(), graph.blacklist()).is_empty(),
                ),
            ),
        },
{
    match msg {
        PWMsg::Terminate => WorkerAction::Quit,
        PWMsg::GraphUpdated => WorkerAction::Send(PWEvent::InhibitIdleState(inhibit_candidate(graph))),
    }
}

} // verus!
