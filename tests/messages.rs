use audio_idle_inhibit::graph::PWGraph;
use audio_idle_inhibit::inhibit_state::{InhibitIdleState, InhibitIdleStateEvent, InhibitOutput, TimerCommand};
use audio_idle_inhibit::messages::{inhibit_candidate, worker_step, MainAction, Msg, PWEvent, PWMsg, WorkerAction};
use audio_idle_inhibit::object::{NodeData, PWObject};

#[test]
fn main_loop_dispatch() {
    let mut s = InhibitIdleState::new(None);
    assert!(matches!(Msg::PWEvent(PWEvent::GraphUpdated).handle(&mut s), MainAction::NotifyWorker));
    match Msg::PWEvent(PWEvent::InhibitIdleState(true)).handle(&mut s) {
        MainAction::Inhibitor(o) => assert_eq!(o, InhibitOutput { timer: TimerCommand::Keep, emission: Some(true) }),
        other => panic!("unexpected {other:?}"),
    }
    assert!(matches!(
        Msg::InhibitIdleStateEvent(InhibitIdleStateEvent::InhibitIdle(true)).handle(&mut s),
        MainAction::ApplyInhibit(true)
    ));
    match Msg::PWEvent(PWEvent::ThreadPanic(Some("boom".to_string()))).handle(&mut s) {
        MainAction::Fatal(Some(m)) => assert_eq!(m, "boom"),
        other => panic!("unexpected {other:?}"),
    }
    match Msg::ToggleManual.handle(&mut s) {
        MainAction::Inhibitor(o) => assert_eq!(o.emission, Some(true)),
        other => panic!("unexpected {other:?}"),
    }
    assert!(s.is_manual_inhibited());
}

#[test]
fn timer_expiry_message_reaches_machine() {
    let mut s = InhibitIdleState::new(Some(5));
    s.set_is_audio_inhibited(true);
    match Msg::InhibitIdleStateEvent(InhibitIdleStateEvent::AudioInhibitTimerFired).handle(&mut s) {
        MainAction::Inhibitor(o) => assert_eq!(o.emission, Some(true)),
        other => panic!("unexpected {other:?}"),
    }
}

#[test]
fn worker_decisions() {
    let mut g = PWGraph::new(vec![], vec![]);
    assert!(!inhibit_candidate(&g));
    assert!(matches!(worker_step(&g, PWMsg::GraphUpdated), WorkerAction::Send(PWEvent::InhibitIdleState(false))));
    let mut data = NodeData::empty();
    data.media_class = Some("Audio/Sink".to_string());
    g.insert(1, PWObject::Node { data });
    assert!(inhibit_candidate(&g));
    assert!(matches!(worker_step(&g, PWMsg::GraphUpdated), WorkerAction::Send(PWEvent::InhibitIdleState(true))));
    assert!(matches!(worker_step(&g, PWMsg::Terminate), WorkerAction::Quit));
}
