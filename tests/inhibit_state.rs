use audio_idle_inhibit::inhibit_state::{InhibitIdleState, InhibitInput, InhibitOutput, TimerCommand};

fn out(timer: TimerCommand, emission: Option<bool>) -> InhibitOutput {
    InhibitOutput { timer, emission }
}

#[test]
fn debounce_suppresses_short_audio() {
    // min_duration = 5 s: candidate true at t=0, false at t=3 -> no emission.
    let mut s = InhibitIdleState::new(Some(5));
    assert_eq!(s.set_is_audio_inhibited(true), out(TimerCommand::Start(5), None));
    assert_eq!(s.set_is_audio_inhibited(false), out(TimerCommand::Cancel, None));
    // A stale expiry of the cancelled timer is ignored.
    assert_eq!(s.set_is_inhibited_from_timer(), out(TimerCommand::Keep, None));
    assert!(!s.is_inhibited());
}

#[test]
fn debounce_fires_after_minimum_duration() {
    // Candidate true at t=0, unchanged through t=5 -> effective=true when the timer fires.
    let mut s = InhibitIdleState::new(Some(5));
    assert_eq!(s.set_is_audio_inhibited(true), out(TimerCommand::Start(5), None));
    assert_eq!(s.set_is_audio_inhibited(true), out(TimerCommand::Keep, None));
    assert_eq!(s.set_is_inhibited_from_timer(), out(TimerCommand::Keep, Some(true)));
    assert!(s.is_inhibited());
    // Audio stops: released at once.
    assert_eq!(s.set_is_audio_inhibited(false), out(TimerCommand::Cancel, Some(false)));
}

#[test]
fn manual_toggle_wins_while_audio_false() {
    let mut s = InhibitIdleState::new(Some(5));
    assert_eq!(s.toggle_manual_inhibit(), out(TimerCommand::Keep, Some(true)));
    assert!(s.is_manual_inhibited());
    assert_eq!(s.toggle_manual_inhibit(), out(TimerCommand::Keep, Some(false)));
    assert!(!s.is_inhibited());
}

#[test]
fn manual_toggle_forces_emission_when_unchanged() {
    let mut s = InhibitIdleState::new(None);
    assert_eq!(s.set_is_audio_inhibited(true), out(TimerCommand::Keep, Some(true)));
    // Effective stays true, but the toggle still delivers it.
    assert_eq!(s.toggle_manual_inhibit(), out(TimerCommand::Keep, Some(true)));
    assert_eq!(s.toggle_manual_inhibit(), out(TimerCommand::Keep, Some(true)));
}

#[test]
fn no_minimum_duration_counts_at_once() {
    let mut s = InhibitIdleState::new(None);
    assert_eq!(s.handle(InhibitInput::AudioCandidate(true)), out(TimerCommand::Keep, Some(true)));
    assert!(s.is_audio_inhibited());
    assert!(!s.is_timer_armed());
    // Equal consecutive states are not delivered twice.
    assert_eq!(s.handle(InhibitInput::AudioCandidate(true)), out(TimerCommand::Keep, None));
    assert_eq!(s.handle(InhibitInput::AudioCandidate(false)), out(TimerCommand::Keep, Some(false)));
    assert_eq!(s.handle(InhibitInput::AudioCandidate(false)), out(TimerCommand::Keep, None));
}

#[test]
fn true_emissions_bounded_by_rises_and_toggles() {
    let trace = [
        InhibitInput::AudioCandidate(true),
        InhibitInput::AudioCandidate(true),
        InhibitInput::TimerFired,
        InhibitInput::TimerFired,
        InhibitInput::ManualToggle,
        InhibitInput::AudioCandidate(false),
        InhibitInput::ManualToggle,
        InhibitInput::TimerFired,
        InhibitInput::AudioCandidate(true),
        InhibitInput::TimerFired,
    ];
    let mut s = InhibitIdleState::new(Some(2));
    let mut trues = 0;
    let mut last = false;
    let mut rises = 0;
    let mut toggles = 0;
    let mut emissions = vec![];
    for input in trace {
        match input {
            InhibitInput::AudioCandidate(b) => {
                if b && !last {
                    rises += 1;
                }
                last = b;
            }
            InhibitInput::ManualToggle => toggles += 1,
            InhibitInput::TimerFired => {}
        }
        if let Some(v) = s.handle(input).emission {
            if v {
                trues += 1;
            }
            emissions.push(v);
        }
    }
    assert!(trues <= rises + toggles);
    assert_eq!(emissions, vec![true, true, false, true]);
}
