use gesynth::playback::{Action, Event, Playback, Stage, StopReason};
use gesynth::session::Session;

const GO: Event = Event::Ready { cancelled: false };
const CANCEL: Event = Event::Ready { cancelled: true };

fn driver(rate: u32) -> Playback {
    Playback::new(&Session::new(rate, 200).unwrap())
}

#[test]
fn fills_one_buffer_then_submits() {
    let mut p = driver(3);
    assert_eq!(p.stage(), Stage::Boundary);
    assert_eq!(p.step(GO), Action::Generate { tick: 1 });
    assert_eq!(p.step(GO), Action::Generate { tick: 2 });
    assert_eq!(p.step(GO), Action::Generate { tick: 3 });
    assert_eq!(p.step(GO), Action::Submit);
    assert_eq!(p.stage(), Stage::Boundary);
    assert_eq!(p.ticks(), 3);
    assert_eq!(p.sample_rate(), 3);
}

#[test]
fn phase_keeps_accumulating_across_buffers() {
    let mut p = driver(2);
    let mut ticks = Vec::new();
    for _ in 0..3 {
        loop {
            match p.step(GO) {
                Action::Generate { tick } => ticks.push(tick),
                Action::Submit => break,
                Action::Stop { .. } => panic!("stopped"),
            }
        }
    }
    assert_eq!(ticks, vec![1, 2, 3, 4, 5, 6]);
}

#[test]
fn cancellation_is_checked_only_between_buffers() {
    let mut p = driver(2);
    assert_eq!(p.step(GO), Action::Generate { tick: 1 });
    // Mid-buffer the flag does not interrupt the fill.
    assert_eq!(p.step(CANCEL), Action::Generate { tick: 2 });
    assert_eq!(p.step(CANCEL), Action::Submit);
    assert_eq!(p.step(CANCEL), Action::Stop { reason: StopReason::Cancelled });
    assert_eq!(p.stage(), Stage::Stopped { reason: StopReason::Cancelled });
    assert_eq!(p.step(GO), Action::Stop { reason: StopReason::Cancelled });
    assert_eq!(p.ticks(), 2);
}

#[test]
fn cancelled_before_start_generates_nothing() {
    let mut p = driver(48000);
    assert_eq!(p.step(CANCEL), Action::Stop { reason: StopReason::Cancelled });
    assert_eq!(p.ticks(), 0);
}

#[test]
fn refused_buffer_stops_playback() {
    let mut p = driver(1);
    assert_eq!(p.step(GO), Action::Generate { tick: 1 });
    assert_eq!(p.step(GO), Action::Submit);
    assert_eq!(p.step(Event::Failed), Action::Stop { reason: StopReason::SinkFailed });
    assert_eq!(p.step(GO), Action::Stop { reason: StopReason::SinkFailed });
    assert_eq!(p.stage(), Stage::Stopped { reason: StopReason::SinkFailed });
}

#[test]
fn full_second_buffer_at_48k() {
    let mut p = driver(48000);
    let mut generated = 0u32;
    loop {
        match p.step(GO) {
            Action::Generate { tick } => {
                generated += 1;
                assert_eq!(tick, generated as u64);
            }
            Action::Submit => break,
            Action::Stop { .. } => panic!("stopped"),
        }
    }
    assert_eq!(generated, 48000);
}

#[test]
fn two_runs_with_equal_ticks_have_equal_trajectories() {
    let collect = |events: &[Event]| {
        let mut p = driver(2);
        let mut ticks = Vec::new();
        for e in events {
            if let Action::Generate { tick } = p.step(*e) {
                ticks.push(tick);
            }
        }
        (p.ticks(), ticks)
    };
    let a = collect(&[GO, GO, GO, GO, GO]);
    let b = collect(&[GO, CANCEL, GO, GO, GO, CANCEL]);
    assert_eq!(a.0, 4);
    assert_eq!(a, b);
}
