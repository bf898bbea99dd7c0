use orchard::channel::OutcomeChannel;
use orchard::outcome::Outcome;

#[test]
fn unwritten_channel_polls_pending_every_time() {
    let ch = OutcomeChannel::new();
    for _ in 0..3 {
        assert_eq!(ch.check(), None);
    }
}

#[test]
fn fired_channel_polls_the_written_outcome_every_time() {
    let mut ch = OutcomeChannel::new();
    ch.fire(Outcome::Apples { delta: 7 });
    for _ in 0..3 {
        assert_eq!(ch.check(), Some(Outcome::Apples { delta: 7 }));
    }
}

#[test]
fn second_fire_is_a_silent_no_op() {
    let mut ch = OutcomeChannel::new();
    ch.fire(Outcome::Apples { delta: 7 });
    ch.fire(Outcome::Apples { delta: -3 });
    assert_eq!(ch.check(), Some(Outcome::Apples { delta: 7 }));
    ch.fire(Outcome::StatusQuo);
    assert_eq!(ch.check(), Some(Outcome::Apples { delta: 7 }));
}

#[test]
fn immediate_channels_are_born_resolved() {
    let ch = OutcomeChannel::immediate(Outcome::Apples { delta: -1 });
    assert_eq!(ch.check(), Some(Outcome::Apples { delta: -1 }));
    let noop = OutcomeChannel::immediate_noop();
    assert_eq!(noop.check(), Some(Outcome::StatusQuo));
}

#[test]
fn default_outcome_is_status_quo() {
    assert_eq!(Outcome::default(), Outcome::StatusQuo);
}
