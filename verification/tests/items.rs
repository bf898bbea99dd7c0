use orchard::channel::OutcomeChannel;
use orchard::item::{Item, OutcomeMux};
use orchard::outcome::Outcome;

#[test]
fn empty_play_finishes_on_the_very_first_tick() {
    let arena: Vec<OutcomeChannel> = Vec::new();
    let item = Item::Play(OutcomeMux::from(Vec::new()));
    let (outcomes, next) = item.tick(0, &arena);
    assert!(outcomes.is_empty());
    assert!(next.is_none());
}

#[test]
fn wait_one_second_finishes_on_the_third_400ms_tick() {
    let arena: Vec<OutcomeChannel> = Vec::new();
    let item = Item::Wait { millis: 1000 };

    let (outcomes, next) = item.tick(400, &arena);
    assert!(outcomes.is_empty());
    let item = next.expect("still waiting after 400 of 1000");

    let (outcomes, next) = item.tick(400, &arena);
    assert!(outcomes.is_empty());
    let item = next.expect("still waiting after 800 of 1000");

    let (outcomes, next) = item.tick(400, &arena);
    assert!(outcomes.is_empty());
    assert!(next.is_none(), "finished once 1200 crossed 1000");
}

#[test]
fn wait_ignores_the_arena_and_resolves_nothing() {
    let arena = vec![OutcomeChannel::immediate(Outcome::Apples { delta: 5 })];
    let item = Item::Wait { millis: 100 };
    let (outcomes, next) = item.tick(30, &arena);
    assert!(outcomes.is_empty());
    match next {
        Some(Item::Wait { millis }) => assert_eq!(millis, 70),
        _ => panic!("a wait continues as a wait"),
    }
}

#[test]
fn play_consumes_written_channels_and_keeps_pending_ones() {
    let mut arena = vec![
        OutcomeChannel::new(),
        OutcomeChannel::new(),
        OutcomeChannel::new(),
    ];
    let item = Item::Play(OutcomeMux::from(vec![0, 1, 2]));

    // Nothing written yet: no outcomes, everything still pending.
    let (outcomes, next) = item.tick(999, &arena);
    assert!(outcomes.is_empty());
    let item = next.expect("all three channels still pending");

    // Resolve the outer two; the middle one stays pending.
    arena[0].fire(Outcome::Apples { delta: 2 });
    arena[2].fire(Outcome::StatusQuo);
    let (outcomes, next) = item.tick(0, &arena);
    assert_eq!(outcomes, vec![Outcome::Apples { delta: 2 }, Outcome::StatusQuo]);
    let item = next.expect("one channel still pending");
    match &item {
        Item::Play(m) => assert_eq!(m.channels, vec![1]),
        _ => panic!("a play continues as a play"),
    }

    // An already-consumed channel is not read twice: only the middle one
    // reports now, and the item finishes.
    arena[1].fire(Outcome::Apples { delta: -1 });
    let (outcomes, next) = item.tick(0, &arena);
    assert_eq!(outcomes, vec![Outcome::Apples { delta: -1 }]);
    assert!(next.is_none());
}
