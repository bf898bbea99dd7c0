use orchard::agent::{Character, Personality, Task};
use orchard::clock::{GameTime, Phase, SubPhase};
use orchard::dispatch::{ActionKind, Controller, TimeUpdate};
use orchard::item::Item;
use orchard::outcome::Outcome;

#[test]
fn end_to_end_one_cooperative_agent_deposits_an_apple() {
    let mut c = Controller::new();
    c.add_character(0); // 0 % 4 != 1: cooperative
    assert_eq!(c.time, GameTime { day: 1, phase: Phase::Predawn, sub: SubPhase::Tempo });
    assert_eq!(c.apples, 0);

    // Frame 1: empty queue at Tempo schedules the pacing delay.
    let out = c.process(400);
    assert!(out.requests.is_empty());
    assert!(out.time_update.is_none());
    assert!(matches!(c.queue[0], Item::Wait { millis: 500 }));

    // Two more 400 ms frames drain the 500 ms delay; the clock advances to
    // the Commence boundary of Morning and the UI hears about it.
    let out = c.process(400);
    assert!(out.time_update.is_none());
    let out = c.process(400);
    assert_eq!(out.time_update, Some(TimeUpdate { phase: Phase::Morning, day: 1 }));
    assert_eq!(out.time_update.unwrap().phase.label(), "Morning");
    assert_eq!(c.time.sub, SubPhase::Commence);

    // Commence: the agent decides Work (cooperative, Morning) and a fetch
    // action is requested on channel 0.
    let out = c.process(0);
    assert_eq!(c.characters[0].task, Task::Work);
    assert_eq!(out.requests.len(), 1);
    assert_eq!(out.requests[0].agent, 0);
    assert_eq!(out.requests[0].kind, ActionKind::Fetch);
    assert_eq!(out.requests[0].channel, 0);

    // The fetch arrives and reports no effect at commence for work.
    assert!(c.fire(0, Outcome::Apples { delta: 0 }));

    // The Play item drains: the outcome is applied once, the stock display
    // is pushed once, the stock stays 0, and the clock moves to Progress.
    let out = c.process(0);
    assert_eq!(out.stock_updates, vec![0]);
    assert_eq!(c.apples, 0);
    assert_eq!(c.time.sub, SubPhase::Progress);

    // Progress: one pacing delay, drained over two frames.
    c.process(0);
    c.process(250);
    let out = c.process(300);
    assert!(out.time_update.is_some());
    assert_eq!(c.time.sub, SubPhase::Complete);

    // Complete: the cached Work task (not re-decided) asks for the deposit
    // trip on channel 1, carrying one apple.
    let out = c.process(0);
    assert_eq!(out.requests.len(), 1);
    assert_eq!(out.requests[0].kind, ActionKind::Deposit);
    assert_eq!(out.requests[0].channel, 1);
    assert_eq!(out.requests[0].payload, Outcome::Apples { delta: 1 });

    // The deposit arrives: the stock becomes 1.
    assert!(c.fire(1, Outcome::Apples { delta: 1 }));
    let out = c.process(0);
    assert_eq!(out.stock_updates, vec![1]);
    assert_eq!(c.apples, 1);
    assert_eq!(c.time.sub, SubPhase::Tempo);
    assert_eq!(c.time.phase, Phase::Morning);
    assert_eq!(c.time.day, 1);
}

#[test]
fn empty_roster_play_completes_vacuously() {
    let mut c = Controller::new();
    c.time = GameTime { day: 1, phase: Phase::Morning, sub: SubPhase::Commence };
    let out = c.process(0);
    assert!(out.requests.is_empty());
    match &c.queue[0] {
        Item::Play(m) => assert!(m.channels.is_empty()),
        _ => panic!("commence schedules a play item"),
    }
    let out = c.process(0);
    assert!(out.stock_updates.is_empty());
    assert!(out.time_update.is_some());
    assert_eq!(c.time.sub, SubPhase::Progress);
}

#[test]
fn batch_application_is_order_independent() {
    // The same three outcomes, consumed from one Play item in two different
    // orders, leave the stock where it started.
    for order in [[1usize, 2, 3], [3, 2, 1], [2, 3, 1]] {
        let mut c = Controller::new();
        c.apples = 5;
        // Three agents put to work at Morning commence: three channels.
        c.add_character(0);
        c.add_character(2);
        c.add_character(4);
        c.time = GameTime { day: 1, phase: Phase::Morning, sub: SubPhase::Commence };
        let out = c.process(0);
        assert_eq!(out.requests.len(), 3);
        // Resolve the channels in the chosen order with +1, -1, no effect.
        let payloads = [
            Outcome::Apples { delta: 1 },
            Outcome::Apples { delta: -1 },
            Outcome::StatusQuo,
        ];
        for (ch, payload) in order.iter().zip(payloads) {
            assert!(c.fire(ch - 1, payload));
        }
        let out = c.process(0);
        assert_eq!(out.stock_updates.len(), 3);
        assert_eq!(*out.stock_updates.last().unwrap(), 5);
        assert_eq!(c.apples, 5);
    }
}

#[test]
fn finished_work_always_sends_the_deposit() {
    // The deposit trip is owed on any day the work finishes.
    for day in [1u64, 15, 40] {
        let mut c = Controller::new();
        c.time = GameTime { day, phase: Phase::Morning, sub: SubPhase::Complete };
        c.characters.push(Character {
            identity: 0,
            personality: Personality::Cooperative,
            task: Task::Work,
        });
        let out = c.process(0);
        assert_eq!(out.requests.len(), 1);
        assert_eq!(out.requests[0].kind, ActionKind::Deposit);
        assert_eq!(out.requests[0].payload, Outcome::Apples { delta: 1 });
        assert!(c.fire(out.requests[0].channel, Outcome::Apples { delta: 1 }));
        let out = c.process(0);
        assert_eq!(out.stock_updates, vec![1]);
        assert_eq!(c.apples, 1, "one work cycle nets one apple on day {day}");
    }
}

#[test]
fn eating_consumes_one_apple_at_complete() {
    let mut c = Controller::new();
    c.apples = 3;
    c.time = GameTime { day: 1, phase: Phase::Midday, sub: SubPhase::Complete };
    c.characters.push(Character {
        identity: 0,
        personality: Personality::Cooperative,
        task: Task::Eat,
    });
    let out = c.process(0);
    assert!(out.requests.is_empty());
    let out = c.process(0);
    assert_eq!(out.stock_updates, vec![2]);
    assert_eq!(c.apples, 2);
}

#[test]
fn greedy_agent_eats_while_stock_lasts() {
    let mut c = Controller::new();
    c.apples = 1;
    c.add_character(1); // 1 % 4 == 1: greedy
    c.time = GameTime { day: 1, phase: Phase::Morning, sub: SubPhase::Commence };
    let out = c.process(0);
    assert_eq!(c.characters[0].task, Task::Eat);
    assert_eq!(out.requests.len(), 1);
    assert_eq!(out.requests[0].kind, ActionKind::Deliver);
    assert_eq!(out.requests[0].payload, Outcome::StatusQuo);
}

#[test]
fn sleeping_needs_no_external_action() {
    let mut c = Controller::new();
    c.add_character(0);
    c.time = GameTime { day: 1, phase: Phase::Night, sub: SubPhase::Commence };
    let out = c.process(0);
    assert_eq!(c.characters[0].task, Task::Sleep);
    assert!(out.requests.is_empty());
    // The sleep channel resolves on the spot, so the item drains next frame.
    let out = c.process(0);
    assert_eq!(out.stock_updates, vec![0]);
    assert_eq!(c.time.sub, SubPhase::Progress);
}

#[test]
fn firing_an_unknown_handle_changes_nothing() {
    let mut c = Controller::new();
    assert!(!c.fire(0, Outcome::Apples { delta: 9 }));
    assert_eq!(c.apples, 0);
    assert!(c.channels.is_empty());
}

#[test]
fn a_second_fire_does_not_double_apply() {
    let mut c = Controller::new();
    c.add_character(0);
    c.time = GameTime { day: 1, phase: Phase::Morning, sub: SubPhase::Commence };
    c.process(0);
    assert!(c.fire(0, Outcome::Apples { delta: 1 }));
    assert!(c.fire(0, Outcome::Apples { delta: 100 }));
    c.process(0);
    assert_eq!(c.apples, 1, "the first write sticks");
}

#[test]
fn fulfill_allocates_one_channel_per_task() {
    let mut c = Controller::new();
    let (h, rq) = c.fulfill(7, Task::Sleep);
    assert_eq!(h, 0);
    assert!(rq.is_none(), "sleep needs nobody");
    assert_eq!(c.channels[0].check(), Some(Outcome::StatusQuo));

    let (h, rq) = c.fulfill(7, Task::Work);
    assert_eq!(h, 1);
    let rq = rq.unwrap();
    assert_eq!(rq.agent, 7);
    assert_eq!(rq.kind, ActionKind::Fetch);
    assert_eq!(rq.channel, 1);
    assert_eq!(c.channels[1].check(), None, "work waits for the fetch");

    let (h, rq) = c.fulfill(7, Task::Eat);
    assert_eq!(h, 2);
    assert_eq!(rq.unwrap().kind, ActionKind::Deliver);
    assert_eq!(c.channels[2].check(), None, "eating waits for the delivery");
}

#[test]
fn finish_carries_the_stock_effects() {
    let mut c = Controller::new();
    let (h, rq) = c.finish(7, Task::Eat);
    assert!(rq.is_none());
    assert_eq!(c.channels[h].check(), Some(Outcome::Apples { delta: -1 }));

    let (h, rq) = c.finish(7, Task::Work);
    let rq = rq.unwrap();
    assert_eq!(rq.kind, ActionKind::Deposit);
    assert_eq!(rq.payload, Outcome::Apples { delta: 1 });
    assert_eq!(c.channels[h].check(), None, "the deposit is under way");

    let (h, rq) = c.finish(7, Task::Sleep);
    assert!(rq.is_none());
    assert_eq!(c.channels[h].check(), Some(Outcome::StatusQuo));
}

#[test]
fn the_world_view_reports_clock_and_stock() {
    let mut c = Controller::new();
    c.apples = 9;
    let w = c.view();
    assert_eq!(w.apple_stock, 9);
    assert_eq!(w.time, GameTime { day: 1, phase: Phase::Predawn, sub: SubPhase::Tempo });
}

#[test]
fn the_stock_wraps_on_overflow() {
    let mut c = Controller::new();
    c.apples = i64::MAX;
    c.apply(&Outcome::Apples { delta: 1 });
    assert_eq!(c.apples, i64::MIN);
    c.apply(&Outcome::Apples { delta: -1 });
    assert_eq!(c.apples, i64::MAX);
    c.apply(&Outcome::StatusQuo);
    assert_eq!(c.apples, i64::MAX);
}
