use orchard::agent::{Character, Personality, Task, WorldView};
use orchard::clock::{GameTime, Phase, SubPhase};

fn view(phase: Phase, stock: i64) -> WorldView {
    WorldView {
        time: GameTime { day: 1, phase, sub: SubPhase::Commence },
        apple_stock: stock,
    }
}

const ALL_PHASES: [Phase; 5] = [
    Phase::Predawn,
    Phase::Morning,
    Phase::Midday,
    Phase::Evening,
    Phase::Night,
];

#[test]
fn personality_is_a_pure_function_of_identity() {
    assert_eq!(Character::new(0).personality, Personality::Cooperative);
    assert_eq!(Character::new(1).personality, Personality::Greedy);
    assert_eq!(Character::new(2).personality, Personality::Cooperative);
    assert_eq!(Character::new(5).personality, Personality::Greedy);
    // Twice the same identity, twice the same personality.
    assert_eq!(Character::new(9).personality, Character::new(9).personality);
}

#[test]
fn new_character_starts_asleep() {
    let c = Character::new(42);
    assert_eq!(c.identity, 42);
    assert_eq!(c.task, Task::Sleep);
}

#[test]
fn cooperative_timetable() {
    let c = Character::new(0);
    assert_eq!(c.decide(view(Phase::Predawn, 0)), Task::Sleep);
    assert_eq!(c.decide(view(Phase::Morning, 0)), Task::Work);
    assert_eq!(c.decide(view(Phase::Midday, 0)), Task::Eat);
    assert_eq!(c.decide(view(Phase::Evening, 0)), Task::Work);
    assert_eq!(c.decide(view(Phase::Night, 0)), Task::Sleep);
    // The timetable ignores the stock.
    assert_eq!(c.decide(view(Phase::Morning, 100)), Task::Work);
    assert_eq!(c.decide(view(Phase::Midday, -5)), Task::Eat);
}

#[test]
fn greedy_policy_follows_the_stock() {
    let c = Character::new(1);
    assert_eq!(c.decide(view(Phase::Predawn, 10)), Task::Sleep);
    assert_eq!(c.decide(view(Phase::Night, 10)), Task::Sleep);
    assert_eq!(c.decide(view(Phase::Morning, 1)), Task::Eat);
    assert_eq!(c.decide(view(Phase::Morning, 0)), Task::Work);
    assert_eq!(c.decide(view(Phase::Midday, -1)), Task::Work);
    assert_eq!(c.decide(view(Phase::Evening, 3)), Task::Eat);
}

#[test]
fn decide_is_total_over_phases() {
    for identity in 0..4u64 {
        let c = Character::new(identity);
        for phase in ALL_PHASES {
            for stock in [-1i64, 0, 1] {
                let t = c.decide(view(phase, stock));
                assert!(matches!(t, Task::Eat | Task::Sleep | Task::Work));
            }
        }
    }
}
