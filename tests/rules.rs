use hoppers::arena::{wall_turn, Heading, Spot, HALF_HEIGHT, HALF_WIDTH};
use hoppers::belly::{digest, Fate, NEWBORN_BELLY, STARTING_BELLY};
use hoppers::cadence::{Cadence, CENSUS_PERIOD, SPROUT_PERIOD};
use hoppers::chart::Chart;
use hoppers::feeding::{blades_touched, eating_round};

#[test]
fn hungry_hopper_pays_upkeep() {
    assert_eq!(
        digest(STARTING_BELLY, 0),
        Fate::Lives { belly: 798, pinkness: 202, offspring: 0 }
    );
    assert_eq!(
        digest(NEWBORN_BELLY, 0),
        Fate::Lives { belly: 298, pinkness: 702, offspring: 0 }
    );
}

#[test]
fn full_hopper_gives_birth() {
    assert_eq!(
        digest(STARTING_BELLY, 1),
        Fate::Lives { belly: 598, pinkness: 0, offspring: 2 }
    );
    assert_eq!(
        digest(300, 3),
        Fate::Lives { belly: 898, pinkness: 0, offspring: 2 }
    );
}

#[test]
fn exactly_full_hopper_does_not_give_birth() {
    assert_eq!(
        digest(1002, 0),
        Fate::Lives { belly: 1000, pinkness: 0, offspring: 0 }
    );
    assert_eq!(
        digest(1003, 0),
        Fate::Lives { belly: 401, pinkness: 0, offspring: 2 }
    );
}

#[test]
fn empty_hopper_starves() {
    assert_eq!(digest(1, 0), Fate::Starved);
    assert_eq!(digest(0, 0), Fate::Starved);
    assert_eq!(
        digest(2, 0),
        Fate::Lives { belly: 0, pinkness: 1000, offspring: 0 }
    );
}

#[test]
fn blades_are_counted() {
    assert_eq!(blades_touched(&vec![]), 0);
    assert_eq!(blades_touched(&vec![true, false, true, true]), 3);
    assert_eq!(blades_touched(&vec![false, false]), 0);
}

#[test]
fn shared_blade_feeds_both_hoppers() {
    let bellies = vec![800, 1, 500];
    let touching = vec![
        vec![true, false, false, false],
        vec![false, false, false, false],
        vec![true, false, true, false],
    ];
    let meal = eating_round(&bellies, &touching, 4);
    assert_eq!(
        meal.fates,
        vec![
            Fate::Lives { belly: 598, pinkness: 0, offspring: 2 },
            Fate::Starved,
            Fate::Lives { belly: 698, pinkness: 0, offspring: 2 },
        ]
    );
    assert_eq!(meal.eaten, vec![true, false, true, false]);
}

#[test]
fn round_without_hoppers_or_grass() {
    let meal = eating_round(&vec![], &vec![], 3);
    assert!(meal.fates.is_empty());
    assert_eq!(meal.eaten, vec![false, false, false]);
    let meal = eating_round(&vec![40, 2], &vec![vec![], vec![]], 0);
    assert_eq!(
        meal.fates,
        vec![
            Fate::Lives { belly: 38, pinkness: 962, offspring: 0 },
            Fate::Lives { belly: 0, pinkness: 1000, offspring: 0 },
        ]
    );
    assert!(meal.eaten.is_empty());
}

#[test]
fn walls_send_hoppers_back() {
    assert_eq!(wall_turn(Spot { x: 0, y: 0 }), None);
    assert_eq!(wall_turn(Spot { x: HALF_WIDTH, y: -HALF_HEIGHT }), None);
    assert_eq!(wall_turn(Spot { x: -600_001, y: 0 }), Some(Heading::East));
    assert_eq!(wall_turn(Spot { x: 600_001, y: 0 }), Some(Heading::West));
    assert_eq!(wall_turn(Spot { x: 0, y: 320_001 }), Some(Heading::South));
    assert_eq!(wall_turn(Spot { x: 0, y: -320_001 }), Some(Heading::North));
}

#[test]
fn corner_follows_the_vertical_wall() {
    assert_eq!(wall_turn(Spot { x: 700_000, y: 400_000 }), Some(Heading::South));
    assert_eq!(wall_turn(Spot { x: -700_000, y: -400_000 }), Some(Heading::North));
    assert_eq!(wall_turn(Spot { x: -700_000, y: 400_000 }), Some(Heading::South));
}

#[test]
fn headings_count_quarter_turns() {
    assert_eq!(Heading::East.quarter_turns(), 0);
    assert_eq!(Heading::North.quarter_turns(), 1);
    assert_eq!(Heading::West.quarter_turns(), 2);
    assert_eq!(Heading::South.quarter_turns(), 3);
}

#[test]
fn chart_bars_march_right() {
    let mut chart = Chart::new();
    let first = chart.record(3);
    assert_eq!(first.step, 1);
    assert_eq!(first.count, 3);
    assert_eq!(first.center_x, -580);
    assert_eq!(first.center_y_halves, -637);
    assert_eq!(first.label_dy_halves, -13);
    let second = chart.record(0);
    assert_eq!(second.step, 2);
    assert_eq!(second.center_x, -560);
    assert_eq!(second.center_y_halves, -640);
    assert_eq!(second.label_dy_halves, -10);
    assert_eq!(chart.step, 2);
}

#[test]
fn cadence_fires_once_a_period() {
    let mut c = Cadence::new(SPROUT_PERIOD);
    assert!(!c.tick(20_000_000));
    assert_eq!(c.elapsed(), 20_000_000);
    assert!(!c.tick(29_999_999));
    assert!(c.tick(1));
    assert_eq!(c.elapsed(), 0);
    assert_eq!(c.period(), 50_000_000);
}

#[test]
fn cadence_keeps_the_remainder() {
    let mut c = Cadence::new(CENSUS_PERIOD);
    assert!(c.tick(2_500_000_000));
    assert_eq!(c.elapsed(), 500_000_000);
    assert!(c.tick(600_000_000));
    assert_eq!(c.elapsed(), 100_000_000);
    assert!(!c.tick(0));
    assert_eq!(c.elapsed(), 100_000_000);
}

#[test]
fn cadence_survives_the_largest_step() {
    let mut c = Cadence::new(3);
    assert!(!c.tick(2));
    assert!(c.tick(u64::MAX));
    assert_eq!(c.elapsed(), ((2u128 + u64::MAX as u128) % 3) as u64);
}
