use enemy_core::firing::{volley, DamagesWho, Shooter, Shot, MUZZLE_OFFSET_X, MUZZLE_OFFSET_Y};
use enemy_core::reload::{cool_down, FiringState};
use enemy_core::trajectory::{plan_with_coin, BulletArchetype, Trajectory};

fn shooter(countdown: u32, period: u32, archetype: BulletArchetype) -> Shooter {
    Shooter { firing: FiringState { countdown, period }, archetype }
}

#[test]
fn player_countdown_stops_at_zero() {
    assert_eq!(cool_down(3), 2);
    assert_eq!(cool_down(1), 0);
    assert_eq!(cool_down(0), 0);
    assert_eq!(cool_down(u32::MAX), u32::MAX - 1);
}

#[test]
fn enemy_counts_down_then_fires_and_starts_over() {
    let mut state = FiringState { countdown: 2, period: 3 };
    assert!(!state.tick());
    assert_eq!(state, FiringState { countdown: 1, period: 3 });
    assert!(!state.tick());
    assert_eq!(state, FiringState { countdown: 0, period: 3 });
    assert!(state.tick());
    assert_eq!(state, FiringState { countdown: 3, period: 3 });
}

#[test]
fn shots_are_one_more_than_the_period_apart() {
    let mut state = FiringState { countdown: 0, period: 4 };
    let mut fired_on = Vec::new();
    for tick in 0..16 {
        if state.tick() {
            fired_on.push(tick);
        }
    }
    assert_eq!(fired_on, vec![0, 5, 10, 15]);
}

#[test]
fn period_of_zero_fires_every_tick() {
    let mut state = FiringState { countdown: 0, period: 0 };
    for _ in 0..5 {
        assert!(state.tick());
        assert_eq!(state, FiringState { countdown: 0, period: 0 });
    }
}

#[test]
fn nothing_happens_while_the_player_is_dead() {
    let mut shooters = vec![
        shooter(0, 5, BulletArchetype::Aimed),
        shooter(2, 5, BulletArchetype::Straight),
    ];
    let before = shooters.clone();
    let shots = volley(true, &mut shooters);
    assert!(shots.is_empty());
    assert_eq!(shooters, before);
}

#[test]
fn due_shooters_fire_in_order() {
    let mut shooters = vec![
        shooter(0, 5, BulletArchetype::Aimed),
        shooter(2, 7, BulletArchetype::Predictive),
        shooter(0, 9, BulletArchetype::Straight),
        shooter(1, 1, BulletArchetype::Tracking(3)),
        shooter(0, 0, BulletArchetype::Tracking(3)),
    ];
    let shots = volley(false, &mut shooters);
    assert_eq!(
        shots,
        vec![
            Shot {
                shooter: 0,
                archetype: BulletArchetype::Aimed,
                trajectory: Trajectory::Aim { speed: 9 },
                damages: DamagesWho::Player,
            },
            Shot {
                shooter: 2,
                archetype: BulletArchetype::Straight,
                trajectory: Trajectory::Fixed { vx: 0, vy: 8 },
                damages: DamagesWho::Player,
            },
            Shot {
                shooter: 4,
                archetype: BulletArchetype::Tracking(3),
                trajectory: Trajectory::Aim { speed: 5 },
                damages: DamagesWho::Player,
            },
        ]
    );
    assert_eq!(
        shooters,
        vec![
            shooter(5, 5, BulletArchetype::Aimed),
            shooter(1, 7, BulletArchetype::Predictive),
            shooter(9, 9, BulletArchetype::Straight),
            shooter(0, 1, BulletArchetype::Tracking(3)),
            shooter(0, 0, BulletArchetype::Tracking(3)),
        ]
    );
}

#[test]
fn bouncing_shooter_fires_one_of_two_plans() {
    let archetype = BulletArchetype::Bouncing(3);
    let mut shooters = vec![shooter(0, 2, archetype)];
    let shots = volley(false, &mut shooters);
    assert_eq!(shots.len(), 1);
    assert_eq!(shots[0].shooter, 0);
    assert_eq!(shots[0].archetype, archetype);
    assert_eq!(shots[0].damages, DamagesWho::Player);
    assert!(
        shots[0].trajectory == plan_with_coin(archetype, true)
            || shots[0].trajectory == plan_with_coin(archetype, false)
    );
}

#[test]
fn waiting_shooter_may_carry_any_archetype() {
    let mut shooters = vec![shooter(4, 6, BulletArchetype::PlayerOwned)];
    let shots = volley(false, &mut shooters);
    assert!(shots.is_empty());
    assert_eq!(shooters, vec![shooter(3, 6, BulletArchetype::PlayerOwned)]);
}

#[test]
fn no_shooters_no_shots() {
    let mut shooters: Vec<Shooter> = Vec::new();
    assert!(volley(false, &mut shooters).is_empty());
    assert!(shooters.is_empty());
}

#[test]
fn shots_appear_at_the_muzzle() {
    assert_eq!((MUZZLE_OFFSET_X, MUZZLE_OFFSET_Y), (36, 72));
}
