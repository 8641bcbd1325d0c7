//! Runs the gameplay rules on concrete worlds: the spawn timer, the upwind
//! border placement, the rolling and free-fall rules, gravity, and the wind
//! rotation.

use topplegrass::components::Movement;
use topplegrass::fixed::{isqrt, scale_mul};
use topplegrass::resources::{Wind, WorldBounds};
use topplegrass::topplegrass::{
    GravitySystem, TopplegrassSpawnSystem, TopplingSystem, HEIGHT, MAX_MOVEMENT_SPEED,
    SPAWN_INTERVAL_MICROS, TOPPLEGRASS_BASE_SCALE,
};
use topplegrass::vectors::{Vec2, Vec3};
use topplegrass::wind_control::DebugWindControlSystem;

fn bounds() -> WorldBounds {
    WorldBounds { left: -4_000_000, right: 4_000_000, bottom: -2_000_000, top: 2_000_000 }
}

fn rolling_movement() -> Movement {
    Movement {
        velocity: Vec3 { x: 3_000_000, y: 4_000_000, z: 0 },
        max_movement_speed: MAX_MOVEMENT_SPEED,
    }
}

#[test]
fn scale_mul_truncates_toward_zero() {
    assert_eq!(scale_mul(1_500_000, 16_667), 25_000);
    assert_eq!(scale_mul(-1_500_000, 16_667), -25_000);
    assert_eq!(scale_mul(1_500_000, -16_667), -25_000);
    assert_eq!(scale_mul(-1_500_000, -16_667), 25_000);
    assert_eq!(scale_mul(0, 2_000_000_000), 0);
    assert_eq!(scale_mul(1_000_000, 1_000_000), 1_000_000);
}

#[test]
fn isqrt_exact_values() {
    assert_eq!(isqrt(0), 0);
    assert_eq!(isqrt(1), 1);
    assert_eq!(isqrt(3), 1);
    assert_eq!(isqrt(4), 2);
    assert_eq!(isqrt(24_999_999_999_999), 4_999_999);
    assert_eq!(isqrt(25_000_000_000_000), 5_000_000);
    assert_eq!(isqrt(u64::MAX), 4_294_967_295);
}

#[test]
fn magnitude_of_velocity() {
    assert_eq!(Vec3 { x: 3_000_000, y: 4_000_000, z: 0 }.magnitude(), 5_000_000);
    assert_eq!(Vec3 { x: 0, y: 0, z: 0 }.magnitude(), 0);
    assert_eq!(Vec3 { x: 1, y: 1, z: 1 }.magnitude(), 1);
    assert_eq!(
        Vec3 { x: 1_000_000_000, y: 1_000_000_000, z: 1_000_000_000 }.magnitude(),
        1_732_050_807
    );
}

#[test]
fn spawn_timer_fires_on_first_tick() {
    let mut sys = TopplegrassSpawnSystem::default();
    assert_eq!(sys.micros_to_next_spawn, 0);
    assert!(sys.ready_to_spawn(16_000));
    assert_eq!(sys.micros_to_next_spawn, SPAWN_INTERVAL_MICROS);
}

#[test]
fn spawn_timer_needs_elapsed_time() {
    let mut sys = TopplegrassSpawnSystem::default();
    assert!(!sys.ready_to_spawn(0));
    assert_eq!(sys.micros_to_next_spawn, 0);
    assert!(sys.ready_to_spawn(1));
}

#[test]
fn spawn_timer_counts_down() {
    let mut sys = TopplegrassSpawnSystem::default();
    assert!(sys.ready_to_spawn(16_000));
    assert!(!sys.ready_to_spawn(400_000));
    assert_eq!(sys.micros_to_next_spawn, 600_000);
    assert!(!sys.ready_to_spawn(600_000));
    assert_eq!(sys.micros_to_next_spawn, 0);
    assert!(sys.ready_to_spawn(16_000));
}

#[test]
fn spawn_timer_fires_once_per_interval() {
    let mut sys = TopplegrassSpawnSystem::default();
    assert!(sys.ready_to_spawn(16_000));
    let mut fired_at: Vec<u32> = Vec::new();
    for tick in 1..=126u32 {
        if sys.ready_to_spawn(16_000) {
            fired_at.push(tick);
        }
    }
    assert_eq!(fired_at, vec![63, 126]);
}

#[test]
fn wind_towards_cardinal_directions() {
    let east = Vec2 { x: 1, y: 0 };
    let north = Vec2 { x: 0, y: 1 };
    let west = Vec2 { x: -1, y: 0 };
    let south = Vec2 { x: 0, y: -1 };

    let eastish = Vec2 { x: 1_000_000, y: 999_999 };
    assert!(TopplegrassSpawnSystem::wind_towards_direction(eastish, east));
    assert!(!TopplegrassSpawnSystem::wind_towards_direction(eastish, north));
    assert!(!TopplegrassSpawnSystem::wind_towards_direction(eastish, west));
    assert!(!TopplegrassSpawnSystem::wind_towards_direction(eastish, south));

    let diagonal = Vec2 { x: 1_000_000, y: 1_000_000 };
    assert!(!TopplegrassSpawnSystem::wind_towards_direction(diagonal, east));
    assert!(!TopplegrassSpawnSystem::wind_towards_direction(diagonal, north));

    let calm = Vec2 { x: 0, y: 0 };
    assert!(!TopplegrassSpawnSystem::wind_towards_direction(calm, east));
    assert!(!TopplegrassSpawnSystem::wind_towards_direction(calm, north));
    assert!(!TopplegrassSpawnSystem::wind_towards_direction(calm, west));
    assert!(!TopplegrassSpawnSystem::wind_towards_direction(calm, south));

    let northish = Vec2 { x: -200_000, y: 1_000_000 };
    assert!(TopplegrassSpawnSystem::wind_towards_direction(northish, north));
    assert!(!TopplegrassSpawnSystem::wind_towards_direction(northish, east));
}

#[test]
fn spawn_location_lies_on_upwind_border() {
    let b = bounds();

    let east_wind = Wind { wind: Vec2 { x: 1_000_000, y: 0 } };
    let pos = TopplegrassSpawnSystem::gen_spawn_location(&east_wind, &b);
    assert_eq!(pos.x, b.left);
    assert!(b.bottom <= pos.y && pos.y < b.top);
    assert_eq!(pos.z, HEIGHT);

    let north_wind = Wind { wind: Vec2 { x: 0, y: 1_000_000 } };
    let pos = TopplegrassSpawnSystem::gen_spawn_location(&north_wind, &b);
    assert_eq!(pos.y, b.bottom);
    assert!(b.left <= pos.x && pos.x < b.right);

    let west_wind = Wind { wind: Vec2 { x: -1_000_000, y: 0 } };
    let pos = TopplegrassSpawnSystem::gen_spawn_location(&west_wind, &b);
    assert_eq!(pos.x, b.right);
    assert!(b.bottom <= pos.y && pos.y < b.top);

    let south_wind = Wind { wind: Vec2 { x: 0, y: -1_000_000 } };
    let pos = TopplegrassSpawnSystem::gen_spawn_location(&south_wind, &b);
    assert_eq!(pos.y, b.top);
    assert!(b.left <= pos.x && pos.x < b.right);

    let diagonal_wind = Wind { wind: Vec2 { x: 1_000_000, y: 1_000_000 } };
    let pos = TopplegrassSpawnSystem::gen_spawn_location(&diagonal_wind, &b);
    assert_eq!(pos.y, b.top);
}

#[test]
fn spawn_location_respects_tight_bounds() {
    let tight = WorldBounds { left: 10, right: 11, bottom: 20, top: 21 };
    let east_wind = Wind { wind: Vec2 { x: 1_000_000, y: 0 } };
    for _ in 0..32 {
        let pos = TopplegrassSpawnSystem::gen_spawn_location(&east_wind, &tight);
        assert_eq!(pos.x, 10);
        assert_eq!(pos.y, 20);
        assert_eq!(pos.z, HEIGHT);
    }
}

#[test]
fn update_spawns_with_the_wind() {
    let mut sys = TopplegrassSpawnSystem::default();
    let wind = Wind { wind: Vec2 { x: 1_000_000, y: 250_000 } };
    let b = bounds();
    let cmd = sys.update(16_000, &wind, &b).expect("first tick spawns");
    assert_eq!(cmd.scale, TOPPLEGRASS_BASE_SCALE);
    assert_eq!(cmd.position.x, b.left);
    assert_eq!(cmd.position.z, HEIGHT);
    assert_eq!(cmd.movement.velocity, Vec3 { x: 1_000_000, y: 250_000, z: 0 });
    assert_eq!(cmd.movement.max_movement_speed, MAX_MOVEMENT_SPEED);
    assert_eq!(cmd.creature_type(), "Topplegrass");
    assert_eq!(sys.micros_to_next_spawn, SPAWN_INTERVAL_MICROS);

    assert!(sys.update(400_000, &wind, &b).is_none());
    assert_eq!(sys.micros_to_next_spawn, 600_000);
}

#[test]
fn rolling_rotation_follows_velocity() {
    let m = Movement {
        velocity: Vec3 { x: 1_000_000, y: -1_500_000, z: 0 },
        max_movement_speed: MAX_MOVEMENT_SPEED,
    };
    let rot = TopplingSystem::rolling_rotation(&m, 16_667);
    assert_eq!(rot.x, 50_000);
    assert_eq!(rot.y, 33_334);

    let still = Movement {
        velocity: Vec3 { x: 0, y: 0, z: 0 },
        max_movement_speed: MAX_MOVEMENT_SPEED,
    };
    let rot = TopplingSystem::rolling_rotation(&still, 16_667);
    assert_eq!(rot, Vec2 { x: 0, y: 0 });
}

#[test]
fn kick_scales_current_speed() {
    let mut m = rolling_movement();
    TopplingSystem::apply_kick(&mut m, 500_000);
    assert_eq!(m.velocity, Vec3 { x: 3_000_000, y: 4_000_000, z: 2_500_000 });

    let mut calm = Movement {
        velocity: Vec3 { x: 0, y: 0, z: 0 },
        max_movement_speed: MAX_MOVEMENT_SPEED,
    };
    TopplingSystem::apply_kick(&mut calm, 699_999);
    assert_eq!(calm.velocity.z, 0);
}

#[test]
fn free_fall_is_occasional_and_kicks_upward() {
    let mut entered: u32 = 0;
    let mut stayed: u32 = 0;
    for _ in 0..2_000 {
        let mut m = rolling_movement();
        if TopplingSystem::enter_free_fall(&mut m) {
            entered += 1;
            assert!(2_000_000 <= m.velocity.z && m.velocity.z < 3_500_000);
        } else {
            stayed += 1;
            assert_eq!(m.velocity.z, 0);
        }
        assert_eq!(m.velocity.x, 3_000_000);
        assert_eq!(m.velocity.y, 4_000_000);
    }
    assert!(entered >= 1);
    assert!(stayed >= 1);
    assert!(entered < stayed);
}

#[test]
fn gravity_accelerates_downward() {
    let mut m = rolling_movement();
    let mut altitude: i64 = 400_000;
    assert!(!GravitySystem::fall_step(&mut m, &mut altitude, 16_667));
    assert_eq!(altitude, 400_000);
    assert_eq!(m.velocity.z, -66_668);
    assert_eq!(m.velocity.x, 3_000_000);
}

#[test]
fn gravity_lands_a_falling_entity() {
    let mut m = Movement {
        velocity: Vec3 { x: 7, y: 8, z: -1_000 },
        max_movement_speed: MAX_MOVEMENT_SPEED,
    };
    let mut altitude: i64 = 400_000;
    assert!(GravitySystem::fall_step(&mut m, &mut altitude, 16_667));
    assert_eq!(altitude, HEIGHT);
    assert_eq!(m.velocity.z, 0);

    let mut high: i64 = 900_000;
    assert!(!GravitySystem::fall_step(&mut m, &mut high, 16_667));
    assert_eq!(high, 900_000);
    assert_eq!(m.velocity.z, -66_668);
}

#[test]
fn wind_rotates_by_an_eighth_pi() {
    let control = DebugWindControlSystem::default();
    let mut wind = Wind { wind: Vec2 { x: 1_000_000, y: 0 } };
    control.handle_action("ChangeWindDirection", &mut wind);
    assert_eq!(wind.wind, Vec2 { x: 923_880, y: 382_683 });

    let mut northerly = Wind { wind: Vec2 { x: 0, y: 1_000_000 } };
    control.handle_action("ChangeWindDirection", &mut northerly);
    assert_eq!(northerly.wind, Vec2 { x: -382_683, y: 923_880 });
}

#[test]
fn other_actions_leave_the_wind_alone() {
    let control = DebugWindControlSystem::default();
    let mut wind = Wind { wind: Vec2 { x: 123, y: 456 } };
    control.handle_action("Jump", &mut wind);
    assert_eq!(wind.wind, Vec2 { x: 123, y: 456 });
    control.handle_action("", &mut wind);
    assert_eq!(wind.wind, Vec2 { x: 123, y: 456 });
}

#[test]
fn wind_rotation_roughly_keeps_the_speed() {
    let control = DebugWindControlSystem::default();
    let mut wind = Wind { wind: Vec2 { x: 1_750_000, y: 0 } };
    for _ in 0..16 {
        control.handle_action("ChangeWindDirection", &mut wind);
        let speed = Vec3 { x: wind.wind.x, y: wind.wind.y, z: 0 }.magnitude();
        assert!(1_749_000 <= speed && speed <= 1_750_000);
    }
    // Sixteen eighth-pi turns are one full turn, up to rounding.
    assert!((wind.wind.x - 1_750_000).abs() <= 50);
    assert!(wind.wind.y.abs() <= 50);
}

#[test]
fn calm_default_wind() {
    let wind = Wind::default();
    assert_eq!(wind.wind, Vec2 { x: 0, y: 0 });
}
