use bevyski::game::{apply_auto_center, current_dog_sprite_id, turn_skier, CENTER_ANGLE};

#[test]
fn auto_center_moves_toward_center() {
    let mut a: i16 = 40;
    apply_auto_center(&mut a);
    assert_eq!(a, 41);
    let mut b: i16 = CENTER_ANGLE + 1;
    apply_auto_center(&mut b);
    assert_eq!(b, CENTER_ANGLE + 1);
}

#[test]
fn turning_is_clamped() {
    assert_eq!(turn_skier(11, true, false), 10);
    assert_eq!(turn_skier(129, false, true), 130);
    assert_eq!(turn_skier(70, true, true), 70);
}

#[test]
fn dog_sprite_ids() {
    assert_eq!(current_dog_sprite_id(0, 0), 400);
    assert_eq!(current_dog_sprite_id(14, 0), 416);
    assert_eq!(current_dog_sprite_id(100, 0), 400);
}

use bevyski::game::{
    calculate_angle_efficiency, dog_begin_frame, dog_end_frame, parse_pict_id_from_stem, recover_from_crash,
    AngleEfficiency, DogOutcome, DogPhase, GameSettings, GameState, ObstacleType, DOG_CRASH_THRESHOLD, MAX_SKIER_ANGLE,
    MIN_SKIER_ANGLE,
};

#[test]
fn obstacle_types_from_image_ids() {
    assert_eq!(ObstacleType::from(0u8), ObstacleType::Tree);
    assert_eq!(ObstacleType::from(5u8), ObstacleType::Tree);
    assert_eq!(ObstacleType::from(6u8), ObstacleType::Rock);
    assert_eq!(ObstacleType::from(11u8), ObstacleType::Jump);
    assert_eq!(ObstacleType::from(16u8), ObstacleType::Flag);
    assert_eq!(ObstacleType::from(17u8), ObstacleType::Other(17));
}

#[test]
fn angle_efficiency_bands() {
    assert_eq!(calculate_angle_efficiency(19), AngleEfficiency::Inefficient);
    assert_eq!(calculate_angle_efficiency(20), AngleEfficiency::Normal);
    assert_eq!(calculate_angle_efficiency(59), AngleEfficiency::Normal);
    assert_eq!(calculate_angle_efficiency(60), AngleEfficiency::Optimal);
    assert_eq!(calculate_angle_efficiency(70), AngleEfficiency::Optimal);
    assert_eq!(calculate_angle_efficiency(80), AngleEfficiency::Optimal);
    assert_eq!(calculate_angle_efficiency(81), AngleEfficiency::Normal);
    assert_eq!(calculate_angle_efficiency(130), AngleEfficiency::Normal);
    assert_eq!(calculate_angle_efficiency(131), AngleEfficiency::Inefficient);
}

#[test]
fn steering_stays_in_range() {
    for a in MIN_SKIER_ANGLE..=MAX_SKIER_ANGLE {
        for (l, r) in [(false, false), (true, false), (false, true), (true, true)] {
            let t = turn_skier(a, l, r);
            assert!((MIN_SKIER_ANGLE..=MAX_SKIER_ANGLE).contains(&t));
        }
    }
    assert_eq!(turn_skier(50, false, true), 52);
    assert_eq!(turn_skier(50, true, false), 48);
}

#[test]
fn auto_center_never_passes_the_center() {
    for start in [0i16, 10, 67, 68, 69, 70, 71, 72, 73, 130] {
        let mut a = start;
        apply_auto_center(&mut a);
        assert!((a - start).abs() <= 1);
        if start <= CENTER_ANGLE {
            assert!(a <= CENTER_ANGLE);
        } else {
            assert!(a >= CENTER_ANGLE);
        }
    }
    let mut a: i16 = 100;
    apply_auto_center(&mut a);
    assert_eq!(a, 99);
}

#[test]
fn dog_comes_on_the_fifth_crash() {
    let mut crashes = 0u32;
    let mut active = false;
    for n in 1..=DOG_CRASH_THRESHOLD {
        let r = recover_from_crash(crashes, active, 70);
        crashes = r.crashes_since_dog;
        active = r.dog_rescue_active;
        assert_eq!(crashes, n);
        assert_eq!(r.dog.is_some(), n == DOG_CRASH_THRESHOLD);
    }
    let placed = recover_from_crash(4, false, 70).dog.expect("dog");
    assert_eq!((placed.skier_offset_x, placed.screen_y), (22, 20));
    let left = recover_from_crash(4, false, 59).dog.expect("dog");
    assert_eq!((left.skier_offset_x, left.screen_y), (32, 17));
    let right = recover_from_crash(4, false, 80).dog.expect("dog");
    assert_eq!((right.skier_offset_x, right.screen_y), (50, 8));
    // While a rescue is under way crashes are not counted.
    let during = recover_from_crash(5, true, 70);
    assert_eq!(during.crashes_since_dog, 5);
    assert!(during.dog.is_none());
    assert!(during.dog_rescue_active);
    // The count saturates.
    assert_eq!(recover_from_crash(u32::MAX, false, 70).crashes_since_dog, u32::MAX);
}

#[test]
fn dog_animation_phases() {
    assert_eq!(dog_begin_frame(0, 0), (1, DogPhase::Approach));
    assert_eq!(dog_begin_frame(14, 0), (15, DogPhase::Wait));
    assert_eq!(dog_begin_frame(3, 2).0, 3);
    assert_eq!(dog_end_frame(15, 0, DogPhase::Wait, true, false),
        DogOutcome::Stays { anim_frame: 13, pose_frame: 0, release_skier: false });
    assert_eq!(dog_end_frame(30, 0, DogPhase::Leave, true, false), DogOutcome::Gone);
    assert_eq!(dog_end_frame(30, 0, DogPhase::Leave, false, false),
        DogOutcome::Stays { anim_frame: 0x16, pose_frame: 0, release_skier: false });
    assert_eq!(dog_end_frame(11, 0, DogPhase::Still, false, true),
        DogOutcome::Stays { anim_frame: 11, pose_frame: 0x1a, release_skier: false });
    assert_eq!(dog_end_frame(11, 0x24, DogPhase::Still, false, false),
        DogOutcome::Stays { anim_frame: 11, pose_frame: 0x25, release_skier: true });
    assert_eq!(dog_end_frame(11, 0x23, DogPhase::Still, false, false),
        DogOutcome::Stays { anim_frame: 11, pose_frame: 0, release_skier: false });
}

#[test]
fn sprite_ids_from_file_stems() {
    assert_eq!(parse_pict_id_from_stem("PICT_128"), Some(128));
    assert_eq!(parse_pict_id_from_stem("PICT_abc"), None);
    assert_eq!(parse_pict_id_from_stem("128"), None);
    assert_eq!(parse_pict_id_from_stem("PICT_65536"), None);
}

#[test]
fn game_defaults() {
    assert_eq!(GameState::default(), GameState::SkiLodge);
    let s = GameSettings::default();
    assert!(s.sound_enabled && s.animation_enabled && s.show_trails);
}

use bevyski::game::{collision_effect, collision_radius, CollisionEffect};

#[test]
fn collisions_by_obstacle_type() {
    assert_eq!(collision_radius(ObstacleType::Tree), 20);
    assert_eq!(collision_radius(ObstacleType::Rock), 15);
    assert_eq!(collision_radius(ObstacleType::Jump), 30);
    assert_eq!(collision_radius(ObstacleType::Flag), 25);
    assert_eq!(collision_radius(ObstacleType::Other(40)), 20);
    assert_eq!(collision_effect(ObstacleType::from(3u8)), CollisionEffect::Crash);
    assert_eq!(collision_effect(ObstacleType::from(7u8)), CollisionEffect::Crash);
    assert_eq!(collision_effect(ObstacleType::from(12u8)), CollisionEffect::Jump);
    assert_eq!(collision_effect(ObstacleType::from(15u8)), CollisionEffect::CollectFlag);
    assert_eq!(collision_effect(ObstacleType::from(99u8)), CollisionEffect::SlowDown);
}

use bevyski::game::{record_collision, record_recovery, rescue_after_dog, RescueLifecycle, RunTally};

#[test]
fn rescue_ends_when_the_dog_leaves() {
    let during = RescueLifecycle { crashes_since_dog: 5, dog_rescue_active: true };
    assert_eq!(rescue_after_dog(during, DogOutcome::Gone),
        RescueLifecycle { crashes_since_dog: 0, dog_rescue_active: false });
    let stays = DogOutcome::Stays { anim_frame: 3, pose_frame: 0, release_skier: false };
    assert_eq!(rescue_after_dog(during, stays), during);
    // After the rescue, five new crashes bring the dog again.
    let mut l = rescue_after_dog(during, DogOutcome::Gone);
    for n in 1..=5u32 {
        let r = recover_from_crash(l.crashes_since_dog, l.dog_rescue_active, 70);
        l = RescueLifecycle { crashes_since_dog: r.crashes_since_dog, dog_rescue_active: r.dog_rescue_active };
        assert_eq!(r.dog.is_some(), n == 5);
    }
}

#[test]
fn flags_count_for_points() {
    let t = RunTally { flags_collected: 2, jumps_performed: 1, crashes: 3 };
    assert_eq!(record_collision(t, collision_effect(ObstacleType::from(15u8))),
        RunTally { flags_collected: 3, jumps_performed: 1, crashes: 3 });
    assert_eq!(record_collision(t, CollisionEffect::Crash), t);
    assert_eq!(record_collision(t, CollisionEffect::Jump), t);
    let full = RunTally { flags_collected: u32::MAX, ..t };
    assert_eq!(record_collision(full, CollisionEffect::CollectFlag), full);
    assert_eq!(record_recovery(t), RunTally { crashes: 4, ..t });
}
