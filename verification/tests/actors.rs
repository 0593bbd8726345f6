use liquidators::editor::{structures_to_spawn, BodyKind, Structure};
use liquidators::enemy::{Enemy, HitPart};
use liquidators::game_state::wave_spawn_xs;
use liquidators::player::{Facing, Player};
use liquidators::time::Time;

#[test]
fn spawned_player() {
    let p: Player<&str, u32, u8, (i32, i32)> = Player::spawn(7, "me".to_string(), "head", "body", 3);
    assert_eq!(p.id, 7);
    assert_eq!(p.health, 100);
    assert_eq!(p.money, 0);
    assert_eq!(p.owner, "me");
    assert_eq!(p.head, "head");
    assert_eq!(p.body, "body");
    assert_eq!(p.sprite_path, "assets/player/idle.png");
    assert_eq!(p.facing, Facing::Right);
    assert_eq!(p.head_joint_handle, Some(3));
    assert_eq!(p.teleporter_destination, None);
    assert!(!p.selected && !p.dragging);
    assert_eq!(p.drag_offset, None);
    let w = p.weapon.as_ref().unwrap();
    assert_eq!((w.rounds(), w.capacity(), w.reserve_capacity()), (12, 12, 24));
}

#[test]
fn player_head_comes_off_at_zero_health() {
    let mut p: Player<(), u32, u8, ()> = Player::spawn(1, "me".to_string(), (), (), 9);
    assert_eq!(p.detach_head_if_dead(), None);
    assert_eq!(p.head_joint_handle, Some(9));
    p.health = 0;
    assert_eq!(p.detach_head_if_dead(), Some(9));
    assert_eq!(p.head_joint_handle, None);
    assert_eq!(p.detach_head_if_dead(), None);
}

#[test]
fn enemy_takes_hits_until_dead() {
    let mut e: Enemy<(), u8, u32> = Enemy::new("host".to_string(), (), (), 4);
    assert_eq!(e.health, 100);
    assert_eq!(e.facing, Facing::Right);
    assert_eq!(e.last_jump, Time::new(0));
    assert_eq!(e.player_target, None);
    assert!(e.is_alive());
    e.handle_bullet_impact(HitPart::Elsewhere, 50, 100);
    assert_eq!(e.health, 100);
    e.handle_bullet_impact(HitPart::Body, 30, 60);
    assert_eq!(e.health, 70);
    assert_eq!(e.detach_head_if_dead(), None);
    e.handle_bullet_impact(HitPart::Head, 30, 90);
    assert_eq!(e.health, -20);
    assert!(!e.is_alive());
    // a dead enemy takes no more damage
    e.handle_bullet_impact(HitPart::Head, 30, 90);
    assert_eq!(e.health, -20);
    assert_eq!(e.detach_head_if_dead(), Some(4));
    assert_eq!(e.head_body_joint, None);
}

#[test]
fn editor_keys_place_structures() {
    assert!(structures_to_spawn(false, false).is_empty());
    assert_eq!(structures_to_spawn(true, false), vec![BodyKind::Dynamic]);
    assert_eq!(structures_to_spawn(false, true), vec![BodyKind::Fixed]);
    assert_eq!(structures_to_spawn(true, true), vec![BodyKind::Dynamic, BodyKind::Fixed]);
    let s: Structure<u32, u64, (i32, i32)> = Structure::new(5, 6);
    assert_eq!((s.rigid_body_handle, s.collider_handle), (5, 6));
    assert!(s.menu.is_none() && !s.selected && !s.dragging && s.drag_offset.is_none());
}

#[test]
fn wave_enemies_spawn_in_a_row() {
    assert!(wave_spawn_xs(0).is_empty());
    assert_eq!(wave_spawn_xs(1), vec![-500]);
    assert_eq!(wave_spawn_xs(3), vec![-500, -440, -380]);
}
