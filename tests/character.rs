use walk_the_dog::character::{has_animation_frames, RedHatBoy};
use walk_the_dog::geometry::Point;
use walk_the_dog::red_hat_boy::{
    Event, Phase, RedHatBoyContext, RedHatBoyStateMachine, Sound, FLOOR, JUMP_SPEED, RUNNING_SPEED,
};
use walk_the_dog::sprite::{Cell, ImageAsset, Sheet, SheetRect};

fn cell(w: i16, h: i16) -> Cell {
    Cell {
        frame: SheetRect { x: 0, y: 0, w, h },
        sprite_source_size: SheetRect { x: 0, y: 0, w, h },
    }
}

fn character_frames() -> Vec<(String, Cell)> {
    let mut frames = Vec::new();
    for (label, count) in [("Idle", 10), ("Run", 8), ("Slide", 5), ("Jump", 12), ("Dead", 10)] {
        for k in 1..=count {
            frames.push((format!("{} ({}).png", label, k), cell(100, 121)));
        }
    }
    frames
}

fn boy() -> RedHatBoy {
    let sheet = Sheet::new(character_frames()).unwrap();
    RedHatBoy::new(sheet, ImageAsset { id: 1, width: 800, height: 800 }, Sound { id: 7 })
}

fn running() -> RedHatBoyStateMachine {
    RedHatBoyStateMachine::new(Sound { id: 1 }).transition(Event::Run)
}

#[test]
fn idle_frame_counter_wraps_after_frame_count() {
    let mut sm = RedHatBoyStateMachine::new(Sound { id: 1 });
    for n in 1..=29u8 {
        sm = sm.update();
        assert_eq!(sm.context().frame, n);
        assert_eq!(sm.phase(), Phase::Idle);
    }
    sm = sm.update();
    assert_eq!(sm.context().frame, 0);
}

#[test]
fn running_frame_counter_wraps_after_frame_count() {
    let mut sm = running();
    assert_eq!(sm.context().frame, 0);
    for n in 1..=23u8 {
        sm = sm.update();
        assert_eq!(sm.context().frame, n);
    }
    sm = sm.update();
    assert_eq!(sm.context().frame, 0);
    assert_eq!(sm.phase(), Phase::Running);
}

#[test]
fn slide_ends_in_running_with_frame_reset() {
    let mut sm = running().transition(Event::Slide);
    assert_eq!(sm.phase(), Phase::Sliding);
    for _ in 0..13 {
        sm = sm.update();
        assert_eq!(sm.phase(), Phase::Sliding);
        assert!(sm.context().frame <= 14);
    }
    sm = sm.update();
    assert_eq!(sm.phase(), Phase::Running);
    assert_eq!(sm.context().frame, 0);
}

#[test]
fn jump_rises_then_falls_back_to_running_on_the_floor() {
    let mut sm = running().transition(Event::Jump);
    assert_eq!(sm.phase(), Phase::Jumping);
    assert_eq!(sm.context().velocity.y, JUMP_SPEED);
    let mut ticks = 0;
    let mut lowest = FLOOR;
    while sm.phase() == Phase::Jumping {
        let before = *sm.context();
        sm = sm.update();
        let after = *sm.context();
        if sm.phase() == Phase::Jumping {
            if after.velocity.y < 0 {
                assert!(after.position.y < before.position.y);
            } else if after.velocity.y > 0 {
                assert!(after.position.y > before.position.y);
            }
        }
        lowest = lowest.min(after.position.y);
        ticks += 1;
        assert!(ticks < 100);
    }
    assert_eq!(sm.phase(), Phase::Running);
    assert_eq!(sm.context().position.y, FLOOR);
    assert_eq!(sm.context().frame, 0);
    // 24 + 23 + ... + 1 above the floor at the top of the arc.
    assert_eq!(lowest, FLOOR - 300);
}

#[test]
fn context_update_applies_gravity_and_clamps_to_the_floor() {
    let c = RedHatBoyContext {
        frame: 5,
        position: Point { x: -20, y: 470 },
        velocity: Point { x: 4, y: 19 },
        jump_sound: Sound { id: 0 },
    };
    let n = c.update(23);
    assert_eq!(n.velocity.y, 20);
    assert_eq!(n.frame, 6);
    assert_eq!(n.position.y, FLOOR);
    assert_eq!(n.position.x, -20);
    let top = RedHatBoyContext { velocity: Point { x: 0, y: 20 }, position: Point { x: 0, y: 100 }, ..c };
    let m = top.update(5);
    assert_eq!(m.velocity.y, 20);
    assert_eq!(m.position.y, 120);
    assert_eq!(m.frame, 0);
}

#[test]
fn events_a_phase_does_not_accept_change_nothing() {
    let idle = RedHatBoyStateMachine::new(Sound { id: 3 });
    for e in [Event::Jump, Event::Slide, Event::KnockOut, Event::Land(300)] {
        let after = idle.transition(e);
        assert_eq!(after.phase(), Phase::Idle);
        assert_eq!(after.context(), idle.context());
    }
    let run = running();
    let after = run.transition(Event::Run);
    assert_eq!(after.phase(), Phase::Running);
    assert_eq!(after.context(), run.context());
    let out = running().transition(Event::KnockOut);
    for e in [Event::Run, Event::Jump, Event::Slide, Event::KnockOut, Event::Land(10)] {
        assert_eq!(out.transition(e).context(), out.context());
        assert_eq!(out.transition(e).phase(), Phase::Falling);
    }
}

#[test]
fn run_sets_running_speed_and_knock_out_stops() {
    let sm = running();
    assert_eq!(sm.context().velocity.x, RUNNING_SPEED);
    let fallen = sm.transition(Event::KnockOut);
    assert_eq!(fallen.phase(), Phase::Falling);
    assert_eq!(fallen.context().velocity.x, 0);
    assert_eq!(fallen.frame_name(), "Dead");
}

#[test]
fn land_places_the_character_one_height_above_the_surface() {
    let sm = running().transition(Event::Land(420));
    assert_eq!(sm.phase(), Phase::Running);
    assert_eq!(sm.context().position.y, 420 - 121);
    let sliding = running().transition(Event::Slide).transition(Event::Land(375));
    assert_eq!(sliding.phase(), Phase::Sliding);
    assert_eq!(sliding.context().position.y, 375 - 121);
}

#[test]
fn frame_name_counts_pictures_every_three_ticks() {
    let mut b = boy();
    assert_eq!(b.frame_name(), "Idle (1).png");
    for _ in 0..3 {
        b.update();
    }
    assert_eq!(b.frame_name(), "Idle (2).png");
    for _ in 0..26 {
        b.update();
    }
    assert_eq!(b.frame_name(), "Idle (10).png");
    b.run_right();
    assert_eq!(b.frame_name(), "Run (1).png");
}

#[test]
fn bounding_box_is_inset_from_the_drawn_box() {
    let b = boy();
    let d = b.destination_box();
    assert_eq!((d.x(), d.y(), d.width, d.height), (-20, 479, 100, 121));
    let r = b.bounding_box();
    assert_eq!((r.x(), r.y(), r.width, r.height), (-2, 493, 72, 107));
}

#[test]
fn jump_asks_for_the_jump_sound_once() {
    let mut b = boy();
    b.jump();
    assert!(b.take_sounds().is_empty());
    b.run_right();
    b.jump();
    b.jump();
    assert_eq!(b.take_sounds(), vec![Sound { id: 7 }]);
    assert!(b.take_sounds().is_empty());
}

#[test]
fn sheet_coverage_is_checked() {
    let full = Sheet::new(character_frames()).unwrap();
    assert!(has_animation_frames(&full));
    let mut frames = character_frames();
    frames.retain(|(name, _)| name != "Jump (12).png");
    let partial = Sheet::new(frames).unwrap();
    assert!(!has_animation_frames(&partial));
}

#[test]
fn sheet_rejects_out_of_range_cells_and_finds_first_entry() {
    let bad = vec![("a".to_string(), cell(5000, 10))];
    assert!(Sheet::new(bad).is_none());
    assert!(Sheet::new(vec![("a".to_string(), cell(1, 2)), ("a".to_string(), cell(3, 4))]).is_none());
    let sheet = Sheet::new(vec![("a".to_string(), cell(1, 2)), ("b".to_string(), cell(3, 4))]).unwrap();
    assert_eq!(sheet.cell("a"), Some(cell(1, 2)));
    assert_eq!(sheet.cell("b"), Some(cell(3, 4)));
    assert_eq!(sheet.cell("c"), None);
}

#[test]
fn reset_gives_a_fresh_idle_character() {
    let mut b = boy();
    b.run_right();
    b.jump();
    b.update();
    assert!(!b.sounds.is_empty());
    let fresh = RedHatBoy::reset(b);
    assert!(fresh.sounds.is_empty());
    assert_eq!(fresh.image.id, 1);
    assert_eq!(fresh.phase(), Phase::Idle);
    assert_eq!(fresh.pos_y(), FLOOR);
    assert_eq!(fresh.velocity_y(), 0);
    assert_eq!(fresh.walking_speed(), 0);
    assert_eq!(fresh.state_machine.context().jump_sound, Sound { id: 7 });
}
