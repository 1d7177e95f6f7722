use walk_the_dog::character::RedHatBoy;
use walk_the_dog::game::{GameError, GamePhase, WalkTheDog};
use walk_the_dog::geometry::{Point, Rect};
use walk_the_dog::input::KeyState;
use walk_the_dog::obstacle::{rightmost, Barrier, Obstacle, Platform};
use walk_the_dog::red_hat_boy::{Phase, Sound, FALLING_FRAMES, FLOOR, RUNNING_SPEED};
use walk_the_dog::segments::{platform_and_stone, platform_cells_present, stone_and_platform};
use walk_the_dog::sprite::{Cell, Image, ImageAsset, Sheet, SheetRect, SpriteSheet};
use walk_the_dog::ui::{draw_ui, hide_ui, Ui};
use walk_the_dog::walk::Walk;

fn cell(w: i16, h: i16) -> Cell {
    Cell {
        frame: SheetRect { x: 0, y: 0, w, h },
        sprite_source_size: SheetRect { x: 0, y: 0, w, h },
    }
}

fn boy_sheet() -> Sheet {
    let mut frames = Vec::new();
    for (label, count) in [("Idle", 10), ("Run", 8), ("Slide", 5), ("Jump", 12), ("Dead", 10)] {
        for k in 1..=count {
            frames.push((format!("{} ({}).png", label, k), cell(100, 121)));
        }
    }
    Sheet::new(frames).unwrap()
}

fn tiles() -> SpriteSheet {
    let frames = vec![
        ("13.png".to_string(), cell(128, 93)),
        ("14.png".to_string(), cell(128, 93)),
        ("15.png".to_string(), cell(128, 93)),
    ];
    SpriteSheet::new(Sheet::new(frames).unwrap(), ImageAsset { id: 2, width: 512, height: 512 })
}

fn stone() -> ImageAsset {
    ImageAsset { id: 3, width: 90, height: 54 }
}

fn boy() -> RedHatBoy {
    RedHatBoy::new(boy_sheet(), ImageAsset { id: 1, width: 800, height: 800 }, Sound { id: 9 })
}

fn walk() -> Walk {
    Walk::new(boy(), ImageAsset { id: 4, width: 1200, height: 600 }, tiles(), stone())
}

fn platform_at(x: i16, y: i16) -> Platform {
    Platform::new(
        &tiles(),
        Point { x, y },
        &["13.png", "14.png", "15.png"],
        &[
            Rect::new_from_x_y(0, 0, 60, 54),
            Rect::new_from_x_y(60, 0, 264, 93),
            Rect::new_from_x_y(324, 0, 60, 54),
        ],
    )
}

#[test]
fn rect_intersection_is_closed_on_both_axes() {
    let a = Rect::new_from_x_y(0, 0, 10, 10);
    assert!(a.intersects(&Rect::new_from_x_y(10, 10, 5, 5)));
    assert!(!a.intersects(&Rect::new_from_x_y(11, 0, 5, 5)));
    assert!(!a.intersects(&Rect::new_from_x_y(0, 11, 5, 5)));
    assert_eq!(a.right(), 10);
    assert_eq!(a.bottom(), 10);
}

#[test]
fn platform_places_boxes_relative_to_its_position() {
    let p = platform_at(100, 400);
    assert_eq!(p.bounding_boxes()[1], Rect::new_from_x_y(160, 400, 264, 93));
    assert_eq!(p.right(), 484);
    assert_eq!(p.sprites.len(), 3);
    let draws = p.draw();
    assert_eq!(draws.len(), 3);
    assert_eq!(draws[0].destination, Rect::new_from_x_y(100, 400, 128, 93));
    assert_eq!(draws[2].destination, Rect::new_from_x_y(356, 400, 128, 93));
    assert_eq!(p.draw_rect().len(), 3);
}

#[test]
fn platform_takes_one_cell_per_name_and_ends_at_its_last_box() {
    let p = Platform::new(&tiles(), Point { x: 50, y: 50 }, &["14.png"], &[Rect::new_from_x_y(10, 0, 30, 20)]);
    assert_eq!(p.sprites.len(), 1);
    assert_eq!(p.right(), 90);
    assert!(platform_cells_present(&tiles().sheet));
    let partial = Sheet::new(vec![("13.png".to_string(), cell(1, 1))]).unwrap();
    assert!(!platform_cells_present(&partial));
}

#[test]
fn platform_moves_with_its_boxes() {
    let mut p = platform_at(100, 400);
    p.move_horizontally(-4);
    assert_eq!(p.position, Point { x: 96, y: 400 });
    assert_eq!(p.bounding_boxes()[0].x(), 96);
    assert_eq!(p.right(), 480);
}

#[test]
fn coming_down_onto_a_platform_lands_on_its_top() {
    let mut b = boy();
    b.run_right();
    b.jump();
    while b.velocity_y() <= 0 {
        b.update();
    }
    // Top of the arc passed: falling down from above the platform.
    let y = b.pos_y();
    let top = y + 121 - 20;
    let p = platform_at(-20, top);
    p.check_intersection(&mut b);
    assert_eq!(b.phase(), Phase::Running);
    assert_eq!(b.pos_y(), top - 121);
}

#[test]
fn touching_a_platform_without_coming_down_knocks_out() {
    let mut b = boy();
    b.run_right();
    let p = platform_at(0, 500);
    assert_eq!(b.velocity_y(), 0);
    p.check_intersection(&mut b);
    assert_eq!(b.phase(), Phase::Falling);
    let mut b2 = boy();
    b2.run_right();
    b2.jump();
    b2.update();
    assert!(b2.velocity_y() < 0);
    let p2 = platform_at(-20, b2.pos_y() + 50);
    p2.check_intersection(&mut b2);
    assert_eq!(b2.phase(), Phase::Falling);
}

#[test]
fn missing_a_platform_changes_nothing() {
    let mut b = boy();
    b.run_right();
    let p = platform_at(1000, 100);
    p.check_intersection(&mut b);
    assert_eq!(b.phase(), Phase::Running);
}

#[test]
fn barrier_knocks_out_after_the_fall() {
    let barrier = Barrier::new(Image::new(stone(), Point { x: 0, y: 546 }));
    let mut b = boy();
    b.run_right();
    b.jump();
    b.update();
    barrier.check_intersection(&mut b);
    assert_eq!(b.phase(), Phase::Falling);
    assert_eq!(b.walking_speed(), 0);
    for _ in 0..FALLING_FRAMES - 1 {
        b.update();
        assert_eq!(b.phase(), Phase::Falling);
    }
    b.update();
    assert!(b.knocked_out());
    b.update();
    assert!(b.knocked_out());
}

#[test]
fn barrier_out_of_reach_changes_nothing() {
    let barrier = Barrier::new(Image::new(stone(), Point { x: 500, y: 546 }));
    let mut b = boy();
    b.run_right();
    barrier.check_intersection(&mut b);
    assert_eq!(b.phase(), Phase::Running);
    assert_eq!(barrier.right(), 590);
}

#[test]
fn rightmost_is_the_largest_right_edge_or_zero() {
    assert_eq!(rightmost(&vec![]), 0);
    let list = vec![
        Obstacle::Barrier(Barrier::new(Image::new(stone(), Point { x: 700, y: 546 }))),
        Obstacle::Platform(platform_at(100, 400)),
    ];
    assert_eq!(rightmost(&list), 790);
    let behind = vec![Obstacle::Barrier(Barrier::new(Image::new(stone(), Point { x: -200, y: 546 })))];
    assert_eq!(rightmost(&behind), -110);
}

#[test]
fn segments_have_their_layouts() {
    let a = stone_and_platform(stone(), &tiles(), 0);
    assert_eq!(a.len(), 2);
    match &a[0] {
        Obstacle::Barrier(b) => assert_eq!(b.image.bounding_box, Rect::new_from_x_y(150, 546, 90, 54)),
        _ => panic!("stone expected"),
    }
    match &a[1] {
        Obstacle::Platform(p) => assert_eq!(p.position, Point { x: 370, y: 420 }),
        _ => panic!("platform expected"),
    }
    assert_eq!(rightmost(&a), 754);
    let b = platform_and_stone(stone(), &tiles(), 1000);
    match &b[0] {
        Obstacle::Barrier(s) => assert_eq!(s.image.bounding_box.x(), 1400),
        _ => panic!("stone expected"),
    }
    match &b[1] {
        Obstacle::Platform(p) => assert_eq!(p.position, Point { x: 1200, y: 375 }),
        _ => panic!("platform expected"),
    }
    assert_eq!(rightmost(&b), 1584);
}

fn left(o: &Obstacle) -> i16 {
    match o {
        Obstacle::Barrier(b) => b.image.bounding_box.x(),
        Obstacle::Platform(p) => p.position.x,
    }
}

#[test]
fn generation_moves_the_timeline_to_the_new_right_edge() {
    for choice in [0u8, 1u8] {
        let mut w = walk();
        w.timeline = 500;
        let before = w.obstacles.len();
        w.generate_segment(choice);
        let added: Vec<Obstacle> = w.obstacles[before..].to_vec();
        assert_eq!(added.len(), 2);
        assert_eq!(w.timeline, rightmost(&added));
        for o in &added {
            assert!(left(o) >= 520);
        }
    }
    let mut w = walk();
    w.timeline = 500;
    w.generate_segment(7);
    assert_eq!(w.obstacles.len(), 2);
    assert_eq!(w.timeline, 0);
}

#[test]
fn random_generation_appends_one_of_the_layouts() {
    let mut w = walk();
    w.timeline = -100;
    w.generate_next_segment();
    assert_eq!(w.obstacles.len(), 4);
    let added: Vec<Obstacle> = w.obstacles[2..].to_vec();
    assert_eq!(w.timeline, rightmost(&added));
    assert!(added.iter().all(|o| left(o) >= -80));
}

#[test]
fn backgrounds_wrap_around() {
    let mut w = walk();
    assert_eq!(w.backgrounds[1].bounding_box.x(), 1200);
    w.boy.run_right();
    for _ in 0..300 {
        w.scroll_backgrounds(-RUNNING_SPEED);
    }
    assert_eq!(w.backgrounds[0].bounding_box.x(), -1200);
    assert_eq!(w.backgrounds[1].bounding_box.x(), 0);
    w.scroll_backgrounds(-RUNNING_SPEED);
    assert_eq!(w.backgrounds[0].bounding_box.x(), 1196);
    assert_eq!(w.backgrounds[1].bounding_box.x(), -4);
}

#[test]
fn obstacles_off_screen_are_dropped() {
    let mut w = walk();
    w.obstacles.push(Obstacle::Barrier(Barrier::new(Image::new(stone(), Point { x: -91, y: 546 }))));
    w.obstacles.push(Obstacle::Barrier(Barrier::new(Image::new(stone(), Point { x: -90, y: 546 }))));
    w.update_obstacles(-4);
    assert_eq!(w.obstacles.len(), 3);
    assert_eq!(left(&w.obstacles[2]), -94);
    assert_eq!(left(&w.obstacles[0]), 146);
    assert_eq!(w.timeline, 754);
}

#[test]
fn walk_draws_backgrounds_then_character_then_obstacles() {
    let w = walk();
    let draws = w.draw();
    assert_eq!(draws.len(), 2 + 1 + 1 + 3);
    assert_eq!(draws[4].destination, Rect::new_from_x_y(370, 420, 128, 93));
    assert_eq!(draws[6].destination, Rect::new_from_x_y(626, 420, 128, 93));
    assert_eq!(draws[0].image.id, 4);
    assert_eq!(draws[2].image.id, 1);
    assert_eq!(draws[3].image.id, 3);
}

#[test]
fn ui_overlay_shows_and_hides_controls() {
    let mut ui = Ui::new();
    assert!(!hide_ui(&mut ui));
    draw_ui(&mut ui, "<p>a</p>");
    draw_ui(&mut ui, "<p>b</p>");
    assert_eq!(ui.len(), 2);
    assert_eq!(ui.child(0), "<p>b</p>");
    assert!(hide_ui(&mut ui));
    assert_eq!(ui.child(0), "<p>a</p>");
}

#[test]
fn keys_are_pressed_and_released() {
    let mut keys = KeyState::new();
    assert!(!keys.is_pressed("Space"));
    keys.set_pressed("Space");
    keys.set_pressed("ArrowDown");
    keys.set_pressed("Space");
    assert!(keys.is_pressed("Space"));
    keys.set_released("Space");
    assert!(!keys.is_pressed("Space"));
    assert!(keys.is_pressed("ArrowDown"));
}

#[test]
fn game_initializes_once() {
    let game = WalkTheDog::new();
    assert_eq!(game.phase(), None);
    let started = game.initialize(walk()).unwrap();
    assert_eq!(started.phase(), Some(GamePhase::Ready));
    assert!(matches!(started.initialize(walk()), Err(GameError::AlreadyInitialized)));
}

#[test]
fn game_runs_from_ready_to_game_over_and_back() {
    let mut game = WalkTheDog::new().initialize(walk()).unwrap();
    let mut keys = KeyState::new();
    game.update(&keys);
    assert_eq!(game.phase(), Some(GamePhase::Ready));
    keys.set_pressed("ArrowRight");
    game.update(&keys);
    assert_eq!(game.phase(), Some(GamePhase::Walking));
    let w = game.walk().unwrap();
    assert_eq!(w.boy.phase(), Phase::Running);
    assert_eq!(w.boy.walking_speed(), RUNNING_SPEED);
    keys.set_released("ArrowRight");
    let mut ticks = 0;
    while game.phase() == Some(GamePhase::Walking) {
        game.update(&keys);
        ticks += 1;
        assert!(ticks < 200);
    }
    assert_eq!(game.phase(), Some(GamePhase::GameOver));
    assert!(game.walk().unwrap().knocked_out());
    assert_eq!(game.ui.child(0), "<button id='new_game'>New Game</button>");
    game.update(&keys);
    assert_eq!(game.phase(), Some(GamePhase::GameOver));
    game.new_game_event();
    game.update(&keys);
    assert_eq!(game.phase(), Some(GamePhase::Ready));
    assert_eq!(game.ui.len(), 0);
    let w = game.walk().unwrap();
    assert_eq!(w.boy.phase(), Phase::Idle);
    assert_eq!(w.boy.pos_y(), FLOOR);
    assert_eq!(w.timeline, 754);
    assert_eq!(w.timeline, rightmost(&w.obstacles));
    assert_eq!(game.draw().len(), 7);
}

#[test]
fn jumping_in_the_game_asks_for_the_jump_sound() {
    let mut game = WalkTheDog::new().initialize(walk()).unwrap();
    let mut keys = KeyState::new();
    keys.set_pressed("ArrowRight");
    game.update(&keys);
    keys.set_pressed("Space");
    game.update(&keys);
    assert_eq!(game.walk().unwrap().boy.phase(), Phase::Jumping);
    assert_eq!(game.take_sounds(), vec![Sound { id: 9 }]);
}

#[test]
fn ready_game_keeps_the_world_still() {
    let mut game = WalkTheDog::new().initialize(walk()).unwrap();
    let keys = KeyState::new();
    let before_x = game.walk().unwrap().backgrounds[1].bounding_box.x();
    let before_timeline = game.walk().unwrap().timeline;
    for _ in 0..10 {
        game.update(&keys);
    }
    let w = game.walk().unwrap();
    assert_eq!(w.backgrounds[1].bounding_box.x(), before_x);
    assert_eq!(w.timeline, before_timeline);
    assert_eq!(w.boy.phase(), Phase::Idle);
    assert_eq!(w.boy.state_machine.context().frame, 10);
    assert_eq!(game.draw(), w.draw());
}

#[test]
fn platform_accepts_any_box_list() {
    let none = Platform::new(&tiles(), Point { x: 50, y: 50 }, &["13.png"], &[]);
    assert_eq!(none.right(), 0);
    assert_eq!(none.sprites.len(), 1);
    let left = Platform::new(&tiles(), Point { x: 50, y: 50 }, &[], &[Rect::new_from_x_y(-30, -10, 20, 5)]);
    assert_eq!(left.bounding_boxes()[0], Rect::new_from_x_y(20, 40, 20, 5));
    assert_eq!(left.right(), 40);
}
