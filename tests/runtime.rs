use arcade::events::{EventState, InputEvent, Key};
use arcade::fonts::FontCache;
use arcade::frame::{transition, should_present, FrameClock, Tick, ViewAction};
use arcade::game::{wants_quit, ship_bounds, ship_sprites, Asteroid, Ship, ASTEROID_SIDE, SHIP_LEVEL};
use arcade::geometry::Rectangle;
use arcade::gfx::{slice_grid, AnimatedSprite, Sprite};

fn rect(x: i64, y: i64, w: i64, h: i64) -> Rectangle {
    Rectangle { x, y, w, h }
}

fn frames(n: usize) -> Vec<Sprite> {
    (0..n).map(|i| Sprite::new(i, 10, 10)).collect()
}

#[test]
fn move_inside_clamps_after_moving_left() {
    let mut r = rect(0, 0, 100, 50);
    r.x += -50;
    let moved = r.move_inside(rect(0, 0, 800, 600)).unwrap();
    assert_eq!(moved.x, 0);
    assert_eq!(moved.y, 0);
    assert_eq!((moved.w, moved.h), (100, 50));
}

#[test]
fn move_inside_result_is_contained() {
    let bounds = rect(10, 20, 300, 200);
    let cases = [
        rect(-500, -500, 30, 40),
        rect(1000, 1000, 30, 40),
        rect(50, 60, 30, 40),
        rect(295, 30, 30, 40),
        rect(0, 0, 300, 200),
    ];
    for r in cases.iter() {
        let m = r.move_inside(bounds).unwrap();
        assert!(bounds.contains(&m));
        assert_eq!((m.w, m.h), (r.w, r.h));
    }
    assert_eq!(rect(1000, 1000, 30, 40).move_inside(bounds).unwrap(), rect(280, 180, 30, 40));
    assert_eq!(rect(50, 60, 30, 40).move_inside(bounds).unwrap(), rect(50, 60, 30, 40));
}

#[test]
fn move_inside_fails_when_too_large() {
    let bounds = rect(0, 0, 800, 600);
    assert_eq!(rect(0, 0, 801, 10).move_inside(bounds), None);
    assert_eq!(rect(0, 0, 10, 601).move_inside(bounds), None);
    assert!(rect(0, 0, 800, 600).move_inside(bounds).is_some());
}

#[test]
fn intersects_excludes_touching_edges() {
    let a = rect(0, 0, 10, 10);
    assert!(!a.intersects(&rect(10, 0, 10, 10)));
    assert!(!a.intersects(&rect(0, 10, 10, 10)));
    assert!(a.intersects(&rect(9, 9, 10, 10)));
    assert!(rect(9, 9, 10, 10).intersects(&a));
    assert!(!a.intersects(&rect(20, 20, 5, 5)));
}

#[test]
fn contains_includes_borders() {
    let outer = rect(0, 0, 10, 10);
    assert!(outer.contains(&rect(0, 0, 10, 10)));
    assert!(outer.contains(&rect(2, 3, 4, 5)));
    assert!(!outer.contains(&rect(1, 0, 10, 10)));
    assert!(!outer.contains(&rect(-1, 0, 5, 5)));
    assert_eq!(outer.right(), 10);
    assert_eq!(rect(3, 4, 5, 6).bottom(), 10);
    assert_eq!((rect(3, 4, 5, 6).left(), rect(3, 4, 5, 6).top()), (3, 4));
}

#[test]
fn sprite_region_is_relative_and_bounded() {
    let sheet = Sprite::new(7, 100, 50);
    assert_eq!(sheet.size(), (100, 50));
    let part = sheet.region(rect(10, 5, 20, 20)).unwrap();
    assert_eq!(part.texture, 7);
    assert_eq!(part.src, rect(10, 5, 20, 20));
    let inner = part.region(rect(5, 5, 10, 10)).unwrap();
    assert_eq!(inner.src, rect(15, 10, 10, 10));
    assert_eq!(part.region(rect(5, 5, 20, 10)), None);
    assert_eq!(sheet.region(rect(90, 0, 11, 10)), None);
    assert_eq!(sheet.region(rect(-1, 0, 5, 5)), None);
}

#[test]
fn slice_grid_goes_row_by_row() {
    let sheet = Sprite::new(1, 129, 117);
    let cells = slice_grid(&sheet, 3, 9, 43, 39).unwrap();
    assert_eq!(cells.len(), 9);
    assert_eq!(cells[0].src, rect(0, 0, 43, 39));
    assert_eq!(cells[1].src, rect(43, 0, 43, 39));
    assert_eq!(cells[4].src, rect(43, 39, 43, 39));
    assert_eq!(cells[8].src, rect(86, 78, 43, 39));
    assert_eq!(slice_grid(&Sprite::new(1, 128, 117), 3, 9, 43, 39), None);
    assert_eq!(ship_sprites(&sheet).unwrap(), cells);
    assert!(ship_sprites(&Sprite::new(1, 129, 116)).is_none());
}

#[test]
fn animated_index_nine_frames_at_ten_fps() {
    let mut a = AnimatedSprite::with_fps(frames(9), 10_000);
    a.add_time(950);
    assert_eq!(a.elapsed, 950);
    assert_eq!(a.index(), 0);
    assert_eq!(a.current().texture, 0);
}

#[test]
fn animated_index_formula() {
    let mut a = AnimatedSprite::with_fps(frames(9), 10_000);
    assert_eq!(a.frame_count(), 9);
    assert_eq!(a.index(), 0);
    a.add_time(99);
    assert_eq!(a.index(), 0);
    a.add_time(1);
    assert_eq!(a.index(), 1);
    a.add_time(750);
    assert_eq!(a.index(), 8);
    assert_eq!(a.current().texture, 8);
    a.set_fps(2_500);
    assert_eq!(a.elapsed, 850);
    assert_eq!(a.index(), 2);
}

#[test]
fn animated_index_is_periodic() {
    // nine frames at ten frames per second repeat every 900 ms
    for e in [0u64, 13, 450, 899, 1234, 100_000] {
        let mut a = AnimatedSprite::with_fps(frames(9), 10_000);
        a.add_time(e);
        let first = a.index();
        a.add_time(900);
        assert_eq!(a.index(), first);
    }
}

#[test]
fn set_fps_keeps_elapsed() {
    let mut a = AnimatedSprite::with_fps(frames(4), 1_000);
    a.add_time(1_500);
    a.set_fps(30_000);
    assert_eq!(a.elapsed, 1_500);
    assert_eq!(a.fps, 30_000);
    assert_eq!(a.index(), 1);
    a.add_time(10);
    assert_eq!(a.elapsed, 1_510);
}

#[test]
fn pressed_only_on_rising_edge() {
    let mut s = EventState::new();
    assert!(!s.pressed(Key::Up));
    s.refresh(&vec![InputEvent::KeyDown(Key::Up)]);
    assert!(s.is_down(Key::Up));
    assert!(s.pressed(Key::Up));
    s.refresh(&vec![]);
    assert!(s.is_down(Key::Up));
    assert!(!s.pressed(Key::Up));
    s.refresh(&vec![InputEvent::KeyDown(Key::Up)]);
    assert!(!s.pressed(Key::Up));
    s.refresh(&vec![InputEvent::KeyUp(Key::Up)]);
    assert!(!s.is_down(Key::Up));
    assert!(!s.pressed(Key::Up));
    s.refresh(&vec![InputEvent::KeyDown(Key::Up), InputEvent::Other]);
    assert!(s.pressed(Key::Up));
    assert!(!s.pressed(Key::Down));
}

#[test]
fn press_and_release_within_one_frame_is_lost() {
    let mut s = EventState::new();
    s.refresh(&vec![InputEvent::KeyDown(Key::Space), InputEvent::KeyUp(Key::Space)]);
    assert!(!s.is_down(Key::Space));
    assert!(!s.pressed(Key::Space));
}

#[test]
fn quit_from_close_or_escape() {
    let mut s = EventState::new();
    s.refresh(&vec![InputEvent::Other, InputEvent::Quit]);
    assert!(s.quit());
    assert!(wants_quit(&s));
    s.refresh(&vec![]);
    assert!(!s.quit());
    s.refresh(&vec![InputEvent::KeyDown(Key::Escape)]);
    assert!(s.quit());
    assert!(wants_quit(&s));
    s.refresh(&vec![]);
    assert!(!s.quit());
    assert!(!wants_quit(&s));
}

#[test]
fn change_view_dispatches_to_new_view() {
    // each view is a label; a log records which view ran on each frame
    let mut current = "first";
    let mut log = Vec::new();
    let script = |view: &str, frame: usize| -> ViewAction<&'static str> {
        if view == "first" && frame == 1 {
            ViewAction::ChangeView("second")
        } else if frame == 4 {
            ViewAction::Quit
        } else {
            ViewAction::Continue
        }
    };
    let mut presented = 0;
    for frame in 0.. {
        log.push(current);
        let action = script(current, frame);
        if should_present(&action) {
            presented += 1;
        }
        match transition(current, action) {
            Some(next) => current = next,
            None => break,
        }
    }
    assert_eq!(log, vec!["first", "first", "second", "second", "second"]);
    assert_eq!(presented, 3);
    assert_eq!(transition(1, ViewAction::ChangeView(2)), Some(2));
    assert_eq!(transition(1, ViewAction::Continue), Some(1));
    assert_eq!(transition(1, ViewAction::Quit), None);
    assert!(!should_present(&ViewAction::ChangeView(2)));
    assert!(!should_present(&ViewAction::<u8>::Quit));
}

#[test]
fn frame_clock_waits_before_interval() {
    let mut c = FrameClock::new(1_000);
    assert_eq!(c.tick(1_010), Tick::Wait(7));
    assert_eq!((c.before, c.last_second, c.frames), (1_000, 1_000, 0));
    assert_eq!(c.tick(1_016), Tick::Wait(1));
    assert_eq!(c.tick(1_000), Tick::Wait(17));
    assert_eq!((c.before, c.last_second, c.frames), (1_000, 1_000, 0));
    assert_eq!(c.tick(1_017), Tick::Frame { elapsed: 17, report: None });
    assert_eq!((c.before, c.frames), (1_017, 1));
}

#[test]
fn frame_clock_reports_once_a_second() {
    let mut c = FrameClock::new(0);
    let mut now = 0;
    let mut reports = Vec::new();
    for _ in 0..70 {
        now += 17;
        match c.tick(now) {
            Tick::Frame { elapsed, report } => {
                assert_eq!(elapsed, 17);
                if let Some(n) = report {
                    reports.push((now, n));
                }
            }
            Tick::Wait(_) => panic!("a frame was due"),
        }
    }
    // 17 * 59 = 1003 is the first reading a second or more after the start
    assert_eq!(reports, vec![(1_003, 59)]);
    assert_eq!(c.last_second, 1_003);
    assert_eq!(c.frames, 11);
    assert_eq!(c.tick(now + 40), Tick::Frame { elapsed: 40, report: None });
}

#[test]
fn font_cache_keeps_one_slot_per_key() {
    let mut c = FontCache::new();
    let path = String::from("assets/belligerent.ttf");
    assert_eq!(c.lookup(&path, 32), None);
    assert_eq!(c.insert(path.clone(), 32), 0);
    assert_eq!(c.insert(path.clone(), 16), 1);
    assert_eq!(c.insert(String::from("assets/other.ttf"), 32), 2);
    assert_eq!(c.lookup(&path, 32), Some(0));
    assert_eq!(c.lookup(&path, 16), Some(1));
    assert_eq!(c.lookup(&String::from("assets/other.ttf"), 32), Some(2));
    assert_eq!(c.lookup(&String::from("assets/other.ttf"), 16), None);
    assert_eq!(c.len(), 3);
}

#[test]
fn ship_moves_with_keys_and_stays_inside() {
    let bounds = ship_bounds(800, 600);
    assert_eq!(bounds, rect(0, 0, 560, 600));
    let mut ship = Ship::new();
    assert_eq!(ship.rect, rect(64, 64, 43, 39));
    assert_eq!(ship.frame, SHIP_LEVEL);

    let mut keys = EventState::new();
    keys.refresh(&vec![InputEvent::KeyDown(Key::Right)]);
    assert!(ship.update(&keys, 1_000, bounds));
    assert_eq!(ship.rect.x, 244);
    assert_eq!(ship.rect.y, 64);
    assert_eq!(ship.frame, 4);

    keys.refresh(&vec![InputEvent::KeyDown(Key::Up)]);
    assert!(ship.update(&keys, 100, bounds));
    // 180 px/s for 100 ms, times 0.707 on each axis: 12.726 px
    assert_eq!((ship.rect.x, ship.rect.y), (256, 51));
    assert_eq!((ship.frac_x, ship.frac_y), (726, 274));
    assert_eq!(ship.frame, 1);

    keys.refresh(&vec![InputEvent::KeyUp(Key::Right), InputEvent::KeyDown(Key::Left)]);
    assert!(ship.update(&keys, 10_000, bounds));
    assert_eq!((ship.rect.x, ship.rect.y), (0, 0));
    assert_eq!((ship.frac_x, ship.frac_y), (0, 0));
    assert_eq!(ship.frame, 2);

    keys.refresh(&vec![InputEvent::KeyUp(Key::Left), InputEvent::KeyUp(Key::Up), InputEvent::KeyDown(Key::Down), InputEvent::KeyDown(Key::Right)]);
    assert!(ship.update(&keys, 100_000, bounds));
    assert_eq!((ship.rect.x, ship.rect.y), (517, 561));
    assert_eq!(ship.frame, 7);

    keys.refresh(&vec![InputEvent::KeyDown(Key::Up)]);
    assert!(ship.update(&keys, 1_000, bounds));
    assert_eq!(ship.rect.y, 561);
    assert_eq!(ship.frame, 4);

    let before = ship;
    assert!(!ship.update(&keys, 10, rect(0, 0, 40, 600)));
    assert_eq!(ship, before);
}

#[test]
fn asteroid_reset_uses_draws() {
    let sheet = Sprite::new(3, 21 * 96, 7 * 96);
    let mut a = Asteroid::new(&sheet, 800, 600).unwrap();
    assert_eq!(a.sprite.frame_count(), 143);
    assert_eq!(a.sprite.frames[142].src, rect(16 * 96, 6 * 96, 96, 96));
    assert_eq!(a.rect.x, 800);
    assert!(a.rect.y >= 0 && a.rect.y < 600 - ASTEROID_SIDE as i64);
    assert!(a.vel >= 50 && a.vel < 150);
    assert!(a.sprite.fps >= 10_000 && a.sprite.fps < 30_000);

    a.reset_with(800, 600, 25_000, 1_000, 120);
    assert_eq!(a.sprite.fps, 15_000);
    assert_eq!(a.rect, rect(800, 496, 96, 96));
    assert_eq!(a.vel, 70);

    a.reset_with(800, 50, 3, 1_000, 99);
    assert_eq!(a.rect.y, 0);
    assert_eq!(a.vel, 149);
    assert_eq!(a.sprite.fps, 10_003);

    assert!(Asteroid::new(&Sprite::new(3, 21 * 96, 6 * 96), 800, 600).is_none());
    assert!(Asteroid::new(&Sprite::new(3, 20 * 96, 7 * 96), 800, 600).is_none());
}

#[test]
fn asteroid_drifts_then_comes_back() {
    let sheet = Sprite::new(3, 21 * 96, 7 * 96);
    let mut a = Asteroid::new(&sheet, 800, 600).unwrap();
    a.reset_with(800, 600, 0, 0, 0);
    a.update(1_000, 800, 600);
    assert_eq!(a.rect.x, 750);
    assert_eq!(a.sprite.elapsed, 1_000);
    assert_eq!(a.sprite.index(), 10);
    a.update(16_900, 800, 600);
    assert_eq!(a.rect.x, -95);
    assert_eq!(a.vel, 50);
    a.update(20, 800, 600);
    assert_eq!(a.rect.x, 800);
    assert_eq!(a.sprite.elapsed, 17_920);
}

#[test]
fn ship_keeps_fractions_over_short_frames() {
    let bounds = ship_bounds(800, 600);
    let mut ship = Ship::new();
    let mut keys = EventState::new();
    keys.refresh(&vec![InputEvent::KeyDown(Key::Right)]);
    // 180 px/s over 17 ms is 3.06 px a frame
    for _ in 0..100 {
        assert!(ship.update(&keys, 17, bounds));
    }
    assert_eq!(ship.rect.x, 64 + 306);
    assert_eq!(ship.frac_x, 0);
    keys.refresh(&vec![InputEvent::KeyDown(Key::Down)]);
    // diagonally 180 * 0.707 px/s over 17 ms is 2.163 px on each axis
    for _ in 0..10 {
        assert!(ship.update(&keys, 17, bounds));
    }
    assert_eq!((ship.rect.x, ship.frac_x), (370 + 21, 630));
    assert_eq!((ship.rect.y, ship.frac_y), (64 + 21, 630));
}

#[test]
fn slow_asteroid_moves_over_short_frames() {
    let sheet = Sprite::new(3, 21 * 96, 7 * 96);
    let mut a = Asteroid::new(&sheet, 800, 600).unwrap();
    a.reset_with(800, 600, 0, 0, 0);
    assert_eq!(a.vel, 50);
    // 50 px/s over 17 ms is 0.85 px a frame
    a.update(17, 800, 600);
    assert_eq!((a.rect.x, a.frac_x), (799, 150));
    for _ in 0..19 {
        a.update(17, 800, 600);
    }
    assert_eq!((a.rect.x, a.frac_x), (783, 0));
}

#[test]
fn asteroid_fits_a_screen_no_taller_than_itself() {
    let sheet = Sprite::new(3, 21 * 96, 7 * 96);
    let a = Asteroid::new(&sheet, 300, 96).unwrap();
    assert_eq!(a.rect.y, 0);
    assert_eq!((a.rect.x, a.rect.w, a.rect.h), (300, 96, 96));
}
