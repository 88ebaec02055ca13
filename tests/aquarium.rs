use aquarium::bubble::Bubble;
use aquarium::chance::draw_index;
use aquarium::control::{Action, InputEvent, Key};
use aquarium::fish::Fish;
use aquarium::render::{cell_of, waterline_cmd};
use aquarium::shark::Shark;
use aquarium::sprite::{fish_sprite_chars, fish_width, mirror, mirror_char, shark_sprite_chars, Tint};
use aquarium::tank::{catches, Aquarium, INITIAL_FISH, INITIAL_SHARKS};
use rand::rngs::StdRng;
use rand::SeedableRng;

fn chars(s: &str) -> Vec<char> {
    s.chars().collect()
}

fn text(v: &[char]) -> String {
    v.iter().collect()
}

fn fish_at(x: i64, y: i64) -> Fish {
    Fish { x, y, speed: 50, v_speed: 10, direction: 1, v_direction: 1, color: Tint::Red, kind: 0 }
}

fn shark_at(x: i64, y: i64) -> Shark {
    Shark { x, y, speed: 60, v_speed: 10, direction: -1, v_direction: 1 }
}

fn tank(fishes: Vec<Fish>, sharks: Vec<Shark>) -> Aquarium {
    Aquarium { width: 80, height: 24, fishes, bubbles: Vec::new(), sharks }
}

#[test]
fn mirror_swaps_brackets_and_reverses() {
    assert_eq!(text(&mirror(&chars("><>"))), "<><");
    assert_eq!(text(&mirror(&chars("><(('>"))), "<'))><");
    assert_eq!(text(&mirror(&chars("{a[b]c}"))), "{c[b]a}");
    assert_eq!(text(&mirror(&chars("a/b\\"))), "\\b/a");
    assert_eq!(text(&mirror(&chars(""))), "");
    assert_eq!(mirror_char('x'), 'x');
    assert_eq!(mirror_char('/'), '/');
}

#[test]
fn mirror_twice_restores_every_sprite() {
    for kind in 0..6 {
        let s = fish_sprite_chars(kind);
        assert_eq!(mirror(&mirror(&s)), s);
    }
    let shark = shark_sprite_chars();
    assert_eq!(mirror(&mirror(&shark)), shark);
    let odd = chars("<[(x)]>{/}\\");
    assert_eq!(mirror(&mirror(&odd)), odd);
}

#[test]
fn shark_faces_the_way_it_swims() {
    let mut s = shark_at(1000, 500);
    assert_eq!(text(&s.glyphs()), ">____\\^/____");
    s.direction = 1;
    assert_eq!(text(&s.glyphs()), "____/^\\____<");
}

#[test]
fn fish_faces_the_way_it_swims() {
    let mut f = fish_at(1000, 500);
    f.kind = 3;
    assert_eq!(text(&f.glyphs()), "><(('>");
    f.direction = -1;
    assert_eq!(text(&f.glyphs()), "<'))><");
    assert_eq!(fish_width(1), 8);
}

#[test]
fn fish_bounces_off_the_left_edge() {
    let mut f = fish_at(150, 500);
    f.direction = -1;
    f.speed = 60;
    f.advance(80, 24, false);
    assert_eq!(f.x, 100);
    assert_eq!(f.direction, 1);
    assert_eq!(f.y, 510);
    assert_eq!(f.v_direction, 1);
}

#[test]
fn fish_bounces_off_the_right_edge() {
    // kind 0 is three cells wide: the right end of its range is 77 cells.
    let mut f = fish_at(7680, 500);
    f.advance(80, 24, true);
    assert_eq!(f.x, 7700);
    assert_eq!(f.direction, -1);
    assert_eq!(f.v_direction, -1);
}

#[test]
fn fish_bounces_off_top_and_bottom() {
    let mut f = fish_at(1000, 105);
    f.v_direction = -1;
    f.advance(80, 24, false);
    assert_eq!(f.y, 100);
    assert_eq!(f.v_direction, 1);
    let mut g = fish_at(1000, 2195);
    g.advance(80, 24, false);
    assert_eq!(g.y, 2200);
    assert_eq!(g.v_direction, -1);
}

#[test]
fn shark_keeps_its_margins() {
    let mut s = shark_at(150, 205);
    s.v_direction = -1;
    s.advance(80, 24, false);
    assert_eq!(s.x, 100);
    assert_eq!(s.direction, 1);
    assert_eq!(s.y, 200);
    assert_eq!(s.v_direction, 1);
    let mut t = shark_at(6790, 2095);
    t.direction = 1;
    t.advance(80, 24, false);
    assert_eq!(t.x, 6800);
    assert_eq!(t.direction, -1);
    assert_eq!(t.y, 2100);
    assert_eq!(t.v_direction, -1);
}

#[test]
fn creatures_stay_in_view_over_many_ticks() {
    let mut rng = StdRng::seed_from_u64(7);
    let mut a = Aquarium::new(60, 20, INITIAL_FISH, INITIAL_SHARKS, &mut rng);
    for tick in 0..500 {
        if tick == 250 {
            assert_eq!(a.handle_event(InputEvent::Resize(30, 12)), Action::Clear);
        }
        a.step(&mut rng);
        let (w, h) = (a.width as i64, a.height as i64);
        for f in &a.fishes {
            assert!(f.x >= 100 && f.x <= (w - fish_width(f.kind)) * 100);
            assert!(f.y >= 100 && f.y <= (h - 2) * 100);
        }
        for s in &a.sharks {
            assert!(s.x >= 100 && s.x <= (w - 12) * 100);
            assert!(s.y >= 200 && s.y <= (h - 3) * 100);
        }
        for b in &a.bubbles {
            assert!(b.y > 100);
            assert!(b.x >= 100 && b.x <= (w - 1) * 100);
        }
        assert!(!a.fishes.is_empty());
        assert_eq!(a.sharks.len(), INITIAL_SHARKS);
    }
}

#[test]
fn bubble_reaches_the_surface_on_time() {
    // Created at y = height - 1 with height 12, rising 0.3 cells a tick:
    // ceil((12 - 2) / 0.3) = 34 ticks.
    let mut b = Bubble { x: 500, y: 1100, speed: 30 };
    let mut ticks = 0;
    while b.y > 100 {
        b.advance(80, 0);
        ticks += 1;
    }
    assert_eq!(ticks, 34);
    assert_eq!(b.x, 500);
    assert_eq!(b.y, 80);
}

#[test]
fn bubble_wobble_and_surface() {
    let mut b = Bubble { x: 120, y: 500, speed: 10 };
    b.advance(80, -50);
    assert_eq!((b.x, b.y), (100, 490));
    b.advance(80, 30);
    assert_eq!((b.x, b.y), (130, 480));
    let mut edge = Bubble { x: 7890, y: 500, speed: 25 };
    edge.advance(80, 49);
    assert_eq!((edge.x, edge.y), (7900, 475));
    let mut top = Bubble { x: 300, y: 100, speed: 10 };
    top.advance(80, 20);
    assert_eq!((top.x, top.y), (320, 90));
}

#[test]
fn drop_surfaced_keeps_living_bubbles_in_order() {
    let mut a = tank(Vec::new(), Vec::new());
    a.bubbles = vec![
        Bubble { x: 1, y: 100, speed: 10 },
        Bubble { x: 2, y: 101, speed: 10 },
        Bubble { x: 3, y: -5, speed: 10 },
        Bubble { x: 4, y: 900, speed: 10 },
    ];
    a.drop_surfaced();
    let xs: Vec<i64> = a.bubbles.iter().map(|b| b.x).collect();
    assert_eq!(xs, vec![2, 4]);
}

#[test]
fn shark_catches_a_close_fish() {
    let mut a = tank(vec![fish_at(1200, 500)], vec![shark_at(1000, 500)]);
    assert!(catches(&a.sharks[0], &a.fishes[0]));
    a.devour();
    assert!(a.fishes.is_empty());
}

#[test]
fn shark_misses_a_far_fish() {
    let mut a = tank(vec![fish_at(3000, 500)], vec![shark_at(1000, 500)]);
    assert!(!catches(&a.sharks[0], &a.fishes[0]));
    a.devour();
    assert_eq!(a.fishes.len(), 1);
    assert_eq!(a.fishes[0].x, 3000);
}

#[test]
fn reach_is_strict() {
    let s = shark_at(1000, 500);
    assert!(!catches(&s, &fish_at(1800, 500)));
    assert!(catches(&s, &fish_at(1799, 500)));
    assert!(catches(&s, &fish_at(201, 500)));
    assert!(!catches(&s, &fish_at(1000, 700)));
    assert!(!catches(&s, &fish_at(1000, 300)));
    assert!(catches(&s, &fish_at(1000, 301)));
}

#[test]
fn devour_keeps_the_others_in_order() {
    let fishes = vec![fish_at(3000, 500), fish_at(1100, 550), fish_at(5000, 1000), fish_at(5200, 1100)];
    let mut a = tank(fishes, vec![shark_at(1000, 500), shark_at(5500, 1050)]);
    a.devour();
    let xs: Vec<i64> = a.fishes.iter().map(|f| f.x).collect();
    assert_eq!(xs, vec![3000]);
}

#[test]
fn restock_adds_one_fish_below_the_floor() {
    let mut rng = StdRng::seed_from_u64(3);
    let four = vec![fish_at(1000, 500), fish_at(2000, 500), fish_at(3000, 500), fish_at(4000, 500)];
    let mut a = tank(four, Vec::new());
    a.restock(&mut rng);
    assert_eq!(a.fishes.len(), 5);
    assert_eq!(a.fishes[3].x, 4000);
    let f = a.fishes[4];
    assert!(f.x >= 100 && f.x < 7000);
    assert!(f.y >= 100 && f.y < 2200);
    a.restock(&mut rng);
    assert_eq!(a.fishes.len(), 5);
}

#[test]
fn restock_after_a_meal() {
    let mut rng = StdRng::seed_from_u64(5);
    let fishes = vec![
        fish_at(1100, 500),
        fish_at(2000, 1500),
        fish_at(3000, 1500),
        fish_at(4000, 1500),
        fish_at(5000, 1500),
    ];
    let mut a = tank(fishes, vec![shark_at(1000, 500)]);
    a.devour();
    assert_eq!(a.fishes.len(), 4);
    a.restock(&mut rng);
    assert_eq!(a.fishes.len(), 5);
}

#[test]
fn quit_keys_end_the_loop() {
    let mut a = tank(Vec::new(), Vec::new());
    assert_eq!(a.handle_event(InputEvent::Key(Key::Char('q'))), Action::Quit);
    assert_eq!(a.handle_event(InputEvent::Key(Key::Esc)), Action::Quit);
    assert_eq!(a.handle_event(InputEvent::Key(Key::Char('Q'))), Action::Continue);
    assert_eq!(a.handle_event(InputEvent::Key(Key::Other)), Action::Continue);
    assert_eq!(a.handle_event(InputEvent::Other), Action::Continue);
    assert_eq!((a.width, a.height), (80, 24));
}

#[test]
fn resize_sets_the_viewport() {
    let mut a = tank(vec![fish_at(1000, 500)], Vec::new());
    assert_eq!(a.handle_event(InputEvent::Resize(100, 40)), Action::Clear);
    assert_eq!((a.width, a.height), (100, 40));
    assert_eq!(a.fishes.len(), 1);
}

#[test]
fn frame_draws_in_layers() {
    let mut f = fish_at(1234, 567);
    f.direction = -1;
    f.color = Tint::Cyan;
    let mut a = tank(vec![f], vec![shark_at(2050, 1000)]);
    a.bubbles = vec![Bubble { x: 999, y: 1850, speed: 10 }];
    let cmds = a.frame();
    assert_eq!(cmds.len(), 4);
    assert_eq!((cmds[0].col, cmds[0].row, cmds[0].tint), (0, 23, Tint::DarkBlue));
    assert_eq!(text(&cmds[0].glyphs), "~".repeat(80));
    assert_eq!((cmds[1].col, cmds[1].row, cmds[1].tint), (9, 18, Tint::White));
    assert_eq!(text(&cmds[1].glyphs), ".");
    assert_eq!((cmds[2].col, cmds[2].row, cmds[2].tint), (12, 5, Tint::Cyan));
    assert_eq!(text(&cmds[2].glyphs), "<><");
    assert_eq!((cmds[3].col, cmds[3].row, cmds[3].tint), (20, 10, Tint::DarkGrey));
    assert_eq!(text(&cmds[3].glyphs), ">____\\^/____");
}

#[test]
fn cells_round_toward_zero_and_saturate() {
    assert_eq!(cell_of(-50), 0);
    assert_eq!(cell_of(0), 0);
    assert_eq!(cell_of(199), 1);
    assert_eq!(cell_of(200), 2);
    assert_eq!(cell_of(10_000_000), 65535);
    let w = waterline_cmd(3, 0);
    assert_eq!((w.row, text(&w.glyphs)), (0, "~~~".to_string()));
}

#[test]
fn draws_land_in_their_ranges() {
    let mut rng = StdRng::seed_from_u64(11);
    let mut xs = std::collections::HashSet::new();
    let mut flips = std::collections::HashSet::new();
    for _ in 0..200 {
        assert!(draw_index(&mut rng, 7) < 7);
        let f = Fish::new(80, 24, &mut rng);
        xs.insert(f.x);
        flips.insert(f.direction);
    }
    assert!(xs.len() > 1);
    assert_eq!(flips.len(), 2);
}

#[test]
fn new_creatures_are_fresh() {
    let mut rng = StdRng::seed_from_u64(2);
    for _ in 0..100 {
        let f = Fish::new(80, 24, &mut rng);
        assert!(f.x >= 100 && f.x < 7000 && f.y >= 100 && f.y < 2200);
        assert!(f.speed >= 20 && f.speed < 70 && f.v_speed >= 5 && f.v_speed < 20);
        assert!(f.kind < 6);
        let s = Shark::new(80, 24, &mut rng);
        assert!(s.x >= 100 && s.x < 6500 && s.y >= 100 && s.y < 1900);
        assert!(s.speed >= 40 && s.speed < 80);
        let b = Bubble::new(80, 24, &mut rng);
        assert!(b.x >= 100 && b.x < 7900 && b.y == 2300);
        assert!(b.speed >= 10 && b.speed < 40);
    }
    assert!(Fish::fits(12, 4) && !Fish::fits(11, 4) && !Fish::fits(12, 3));
    assert!(Shark::fits(17, 7) && !Shark::fits(16, 7) && !Shark::fits(17, 6));
}

#[test]
fn add_bubble_if_follows_the_coin() {
    let mut rng = StdRng::seed_from_u64(9);
    let mut a = tank(Vec::new(), Vec::new());
    a.add_bubble_if(false, &mut rng);
    assert!(a.bubbles.is_empty());
    a.add_bubble_if(true, &mut rng);
    assert_eq!(a.bubbles.len(), 1);
    assert_eq!(a.bubbles[0].y, 2300);
    assert!(a.bubbles[0].x >= 100 && a.bubbles[0].x < 7900);
}

#[test]
fn bubbles_rise_every_tick() {
    let mut rng = StdRng::seed_from_u64(4);
    let mut b = Bubble { x: 4000, y: 2300, speed: 25 };
    for _ in 0..200 {
        let before = b;
        b.update(80, &mut rng);
        assert_eq!(b.y, before.y - 25);
        assert!(b.x >= before.x - 50 && b.x < before.x + 50);
        assert!(b.x >= 100 && b.x <= 7900);
    }
}
