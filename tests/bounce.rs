use bouncing_box::{Action, Event, World, BOX_SIZE, HEIGHT, WIDTH};

const BOX: [u8; 4] = [0x5e, 0x48, 0xe8, 0xff];
const BACKGROUND: [u8; 4] = [0x48, 0xb2, 0xe8, 0xff];

fn world(box_x: i16, box_y: i16, velocity_x: i16, velocity_y: i16) -> World {
    World { box_x, box_y, velocity_x, velocity_y }
}

fn drawn(w: &World) -> Vec<u8> {
    let mut frame = vec![0u8; (WIDTH * HEIGHT * 4) as usize];
    w.draw(&mut frame);
    frame
}

fn pixel(frame: &[u8], x: usize, y: usize) -> [u8; 4] {
    let i = (y * WIDTH as usize + x) * 4;
    [frame[i], frame[i + 1], frame[i + 2], frame[i + 3]]
}

#[test]
fn new_world_starts_at_24_16_moving_down_right() {
    assert_eq!(World::new(), world(24, 16, 1, 1));
}

#[test]
fn interior_tick_moves_by_velocity() {
    let mut w = world(100, 100, -1, 1);
    w.update();
    assert_eq!(w, world(99, 101, -1, 1));
}

#[test]
fn reflects_at_left_edge() {
    let mut w = world(0, 16, -1, 1);
    w.update();
    assert_eq!(w.velocity_x, 1);
    assert_eq!(w.box_x, 1);
}

#[test]
fn reflects_at_top_edge() {
    let mut w = world(24, 0, 1, -1);
    w.update();
    assert_eq!(w, world(25, 1, 1, 1));
}

#[test]
fn no_reflection_while_far_edge_is_on_the_surface() {
    let right = WIDTH as i16 - BOX_SIZE;
    let mut w = world(right, 16, 1, 1);
    w.update();
    assert_eq!(w, world(right + 1, 17, 1, 1));
}

#[test]
fn reflects_once_far_edge_is_past_the_surface() {
    let right = WIDTH as i16 - BOX_SIZE;
    let bottom = HEIGHT as i16 - BOX_SIZE;
    let mut w = world(right + 1, bottom + 1, 1, 1);
    w.update();
    assert_eq!(w, world(right, bottom, -1, -1));
}

#[test]
fn stays_bounded_over_ten_thousand_ticks() {
    let mut w = World::new();
    let mut min_x = w.box_x;
    let mut max_x = w.box_x;
    for _ in 0..10_000 {
        assert!(w.fits_next_tick());
        w.update();
        assert!(w.box_x >= -1 && w.box_x <= WIDTH as i16);
        assert!(w.box_y >= -1 && w.box_y <= HEIGHT as i16);
        assert!(w.velocity_x == 1 || w.velocity_x == -1);
        assert!(w.velocity_y == 1 || w.velocity_y == -1);
        min_x = min_x.min(w.box_x);
        max_x = max_x.max(w.box_x);
    }
    assert_eq!(min_x, 0);
    assert_eq!(max_x, WIDTH as i16 - BOX_SIZE + 1);
}

#[test]
fn fits_next_tick_rejects_overflow() {
    assert!(World::new().fits_next_tick());
    assert!(!world(24, 16, i16::MIN, 1).fits_next_tick());
    assert!(!world(24, 16, 1, i16::MIN).fits_next_tick());
    assert!(!world(i16::MAX, 16, -1, 1).fits_next_tick());
    assert!(world(i16::MAX, 16, 1, 1).fits_next_tick());
    assert!(!world(24, i16::MIN, 1, 1).fits_next_tick());
}

#[test]
fn draw_fills_the_frame_for_the_starting_state() {
    let frame = drawn(&World::new());
    assert_eq!(frame.len(), 307200);
    assert_eq!(pixel(&frame, 24, 16), BOX);
    assert_eq!(pixel(&frame, 87, 79), BOX);
    assert_eq!(pixel(&frame, 0, 0), BACKGROUND);
    assert_eq!(pixel(&frame, 319, 239), BACKGROUND);
    assert_eq!(pixel(&frame, 23, 16), BACKGROUND);
    assert_eq!(pixel(&frame, 88, 79), BACKGROUND);
    assert_eq!(pixel(&frame, 24, 80), BACKGROUND);
}

#[test]
fn draw_twice_gives_identical_bytes() {
    let w = world(-10, 200, 1, -1);
    let mut first = vec![7u8; (WIDTH * HEIGHT * 4) as usize];
    w.draw(&mut first);
    let mut second = first.clone();
    w.draw(&mut second);
    assert_eq!(first, second);
    assert_eq!(first, drawn(&w));
}

#[test]
fn every_pixel_has_one_of_two_colours() {
    let w = World::new();
    let mut frame = vec![0xabu8; (WIDTH * HEIGHT * 4) as usize];
    w.draw(&mut frame);
    let mut box_pixels = 0usize;
    for chunk in frame.chunks_exact(4) {
        if chunk == BOX {
            box_pixels += 1;
        } else {
            assert_eq!(chunk, BACKGROUND);
        }
    }
    assert_eq!(box_pixels, 64 * 64);
}

#[test]
fn draw_clips_a_box_partly_off_the_surface() {
    let frame = drawn(&world(-1, -1, 1, 1));
    assert_eq!(pixel(&frame, 0, 0), BOX);
    assert_eq!(pixel(&frame, 62, 62), BOX);
    assert_eq!(pixel(&frame, 63, 0), BACKGROUND);
    let far = drawn(&world(i16::MAX, i16::MAX, 1, 1));
    assert!(far.chunks_exact(4).all(|c| c == BACKGROUND));
}

#[test]
fn respond_maps_events_to_actions() {
    let mut w = World::new();
    assert_eq!(w.respond(Event::CloseRequested), Action::Exit);
    assert_eq!(w.respond(Event::KeyboardInput { escape: true }), Action::Exit);
    assert_eq!(w.respond(Event::KeyboardInput { escape: false }), Action::Nothing);
    assert_eq!(w.respond(Event::Other), Action::Nothing);
    assert_eq!(
        w.respond(Event::Resized { width: 640, height: 480 }),
        Action::ResizeSurface { width: 640, height: 480 }
    );
    assert_eq!(w, World::new());
    assert_eq!(w.respond(Event::RedrawRequested), Action::Present);
    assert_eq!(w, world(25, 17, 1, 1));
}
