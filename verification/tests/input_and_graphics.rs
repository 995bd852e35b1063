use embedded_graphics::pixelcolor::Rgb565;
use mre_sdk::fs::attributes::{get_attributes, set_attributes, FileAttributes, ARCHIVE, DIR, HIDDEN, READ_ONLY, SYSTEM, VOLUME};
use mre_sdk::graphics::color::{get_global_color, set_global_color, Color, BLUE, GREEN, RED, WHITE};
use mre_sdk::graphics::eg_support::{draw_color_pixel, draw_pixel, pixel_index};
use mre_sdk::graphics::layer::{opacity_percent, trans_color_value, Layer, LayerStack};
use mre_sdk::graphics::shape::{to_mre_points, DrawTarget, TargetBuffer};
use mre_sdk::graphics::canvas::Canvas;
use mre_sdk::keyboard::codes::{NUM1, OK, UP};
use mre_sdk::keyboard::state::{key_to_index, KeyCode, KeyEvent, KeyStates, VM_KEY_EVENT_DOWN, VM_KEY_EVENT_UP};

#[test]
fn rgb_channels_keep_high_bits() {
    let c = Color::from_rgb(0xFF, 0x80, 0x0F);
    assert_eq!(c.0, 0xFC01);
    assert_eq!((c.r(), c.g(), c.b()), (0xF8, 0x80, 0x08));
    assert_eq!(Color::from_rgb(255, 0, 0).0, RED);
    assert_eq!(Color::from_rgb(0, 255, 0).0, GREEN);
    assert_eq!(Color::from_rgb(0, 0, 255).0, BLUE);
    assert_eq!(Color::from_rgb(255, 255, 255).0, WHITE);
}

#[test]
fn rgb_round_trip_of_every_named_colour() {
    for raw in [RED, GREEN, BLUE, WHITE, 0x0000, 0x8410, 0xA145, 0x1234] {
        let c = Color(raw);
        assert_eq!(Color::from_rgb(c.r(), c.g(), c.b()).0, raw);
    }
}

#[test]
fn sys_colour_pairs_565_with_888() {
    let sys = Color(RED).into_sys_color();
    assert_eq!(sys.vm_color_565, 0xF800);
    assert_eq!(sys.vm_color_888, 0x0000F8);
    let sys = Color(BLUE).into_sys_color();
    assert_eq!(sys.vm_color_888, 0xF80000);
    assert_eq!(Color::from_sys_color(sys).0, BLUE);
    assert_eq!(get_global_color(Color(GREEN).into_sys_color()).0, GREEN);
    assert_eq!(set_global_color(0), Ok(()));
    assert_eq!(set_global_color(-3), Err(-3));
}

#[test]
fn attribute_flags_set_and_clear() {
    let mut a = FileAttributes::empty();
    assert!(!a.is_read_only() && !a.is_hidden() && !a.is_archive() && !a.is_dir());
    a.set_read_only(true);
    a.set_hidden(true);
    a.set_archive(true);
    assert_eq!(a.0, READ_ONLY | HIDDEN | ARCHIVE);
    a.set_hidden(false);
    assert!(a.is_read_only() && !a.is_hidden() && a.is_archive());
    assert_eq!(a.0, READ_ONLY | ARCHIVE);
}

#[test]
fn settable_bits_drop_directory_and_volume() {
    let a = FileAttributes(READ_ONLY | DIR | SYSTEM | HIDDEN | VOLUME);
    assert!(a.is_dir() && a.is_system());
    assert_eq!(a.settable_bits(), READ_ONLY | SYSTEM | HIDDEN);
}

#[test]
fn attribute_status_codes() {
    assert_eq!(get_attributes(0x11).map(|a| a.0), Ok(0x11));
    assert_eq!(get_attributes(-1).map(|a| a.0), Err(-1));
    assert_eq!(set_attributes(0), Ok(()));
    assert_eq!(set_attributes(-5), Err(-5));
}

#[test]
fn key_index_offsets_codes_by_ten() {
    assert_eq!(key_to_index(KeyCode(UP)), Some(9));
    assert_eq!(key_to_index(KeyCode(-10)), Some(0));
    assert_eq!(key_to_index(KeyCode(-11)), None);
    assert_eq!(key_to_index(KeyCode(109)), Some(119));
    assert_eq!(key_to_index(KeyCode(110)), None);
}

#[test]
fn key_event_codes() {
    assert_eq!(KeyEvent::from_raw(VM_KEY_EVENT_UP), KeyEvent::Up);
    assert_eq!(KeyEvent::from_raw(VM_KEY_EVENT_DOWN), KeyEvent::Down);
    assert_eq!(KeyEvent::from(3), KeyEvent::LongPress);
    assert_eq!(KeyEvent::from(4), KeyEvent::Repeat);
    assert_eq!(KeyEvent::from(77), KeyEvent::Unknown(77));
}

#[test]
fn press_then_release_tracks_flags_and_duration() {
    let mut keys = KeyStates::new();
    let (evt, code) = keys.on_key_event(VM_KEY_EVENT_DOWN, OK, 100);
    assert_eq!(evt, KeyEvent::Down);
    assert_eq!(code, KeyCode(OK));
    assert!(keys.is_pressed(KeyCode(OK)));
    assert!(keys.just_pressed(KeyCode(OK)));
    assert_eq!(keys.hold_duration(KeyCode(OK), 130), 30);
    keys.update();
    assert!(keys.is_pressed(KeyCode(OK)));
    assert!(!keys.just_pressed(KeyCode(OK)));
    keys.on_key_event(VM_KEY_EVENT_DOWN, OK, 120);
    assert_eq!(keys.hold_duration(KeyCode(OK), 150), 50);
    keys.on_key_event(VM_KEY_EVENT_UP, OK, 160);
    assert!(!keys.is_pressed(KeyCode(OK)));
    assert!(keys.just_released(KeyCode(OK)));
    assert_eq!(keys.hold_duration(KeyCode(OK), 999), 60);
    keys.update();
    assert!(!keys.just_released(KeyCode(OK)));
    assert!(!keys.is_pressed(KeyCode(NUM1)));
}

#[test]
fn hold_duration_wraps_around_the_tick_counter() {
    let mut keys = KeyStates::new();
    keys.on_key_event(VM_KEY_EVENT_DOWN, NUM1, 65530);
    assert_eq!(keys.hold_duration(KeyCode(NUM1), 4), 10);
    keys.on_key_event(VM_KEY_EVENT_UP, NUM1, 5);
    assert_eq!(keys.hold_duration(KeyCode(NUM1), 0), 11);
}

#[test]
fn events_for_untracked_keys_change_nothing() {
    let mut keys = KeyStates::new();
    let (evt, code) = keys.on_key_event(VM_KEY_EVENT_DOWN, 500, 1);
    assert_eq!((evt, code), (KeyEvent::Down, KeyCode(500)));
    assert!(!keys.is_pressed(KeyCode(500)));
    assert_eq!(keys.hold_duration(KeyCode(500), 9), 0);
    keys.on_key_event(VM_KEY_EVENT_UP, OK, 7);
    assert!(!keys.just_released(KeyCode(OK)));
}

#[test]
fn layer_stack_deletes_from_the_top_only() {
    let mut stack = LayerStack::new();
    assert_eq!(stack.release(7), Vec::<i32>::new());
    stack.push(1);
    stack.push(2);
    stack.push(3);
    assert_eq!(stack.release(2), Vec::<i32>::new());
    assert_eq!(stack.release(3), vec![3, 2]);
    assert_eq!(stack.release(1), vec![1]);
}

#[test]
fn layer_results_and_sizes() {
    assert!(Layer::create(-2, 10, 10).is_err());
    let mut layer = Layer::create(4, 240, 320).ok().unwrap();
    assert_eq!((layer.handle(), layer.width(), layer.height()), (4, 240, 320));
    assert_eq!(layer.resize(-1, 10, 10), Err(-1));
    assert_eq!((layer.width(), layer.height()), (240, 320));
    assert_eq!(layer.resize(0, 176, 220), Ok(()));
    assert_eq!((layer.width(), layer.height()), (176, 220));
    assert_eq!(layer.position(0, 1, 2, 3, 4), Ok((1, 2, 3, 4)));
    assert_eq!(layer.position(-7, 1, 2, 3, 4), Err(-7));
    assert_eq!(layer.buffer_source(), TargetBuffer::LayerBuffer(4));
    let canvas = Canvas::from_handle(99, 8, 8);
    assert_eq!(canvas.buffer_source(), TargetBuffer::CanvasHandle(99));
}

#[test]
fn opacity_and_transparent_colour() {
    assert_eq!(opacity_percent(40), 40);
    assert_eq!(opacity_percent(100), 100);
    assert_eq!(opacity_percent(250), 100);
    assert_eq!(trans_color_value(Some(Color(RED))), 0xF800);
    assert_eq!(trans_color_value(None), -1);
}

#[test]
fn polygon_points_keep_order() {
    let pts = to_mre_points(&[(1, 2), (-3, 4), (5, -6)]);
    let pairs: Vec<(i16, i16)> = pts.iter().map(|p| (p.x, p.y)).collect();
    assert_eq!(pairs, vec![(1, 2), (-3, 4), (5, -6)]);
}

#[test]
fn pixels_land_row_major_and_clip() {
    assert_eq!(pixel_index(2, 1, 4, 3), Some(6));
    assert_eq!(pixel_index(4, 0, 4, 3), None);
    assert_eq!(pixel_index(0, 3, 4, 3), None);
    assert_eq!(pixel_index(-1, 0, 4, 3), None);
    let mut buf = vec![0u16; 12];
    draw_pixel(&mut buf, 4, 3, 3, 2, 0xBEEF);
    draw_pixel(&mut buf, 4, 3, 9, 9, 0x1111);
    assert_eq!(buf[11], 0xBEEF);
    assert_eq!(buf.iter().filter(|&&p| p != 0).count(), 1);
}

#[test]
fn embedded_graphics_colour_goes_in_raw() {
    let mut buf = vec![0u16; 4];
    draw_color_pixel(&mut buf, 2, 2, 1, 0, Rgb565::new(31, 0, 0));
    assert_eq!(buf, vec![0, 0xF800, 0, 0]);
}

#[test]
fn releasing_every_layer_deletes_all_of_them() {
    let mut stack = LayerStack::new();
    for h in [10, 11, 12, 13] {
        stack.push(h);
    }
    assert_eq!(stack.release(11), Vec::<i32>::new());
    assert_eq!(stack.release(10), Vec::<i32>::new());
    assert_eq!(stack.release(12), Vec::<i32>::new());
    assert_eq!(stack.release(13), vec![13, 12, 11, 10]);
    stack.push(20);
    assert_eq!(stack.release(20), vec![20]);
}
