use nes_core::input::{set_button, zapper_pos, Gamepad, GamepadBtn, Zapper};

#[test]
fn every_button_sets_its_level() {
    let mut g = Gamepad::new();
    for (btn, held) in [
        (GamepadBtn::A, true),
        (GamepadBtn::B, true),
        (GamepadBtn::Select, true),
        (GamepadBtn::Start, true),
        (GamepadBtn::Up, true),
    ] {
        set_button(&mut g, btn, held, true);
    }
    assert!(g.a && g.b && g.select && g.start && g.up);
    set_button(&mut g, GamepadBtn::A, false, true);
    assert!(!g.a && g.b);
}

#[test]
fn turbo_press_drives_the_primary_button() {
    let mut g = Gamepad::new();
    set_button(&mut g, GamepadBtn::TurboA, true, true);
    assert!(g.turbo_a && g.a);
    // Releasing turbo releases the primary too, so it is never stuck.
    set_button(&mut g, GamepadBtn::TurboA, false, true);
    assert!(!g.turbo_a && !g.a);
    set_button(&mut g, GamepadBtn::TurboB, true, true);
    assert!(g.turbo_b && g.b);
}

#[test]
fn opposing_directions_exclude_each_other() {
    let mut g = Gamepad::new();
    set_button(&mut g, GamepadBtn::Left, true, false);
    assert!(g.left);
    set_button(&mut g, GamepadBtn::Right, true, false);
    assert!(!g.left && g.right);
    set_button(&mut g, GamepadBtn::Up, true, false);
    set_button(&mut g, GamepadBtn::Down, true, false);
    assert!(!g.up && g.down);
    // Releasing a direction never touches the opposing one.
    set_button(&mut g, GamepadBtn::Right, false, false);
    assert!(!g.left && !g.right);
}

#[test]
fn concurrent_dpad_allows_both_directions() {
    let mut g = Gamepad::new();
    set_button(&mut g, GamepadBtn::Left, true, true);
    set_button(&mut g, GamepadBtn::Right, true, true);
    assert!(g.left && g.right);
}

#[test]
fn default_gamepad_has_nothing_pressed() {
    let g = Gamepad::default();
    assert!(!g.a && !g.b && !g.select && !g.start);
    assert!(!g.up && !g.down && !g.left && !g.right);
    assert!(!g.turbo_a && !g.turbo_b);
}

#[test]
fn zapper_maps_window_positions_to_ppu_pixels() {
    // Scale down by the window factor, then 7/8 on the horizontal axis.
    assert_eq!(zapper_pos(100, 50, 2), (43, 25));
    assert_eq!(zapper_pos(256, 0, 1), (224, 0));
    assert_eq!(zapper_pos(0, 239, 1), (0, 239));
    assert_eq!(zapper_pos(511, 479, 2), (223, 239));
}

#[test]
fn zapper_trigger_and_aim() {
    let mut z = Zapper::default();
    assert!(!z.triggered);
    z.aim(100, 50, 2);
    assert_eq!((z.x, z.y), (43, 25));
    z.trigger();
    assert!(z.triggered);
    z.release();
    assert!(!z.triggered);
}
