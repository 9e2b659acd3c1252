//! Input devices: the standard gamepad's eight buttons with their turbo
//! variants, and the zapper light gun. The host's event loop translates
//! its raw events into button edges and screen positions; the decisions —
//! which booleans a press moves, how a window position maps to PPU
//! pixels — live here.

use vstd::prelude::*;

verus! {

/// One standard gamepad: the eight console buttons plus the two turbo
/// variants, each a level the deck's shift register samples.
#[derive(Debug, Copy, Clone, PartialEq, Eq, Structural)]
pub struct Gamepad {
    pub a: bool,
    pub b: bool,
    pub select: bool,
    pub start: bool,
    pub up: bool,
    pub down: bool,
    pub left: bool,
    pub right: bool,
    pub turbo_a: bool,
    pub turbo_b: bool,
}

/// A button of the standard gamepad, turbo variants included.
#[derive(Debug, Copy, Clone, PartialEq, Eq, Hash, Structural)]
pub enum GamepadBtn {
    A,
    B,
    TurboA,
    TurboB,
    Select,
    Start,
    Up,
    Down,
    Left,
    Right,
}

impl Gamepad {
    /// A gamepad with nothing pressed.
    pub fn new() -> (g: Self)
        ensures
            g == (Gamepad {
                a: false,
                b: false,
                select: false,
                start: false,
                up: false,
                down: false,
                left: false,
                right: false,
                turbo_a: false,
                turbo_b: false,
            }),
    {
        Gamepad {
            a: false,
            b: false,
            select: false,
            start: false,
            up: false,
            down: false,
            left: false,
            right: false,
            turbo_a: false,
            turbo_b: false,
        }
    }
}

impl Default for Gamepad {
    /// A gamepad with nothing pressed.
    fn default() -> (g: Self)
        ensures
            g == (Gamepad {
                a: false,
                b: false,
                select: false,
                start: false,
                up: false,
                down: false,
                left: false,
                right: false,
                turbo_a: false,
                turbo_b: false,
            }),
    {
        Gamepad::new()
    }
}

/// The gamepad after one button edge: the pressed button's level is set;
/// a turbo press also drives its primary button, so releasing turbo never
/// leaves the primary stuck; and unless concurrent d-pad input is allowed,
/// pressing a direction first releases the opposing one.
pub open spec fn spec_set_button(
    g: Gamepad,
    btn: GamepadBtn,
    pressed: bool,
    concurrent_dpad: bool,
) -> Gamepad {
    let cleared = if !concurrent_dpad && pressed {
        match btn {
            GamepadBtn::Left => Gamepad { right: false, ..g },
            GamepadBtn::Right => Gamepad { left: false, ..g },
            GamepadBtn::Up => Gamepad { down: false, ..g },
            GamepadBtn::Down => Gamepad { up: false, ..g },
            _ => g,
        }
    } else {
        g
    };
    match btn {
        GamepadBtn::A => Gamepad { a: pressed, ..cleared },
        GamepadBtn::B => Gamepad { b: pressed, ..cleared },
        GamepadBtn::TurboA => Gamepad { turbo_a: pressed, a: pressed, ..cleared },
        GamepadBtn::TurboB => Gamepad { turbo_b: pressed, b: pressed, ..cleared },
        GamepadBtn::Select => Gamepad { select: pressed, ..cleared },
        GamepadBtn::Start => Gamepad { start: pressed, ..cleared },
        GamepadBtn::Up => Gamepad { up: pressed, ..cleared },
        GamepadBtn::Down => Gamepad { down: pressed, ..cleared },
        GamepadBtn::Left => Gamepad { left: pressed, ..cleared },
        GamepadBtn::Right => Gamepad { right: pressed, ..cleared },
    }
}

/// Apply one button edge to a gamepad. A turbo press also sets its
/// primary button; with concurrent d-pad input disabled, pressing a
/// direction releases the opposing one first.
#[verifier::rlimit(50)]
pub fn set_button(g: &mut Gamepad, btn: GamepadBtn, pressed: bool, concurrent_dpad: bool)
    ensures
        *final(g) == spec_set_button(*old(g), btn, pressed, concurrent_dpad),
{
    if !concurrent_dpad && pressed {
        match btn {
            GamepadBtn::Left => {
                g.right = false;
            },
            GamepadBtn::Right => {
                g.left = false;
            },
            GamepadBtn::Up => {
                g.down = false;
            },
            GamepadBtn::Down => {
                g.up = false;
            },
            _ => {},
        }
    }
    match btn {
        GamepadBtn::A => {
            g.a = pressed;
        },
        GamepadBtn::B => {
            g.b = pressed;
        },
        GamepadBtn::TurboA => {
            g.turbo_a = pressed;
            g.a = pressed;
        },
        GamepadBtn::TurboB => {
            g.turbo_b = pressed;
            g.b = pressed;
        },
        GamepadBtn::Select => {
            g.select = pressed;
        },
        GamepadBtn::Start => {
            g.start = pressed;
        },
        GamepadBtn::Up => {
            g.up = pressed;
        },
        GamepadBtn::Down => {
            g.down = pressed;
        },
        GamepadBtn::Left => {
            g.left = pressed;
        },
        GamepadBtn::Right => {
            g.right = pressed;
        },
    }
}

/// The zapper light gun: an aim point in PPU pixels and the trigger
/// level. The deck answers its light sense from the frame at this point.
#[derive(Debug, Copy, Clone, PartialEq, Eq, Structural)]
pub struct Zapper {
    /// Horizontal aim in PPU pixels.
    pub x: i32,
    /// Vertical aim in PPU pixels.
    pub y: i32,
    /// Whether the trigger is being pulled.
    pub triggered: bool,
}

impl Zapper {
    /// A zapper at rest, aimed at the corner.
    pub fn new() -> (z: Self)
        ensures
            z == (Zapper { x: 0i32, y: 0i32, triggered: false }),
    {
        Zapper { x: 0, y: 0, triggered: false }
    }

    /// Pull the trigger.
    pub fn trigger(&mut self)
        ensures
            *final(self) == (Zapper { triggered: true, ..*old(self) }),
    {
        self.triggered = true;
    }

    /// Release the trigger.
    pub fn release(&mut self)
        ensures
            *final(self) == (Zapper { triggered: false, ..*old(self) }),
    {
        self.triggered = false;
    }

    /// Aim at a window position: the coordinates scale down by the
    /// window's integer scale factor, and the horizontal axis further by
    /// 7/8, undoing the 8:7 pixel aspect ratio the frame is displayed at.
    pub fn aim(&mut self, window_x: i32, window_y: i32, scale: i32)
        requires
            scale > 0,
            0 <= window_x,
            0 <= window_y,
        ensures
            *final(self) == (Zapper {
                x: (((window_x as int / scale as int) * 7) / 8) as i32,
                y: (window_y as int / scale as int) as i32,
                ..*old(self)
            }),
    {
        let p = zapper_pos(window_x, window_y, scale);
        self.x = p.0;
        self.y = p.1;
    }
}

impl Default for Zapper {
    /// A zapper at rest, aimed at the corner.
    fn default() -> (z: Self)
        ensures
            z == (Zapper { x: 0i32, y: 0i32, triggered: false }),
    {
        Zapper::new()
    }
}

/// Map a window position to PPU pixels: both axes scale down by the
/// window's integer scale factor, the horizontal one further by 7/8 for
/// the 8:7 pixel aspect ratio.
pub fn zapper_pos(window_x: i32, window_y: i32, scale: i32) -> (p: (i32, i32))
    requires
        scale > 0,
        0 <= window_x,
        0 <= window_y,
    ensures
        p.0 == ((window_x as int / scale as int) * 7) / 8,
        p.1 == window_y as int / scale as int,
{
    let x = window_x / scale;
    let y = window_y / scale;
    ((x as i64 * 7 / 8) as i32, y)
}

} // verus!
