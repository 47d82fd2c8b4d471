//! Controller input: two standard NES pads behind the strobe latch at 0x4016.
//!
//! Button state is a set of plain flags that the host flips at any time;
//! the game only observes changes when it strobes the latch, because the
//! flags are copied into the shift registers on the strobe's falling edge.

use vstd::prelude::*;

verus! {

/// One of the eight buttons of a standard pad, in shift-register order.
#[derive(Debug, Clone, Copy, PartialEq, Eq, Structural)]
pub enum NesButton {
    A,
    B,
    Select,
    Start,
    Up,
    Down,
    Left,
    Right,
}

/// One pad: the live button flags, plus the serial shift register the game
/// reads one bit at a time through the controller port.
#[derive(Debug, Clone, Copy)]
pub struct ControllerState {
    pub a: bool,
    pub b: bool,
    pub select: bool,
    pub start: bool,
    pub up: bool,
    pub down: bool,
    pub left: bool,
    pub right: bool,
    pub shift_register: u8,
    pub read_count: u8,
}

/// The byte a strobe latches: one bit per button, A in bit 0 through Right
/// in bit 7.
pub open spec fn latched_byte(c: ControllerState) -> u8 {
    (if c.a {
        0x01u8
    } else {
        0u8
    }) | (if c.b {
        0x02u8
    } else {
        0u8
    }) | (if c.select {
        0x04u8
    } else {
        0u8
    }) | (if c.start {
        0x08u8
    } else {
        0u8
    }) | (if c.up {
        0x10u8
    } else {
        0u8
    }) | (if c.down {
        0x20u8
    } else {
        0u8
    }) | (if c.left {
        0x40u8
    } else {
        0u8
    }) | (if c.right {
        0x80u8
    } else {
        0u8
    })
}

impl ControllerState {
    pub fn new() -> (r: Self)
        ensures
            r == (ControllerState {
                a: false,
                b: false,
                select: false,
                start: false,
                up: false,
                down: false,
                left: false,
                right: false,
                shift_register: 0,
                read_count: 0,
            }),
    {
        ControllerState {
            a: false,
            b: false,
            select: false,
            start: false,
            up: false,
            down: false,
            left: false,
            right: false,
            shift_register: 0,
            read_count: 0,
        }
    }

    /// Latches the current button flags into the shift register and rewinds
    /// the read position.
    pub fn latch(&mut self)
        ensures
            *final(self) == (ControllerState {
                shift_register: latched_byte(*old(self)),
                read_count: 0,
                ..*old(self)
            }),
    {
        self.shift_register = (if self.a {
            0x01u8
        } else {
            0u8
        }) | (if self.b {
            0x02u8
        } else {
            0u8
        }) | (if self.select {
            0x04u8
        } else {
            0u8
        }) | (if self.start {
            0x08u8
        } else {
            0u8
        }) | (if self.up {
            0x10u8
        } else {
            0u8
        }) | (if self.down {
            0x20u8
        } else {
            0u8
        }) | (if self.left {
            0x40u8
        } else {
            0u8
        }) | (if self.right {
            0x80u8
        } else {
            0u8
        });
        self.read_count = 0;
    }

    /// Reads one bit of the pad.  While the strobe is held the A button is
    /// returned over and over; otherwise the next shift-register bit comes
    /// out, and after eight reads the port reads zero.
    pub fn read(&mut self, strobe_active: bool) -> (r: u8)
        ensures
            strobe_active ==> *final(self) == *old(self) && r == (if old(self).a {
                1u8
            } else {
                0u8
            }),
            !strobe_active && old(self).read_count < 8 ==> *final(self) == (ControllerState {
                read_count: (old(self).read_count + 1) as u8,
                ..*old(self)
            }) && r == (old(self).shift_register >> old(self).read_count) & 0x01,
            !strobe_active && old(self).read_count >= 8 ==> *final(self) == *old(self) && r == 0,
    {
        if strobe_active {
            if self.a {
                1
            } else {
                0
            }
        } else {
            if self.read_count < 8 {
                let bit = (self.shift_register >> self.read_count) & 0x01;
                self.read_count = self.read_count + 1;
                bit
            } else {
                0
            }
        }
    }

    /// Sets one button flag; the game sees the change at the next strobe.
    pub fn set_button(&mut self, button: NesButton, pressed: bool)
        ensures
            *final(self) == with_button(*old(self), button, pressed),
    {
        match button {
            NesButton::A => self.a = pressed,
            NesButton::B => self.b = pressed,
            NesButton::Select => self.select = pressed,
            NesButton::Start => self.start = pressed,
            NesButton::Up => self.up = pressed,
            NesButton::Down => self.down = pressed,
            NesButton::Left => self.left = pressed,
            NesButton::Right => self.right = pressed,
        }
    }
}

/// A pad with one button flag replaced.
pub open spec fn with_button(c: ControllerState, button: NesButton, pressed: bool) -> ControllerState {
    match button {
        NesButton::A => ControllerState { a: pressed, ..c },
        NesButton::B => ControllerState { b: pressed, ..c },
        NesButton::Select => ControllerState { select: pressed, ..c },
        NesButton::Start => ControllerState { start: pressed, ..c },
        NesButton::Up => ControllerState { up: pressed, ..c },
        NesButton::Down => ControllerState { down: pressed, ..c },
        NesButton::Left => ControllerState { left: pressed, ..c },
        NesButton::Right => ControllerState { right: pressed, ..c },
    }
}

/// The bit one controller-port read produces: the A button while the strobe
/// is held, otherwise the next shift-register bit, and zero once all eight
/// bits are gone.
pub open spec fn controller_bit(c: ControllerState, strobe: bool) -> u8 {
    if strobe {
        if c.a {
            1u8
        } else {
            0u8
        }
    } else if c.read_count < 8 {
        (c.shift_register >> c.read_count) & 0x01
    } else {
        0u8
    }
}

/// The pad state after one port read: only the read position can move.
pub open spec fn controller_after_read(c: ControllerState, strobe: bool) -> ControllerState {
    if !strobe && c.read_count < 8 {
        ControllerState { read_count: (c.read_count + 1) as u8, ..c }
    } else {
        c
    }
}

/// A bit extracted from a byte is never more than one.
proof fn lemma_low_bit(x: u8, n: u8)
    by (bit_vector)
    ensures
        ((x >> n) & 0x01) <= 1,
{
}

/// Both pads and the shared strobe line.
#[derive(Debug, Clone, Copy)]
pub struct Input {
    pub controller1: ControllerState,
    pub controller2: ControllerState,
    pub strobe: bool,
}

impl Input {
    pub fn new() -> (r: Self)
        ensures
            r.controller1.shift_register == 0,
            r.controller1.read_count == 0,
            !r.controller1.a,
            r.controller2.shift_register == 0,
            r.controller2.read_count == 0,
            !r.controller2.a,
            !r.strobe,
    {
        Input { controller1: ControllerState::new(), controller2: ControllerState::new(), strobe: false }
    }

    /// A CPU write to the strobe register: both pads latch their buttons on
    /// the strobe's falling edge.
    pub fn write(&mut self, value: u8)
        ensures
            final(self).strobe == ((value & 0x01) != 0),
            old(self).strobe && (value & 0x01) == 0 ==> final(self).controller1 == (
            ControllerState {
                shift_register: latched_byte(old(self).controller1),
                read_count: 0,
                ..old(self).controller1
            }) && final(self).controller2 == (ControllerState {
                shift_register: latched_byte(old(self).controller2),
                read_count: 0,
                ..old(self).controller2
            }),
            !(old(self).strobe && (value & 0x01) == 0) ==> final(self).controller1 == old(
                self,
            ).controller1 && final(self).controller2 == old(self).controller2,
    {
        let new_strobe = (value & 0x01) != 0;
        if self.strobe && !new_strobe {
            self.controller1.latch();
            self.controller2.latch();
        }
        self.strobe = new_strobe;
    }

    /// A CPU read of one controller port (0 for 0x4016, anything else for
    /// 0x4017).
    pub fn read(&mut self, port: u8) -> (r: u8)
        ensures
            final(self).strobe == old(self).strobe,
            port == 0 ==> final(self).controller2 == old(self).controller2 && r == controller_bit(
                old(self).controller1,
                old(self).strobe,
            ) && final(self).controller1 == controller_after_read(
                old(self).controller1,
                old(self).strobe,
            ),
            port != 0 ==> final(self).controller1 == old(self).controller1 && r == controller_bit(
                old(self).controller2,
                old(self).strobe,
            ) && final(self).controller2 == controller_after_read(
                old(self).controller2,
                old(self).strobe,
            ),
            r <= 1,
    {
        if port == 0 {
            proof {
                lemma_low_bit(self.controller1.shift_register, self.controller1.read_count);
            }
            self.controller1.read(self.strobe)
        } else {
            proof {
                lemma_low_bit(self.controller2.shift_register, self.controller2.read_count);
            }
            self.controller2.read(self.strobe)
        }
    }

    /// Maps a host keyboard scancode to a pad-one button change; unbound
    /// codes change nothing.
    pub fn update_from_keyboard(&mut self, scancode: u32, pressed: bool)
        ensures
            final(self).strobe == old(self).strobe,
            final(self).controller2 == old(self).controller2,
    {
        if scancode == 1073742048 || scancode == 97 {
            self.controller1.set_button(NesButton::A, pressed);
        } else if scancode == 1073742050 || scancode == 115 {
            self.controller1.set_button(NesButton::B, pressed);
        } else if scancode == 1073742052 || scancode == 13 {
            self.controller1.set_button(NesButton::Start, pressed);
        } else if scancode == 1073742053 {
            self.controller1.set_button(NesButton::Select, pressed);
        } else if scancode == 1073741904 {
            self.controller1.set_button(NesButton::Up, pressed);
        } else if scancode == 1073741905 {
            self.controller1.set_button(NesButton::Down, pressed);
        } else if scancode == 1073741903 {
            self.controller1.set_button(NesButton::Left, pressed);
        } else if scancode == 1073741906 {
            self.controller1.set_button(NesButton::Right, pressed);
        }
    }
}

} // verus!
