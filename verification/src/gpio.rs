//! Pins of the general-purpose I/O block, each tagged with the mode it is in.
//!
//! A pin is a port and a bit position within it. Its mode is part of its type:
//! a transition consumes the handle and gives one with the new tag, and the
//! operations that drive or read an output exist only on handles tagged
//! [`Output`]. No operation here touches a register. Each answers with the
//! [`RegisterOp`] that the caller is to carry out on the peripheral.

use core::marker::PhantomData;
use vstd::prelude::*;

verus! {

/// Input mode (type state)
pub struct Input<MODE> {
    _mode: PhantomData<MODE>,
}

/// Floating input (type state)
pub struct Floating;

/// Pulled down input (type state)
pub struct PullDown;

/// Pulled up input (type state)
pub struct PullUp;

/// Output mode (type state)
pub struct Output<MODE> {
    _mode: PhantomData<MODE>,
}

/// Push pull output (type state)
pub struct PushPull;

/// Open drain output (type state)
pub struct OpenDrain;

/// Alternate function (type state)
pub struct Alternate<MODE> {
    _mode: PhantomData<MODE>,
}

/// Extension trait to split a GPIO peripheral in independent pins
pub trait GpioExt {
    /// The parts to split the GPIO into
    type Parts;

    /// Splits the GPIO block into independent pins
    fn split(self) -> Self::Parts;
}

/// A port of the I/O block.
#[derive(Clone, Copy, Debug, PartialEq, Eq, Structural)]
pub enum Port {
    A,
    B,
    C,
    D,
    E,
    F,
}

/// An electrical mode that a transition selects on a pin.
#[derive(Clone, Copy, Debug, PartialEq, Eq, Structural)]
pub enum PinMode {
    /// Input, with the filter and pulls switched off
    Input,
    /// Push-pull output
    PushPullDrive,
}

/// One operation on the registers of the I/O block.
#[derive(Clone, Copy, Debug, PartialEq, Eq, Structural)]
pub enum RegisterOp {
    /// Select the pin's electrical mode; `out` is the auxiliary drive value
    /// written beside it.
    SetMode { port: Port, index: u32, mode: PinMode, out: u32 },
    /// Drive the output high.
    SetHigh { port: Port, index: u32 },
    /// Drive the output low.
    SetLow { port: Port, index: u32 },
    /// Flip the output.
    Toggle { port: Port, index: u32 },
    /// Read the pin's input level, which comes back as 0 or 1.
    ReadInput { port: Port, index: u32 },
}

/// The auxiliary drive value that every mode selection here is made with.
pub const DEFAULT_OUT: u32 = 0;

/// The number of bit positions in a port.
pub const PINS_PER_PORT: u32 = 16;

/// One line of the I/O block, in mode `MODE`.
pub struct Pin<MODE> {
    port: Port,
    i: u32,
    _mode: PhantomData<MODE>,
}

impl<MODE> Pin<MODE> {
    /// The port the pin belongs to.
    pub closed spec fn line_port(self) -> Port {
        self.port
    }

    /// The pin's bit position within its port.
    pub closed spec fn line_index(self) -> u32 {
        self.i
    }

    /// The pin is the line at `index` of `port`.
    pub open spec fn is_line(self, port: Port, index: u32) -> bool {
        self.line_port() == port && self.line_index() == index
    }

    /// The port the pin belongs to.
    pub fn port(&self) -> (p: Port)
        ensures
            p == self.line_port(),
    {
        self.port
    }

    /// The pin's bit position within its port.
    pub fn index(&self) -> (i: u32)
        ensures
            i == self.line_index(),
    {
        self.i
    }

    /// Retags the pin as an alternate function push pull output pin.
    ///
    /// This reserves the pin in the type system only: routing the function
    /// to the pin is the business of the peripheral that uses it, and no
    /// register operation is asked for.
    pub fn into_alternate_push_pull(self) -> (pin: Pin<Alternate<PushPull>>)
        ensures
            pin.is_line(self.line_port(), self.line_index()),
    {
        Pin { port: self.port, i: self.i, _mode: PhantomData }
    }

    /// Configures the pin to operate as a floating input pin: the same line,
    /// with the operation that selects input mode on it.
    pub fn into_floating_input(self) -> (r: (Pin<Input<Floating>>, RegisterOp))
        ensures
            r.0.is_line(self.line_port(), self.line_index()),
            r.1 == (RegisterOp::SetMode {
                port: self.line_port(),
                index: self.line_index(),
                mode: PinMode::Input,
                out: DEFAULT_OUT,
            }),
    {
        let op = RegisterOp::SetMode {
            port: self.port,
            index: self.i,
            mode: PinMode::Input,
            out: DEFAULT_OUT,
        };
        (Pin { port: self.port, i: self.i, _mode: PhantomData }, op)
    }

    /// Configures the pin to operate as a push pull output pin: the same
    /// line, with the operation that selects push-pull drive on it.
    pub fn into_push_pull_output(self) -> (r: (Pin<Output<PushPull>>, RegisterOp))
        ensures
            r.0.is_line(self.line_port(), self.line_index()),
            r.1 == (RegisterOp::SetMode {
                port: self.line_port(),
                index: self.line_index(),
                mode: PinMode::PushPullDrive,
                out: DEFAULT_OUT,
            }),
    {
        let op = RegisterOp::SetMode {
            port: self.port,
            index: self.i,
            mode: PinMode::PushPullDrive,
            out: DEFAULT_OUT,
        };
        (Pin { port: self.port, i: self.i, _mode: PhantomData }, op)
    }
}

impl<MODE> Pin<Output<MODE>> {
    /// Flips the output level: asks for the toggle of this line.
    pub fn toggle(&mut self) -> (op: RegisterOp)
        ensures
            *final(self) == *old(self),
            op == (RegisterOp::Toggle { port: old(self).line_port(), index: old(self).line_index() }),
    {
        RegisterOp::Toggle { port: self.port, index: self.i }
    }

    /// Drives the output high: asks for the set of this line.
    pub fn set_high(&mut self) -> (op: RegisterOp)
        ensures
            *final(self) == *old(self),
            op == (RegisterOp::SetHigh { port: old(self).line_port(), index: old(self).line_index() }),
    {
        RegisterOp::SetHigh { port: self.port, index: self.i }
    }

    /// Drives the output low: asks for the clear of this line.
    pub fn set_low(&mut self) -> (op: RegisterOp)
        ensures
            *final(self) == *old(self),
            op == (RegisterOp::SetLow { port: old(self).line_port(), index: old(self).line_index() }),
    {
        RegisterOp::SetLow { port: self.port, index: self.i }
    }

    /// The read that `is_low` and `is_high` judge: the input level of this
    /// line, which is the level on the wire and not the level last asked for.
    pub fn level_read(&self) -> (op: RegisterOp)
        ensures
            op == (RegisterOp::ReadInput { port: self.line_port(), index: self.line_index() }),
    {
        RegisterOp::ReadInput { port: self.port, index: self.i }
    }

    /// Whether the line is low, given the `level` that its read came back with.
    pub fn is_low(&self, level: u32) -> (low: bool)
        ensures
            low == (level == 0),
    {
        level == 0
    }

    /// Whether the line is high, given the `level` that its read came back
    /// with: the complement of `is_low`.
    pub fn is_high(&self, level: u32) -> (high: bool)
        ensures
            high == (level != 0),
    {
        !self.is_low(level)
    }
}

/// The I/O block as a whole, before it is split into its pins.
pub struct GpioBlock;

/// GPIO parts: one handle for each line that the package brings out.
pub struct Parts {
    /// Pin 0 of port A
    pub pa0: Pin<Input<Floating>>,
    /// Pin 1 of port A
    pub pa1: Pin<Input<Floating>>,
    /// Pin 2 of port A
    pub pa2: Pin<Input<Floating>>,
    /// Pin 8 of port A
    pub pa8: Pin<Input<Floating>>,
    /// Pin 9 of port A
    pub pa9: Pin<Input<Floating>>,
    /// Pin 10 of port A
    pub pa10: Pin<Input<Floating>>,
    /// Pin 7 of port B
    pub pb7: Pin<Input<Floating>>,
    /// Pin 8 of port B
    pub pb8: Pin<Input<Floating>>,
    /// Pin 13 of port B
    pub pb13: Pin<Input<Floating>>,
    /// Pin 14 of port B
    pub pb14: Pin<Input<Floating>>,
    /// Pin 0 of port C
    pub pc0: Pin<Input<Floating>>,
    /// Pin 1 of port C
    pub pc1: Pin<Input<Floating>>,
    /// Pin 2 of port C
    pub pc2: Pin<Input<Floating>>,
    /// Pin 3 of port C
    pub pc3: Pin<Input<Floating>>,
    /// Pin 4 of port C
    pub pc4: Pin<Input<Floating>>,
    /// Pin 8 of port C
    pub pc8: Pin<Input<Floating>>,
    /// Pin 9 of port C
    pub pc9: Pin<Input<Floating>>,
    /// Pin 10 of port C
    pub pc10: Pin<Input<Floating>>,
    /// Pin 11 of port C
    pub pc11: Pin<Input<Floating>>,
    /// Pin 13 of port C
    pub pc13: Pin<Input<Floating>>,
    /// Pin 14 of port C
    pub pc14: Pin<Input<Floating>>,
    /// Pin 15 of port C
    pub pc15: Pin<Input<Floating>>,
    /// Pin 4 of port D
    pub pd4: Pin<Input<Floating>>,
    /// Pin 5 of port D
    pub pd5: Pin<Input<Floating>>,
    /// Pin 6 of port D
    pub pd6: Pin<Input<Floating>>,
    /// Pin 7 of port D
    pub pd7: Pin<Input<Floating>>,
    /// Pin 0 of port F
    pub pf0: Pin<Input<Floating>>,
    /// Pin 1 of port F
    pub pf1: Pin<Input<Floating>>,
    /// Pin 2 of port F
    pub pf2: Pin<Input<Floating>>,
    /// Pin 3 of port F
    pub pf3: Pin<Input<Floating>>,
    /// Pin 4 of port F
    pub pf4: Pin<Input<Floating>>,
    /// Pin 5 of port F
    pub pf5: Pin<Input<Floating>>,
    /// Pin 10 of port E
    pub pe10: Pin<Input<Floating>>,
    /// Pin 11 of port E
    pub pe11: Pin<Input<Floating>>,
    /// Pin 12 of port E
    pub pe12: Pin<Input<Floating>>,
    /// Pin 13 of port E
    pub pe13: Pin<Input<Floating>>,
}

impl Parts {
    /// The lines of the handles, in the order of the fields.
    pub open spec fn lines(self) -> Seq<(Port, u32)> {
        seq![
            (self.pa0.line_port(), self.pa0.line_index()),
            (self.pa1.line_port(), self.pa1.line_index()),
            (self.pa2.line_port(), self.pa2.line_index()),
            (self.pa8.line_port(), self.pa8.line_index()),
            (self.pa9.line_port(), self.pa9.line_index()),
            (self.pa10.line_port(), self.pa10.line_index()),
            (self.pb7.line_port(), self.pb7.line_index()),
            (self.pb8.line_port(), self.pb8.line_index()),
            (self.pb13.line_port(), self.pb13.line_index()),
            (self.pb14.line_port(), self.pb14.line_index()),
            (self.pc0.line_port(), self.pc0.line_index()),
            (self.pc1.line_port(), self.pc1.line_index()),
            (self.pc2.line_port(), self.pc2.line_index()),
            (self.pc3.line_port(), self.pc3.line_index()),
            (self.pc4.line_port(), self.pc4.line_index()),
            (self.pc8.line_port(), self.pc8.line_index()),
            (self.pc9.line_port(), self.pc9.line_index()),
            (self.pc10.line_port(), self.pc10.line_index()),
            (self.pc11.line_port(), self.pc11.line_index()),
            (self.pc13.line_port(), self.pc13.line_index()),
            (self.pc14.line_port(), self.pc14.line_index()),
            (self.pc15.line_port(), self.pc15.line_index()),
            (self.pd4.line_port(), self.pd4.line_index()),
            (self.pd5.line_port(), self.pd5.line_index()),
            (self.pd6.line_port(), self.pd6.line_index()),
            (self.pd7.line_port(), self.pd7.line_index()),
            (self.pf0.line_port(), self.pf0.line_index()),
            (self.pf1.line_port(), self.pf1.line_index()),
            (self.pf2.line_port(), self.pf2.line_index()),
            (self.pf3.line_port(), self.pf3.line_index()),
            (self.pf4.line_port(), self.pf4.line_index()),
            (self.pf5.line_port(), self.pf5.line_index()),
            (self.pe10.line_port(), self.pe10.line_index()),
            (self.pe11.line_port(), self.pe11.line_index()),
            (self.pe12.line_port(), self.pe12.line_index()),
            (self.pe13.line_port(), self.pe13.line_index()),
        ]
    }

    /// Every handle is the line it is named after, with its index inside
    /// the port.
    pub open spec fn wf(self) -> bool {
        &&& self.pa0.is_line(Port::A, 0)
        &&& self.pa1.is_line(Port::A, 1)
        &&& self.pa2.is_line(Port::A, 2)
        &&& self.pa8.is_line(Port::A, 8)
        &&& self.pa9.is_line(Port::A, 9)
        &&& self.pa10.is_line(Port::A, 10)
        &&& self.pb7.is_line(Port::B, 7)
        &&& self.pb8.is_line(Port::B, 8)
        &&& self.pb13.is_line(Port::B, 13)
        &&& self.pb14.is_line(Port::B, 14)
        &&& self.pc0.is_line(Port::C, 0)
        &&& self.pc1.is_line(Port::C, 1)
        &&& self.pc2.is_line(Port::C, 2)
        &&& self.pc3.is_line(Port::C, 3)
        &&& self.pc4.is_line(Port::C, 4)
        &&& self.pc8.is_line(Port::C, 8)
        &&& self.pc9.is_line(Port::C, 9)
        &&& self.pc10.is_line(Port::C, 10)
        &&& self.pc11.is_line(Port::C, 11)
        &&& self.pc13.is_line(Port::C, 13)
        &&& self.pc14.is_line(Port::C, 14)
        &&& self.pc15.is_line(Port::C, 15)
        &&& self.pd4.is_line(Port::D, 4)
        &&& self.pd5.is_line(Port::D, 5)
        &&& self.pd6.is_line(Port::D, 6)
        &&& self.pd7.is_line(Port::D, 7)
        &&& self.pf0.is_line(Port::F, 0)
        &&& self.pf1.is_line(Port::F, 1)
        &&& self.pf2.is_line(Port::F, 2)
        &&& self.pf3.is_line(Port::F, 3)
        &&& self.pf4.is_line(Port::F, 4)
        &&& self.pf5.is_line(Port::F, 5)
        &&& self.pe10.is_line(Port::E, 10)
        &&& self.pe11.is_line(Port::E, 11)
        &&& self.pe12.is_line(Port::E, 12)
        &&& self.pe13.is_line(Port::E, 13)
    }
}

/// The handles of a split block stand for different lines: no line has two
/// handles, and every index lies inside its port.
pub proof fn lemma_split_lines_distinct(parts: Parts)
    requires
        parts.wf(),
    ensures
        parts.lines().len() == 36,
        forall|i: int, j: int|
            0 <= i < j < parts.lines().len() ==> parts.lines()[i] != parts.lines()[j],
        forall|i: int| 0 <= i < parts.lines().len() ==> (#[trigger] parts.lines()[i]).1 < PINS_PER_PORT,
{
    let lines = parts.lines();
    let rank = |l: (Port, u32)| -> int {
        (match l.0 {
            Port::A => 0int,
            Port::B => 1int,
            Port::C => 2int,
            Port::D => 3int,
            Port::F => 4int,
            Port::E => 5int,
        }) * 16 + l.1
    };
    assert forall|i: int| 0 <= i < lines.len() implies (#[trigger] lines[i]).1 < PINS_PER_PORT by {}
    assert forall|i: int, j: int| 0 <= i < j < lines.len() implies rank(lines[i]) < rank(lines[j]) by {}
}

impl GpioExt for GpioBlock {
    type Parts = Parts;

    /// Splits the block into its pins, each a floating input.
    fn split(self) -> (parts: Parts)
        ensures
            parts.wf(),
    {
        Parts {
            pa0: Pin { port: Port::A, i: 0, _mode: PhantomData },
            pa1: Pin { port: Port::A, i: 1, _mode: PhantomData },
            pa2: Pin { port: Port::A, i: 2, _mode: PhantomData },
            pa8: Pin { port: Port::A, i: 8, _mode: PhantomData },
            pa9: Pin { port: Port::A, i: 9, _mode: PhantomData },
            pa10: Pin { port: Port::A, i: 10, _mode: PhantomData },
            pb7: Pin { port: Port::B, i: 7, _mode: PhantomData },
            pb8: Pin { port: Port::B, i: 8, _mode: PhantomData },
            pb13: Pin { port: Port::B, i: 13, _mode: PhantomData },
            pb14: Pin { port: Port::B, i: 14, _mode: PhantomData },
            pc0: Pin { port: Port::C, i: 0, _mode: PhantomData },
            pc1: Pin { port: Port::C, i: 1, _mode: PhantomData },
            pc2: Pin { port: Port::C, i: 2, _mode: PhantomData },
            pc3: Pin { port: Port::C, i: 3, _mode: PhantomData },
            pc4: Pin { port: Port::C, i: 4, _mode: PhantomData },
            pc8: Pin { port: Port::C, i: 8, _mode: PhantomData },
            pc9: Pin { port: Port::C, i: 9, _mode: PhantomData },
            pc10: Pin { port: Port::C, i: 10, _mode: PhantomData },
            pc11: Pin { port: Port::C, i: 11, _mode: PhantomData },
            pc13: Pin { port: Port::C, i: 13, _mode: PhantomData },
            pc14: Pin { port: Port::C, i: 14, _mode: PhantomData },
            pc15: Pin { port: Port::C, i: 15, _mode: PhantomData },
            pd4: Pin { port: Port::D, i: 4, _mode: PhantomData },
            pd5: Pin { port: Port::D, i: 5, _mode: PhantomData },
            pd6: Pin { port: Port::D, i: 6, _mode: PhantomData },
            pd7: Pin { port: Port::D, i: 7, _mode: PhantomData },
            pf0: Pin { port: Port::F, i: 0, _mode: PhantomData },
            pf1: Pin { port: Port::F, i: 1, _mode: PhantomData },
            pf2: Pin { port: Port::F, i: 2, _mode: PhantomData },
            pf3: Pin { port: Port::F, i: 3, _mode: PhantomData },
            pf4: Pin { port: Port::F, i: 4, _mode: PhantomData },
            pf5: Pin { port: Port::F, i: 5, _mode: PhantomData },
            pe10: Pin { port: Port::E, i: 10, _mode: PhantomData },
            pe11: Pin { port: Port::E, i: 11, _mode: PhantomData },
            pe12: Pin { port: Port::E, i: 12, _mode: PhantomData },
            pe13: Pin { port: Port::E, i: 13, _mode: PhantomData },
        }
    }
}

} // verus!
