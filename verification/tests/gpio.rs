use efm32hg222f64_hal::gpio::{
    Alternate, Floating, GpioBlock, GpioExt, Input, Output, Pin, PinMode, Port, PushPull,
    RegisterOp, DEFAULT_OUT, PINS_PER_PORT,
};

/// The output and input levels of every line, as the registers would hold them.
struct FakeRegisters {
    level: [[u32; 16]; 6],
    modes: Vec<(Port, u32, PinMode, u32)>,
}

fn row(port: Port) -> usize {
    match port {
        Port::A => 0,
        Port::B => 1,
        Port::C => 2,
        Port::D => 3,
        Port::E => 4,
        Port::F => 5,
    }
}

impl FakeRegisters {
    fn new() -> Self {
        FakeRegisters { level: [[0; 16]; 6], modes: Vec::new() }
    }

    fn perform(&mut self, op: RegisterOp) -> Option<u32> {
        match op {
            RegisterOp::SetMode { port, index, mode, out } => {
                self.modes.push((port, index, mode, out));
                None
            }
            RegisterOp::SetHigh { port, index } => {
                self.level[row(port)][index as usize] = 1;
                None
            }
            RegisterOp::SetLow { port, index } => {
                self.level[row(port)][index as usize] = 0;
                None
            }
            RegisterOp::Toggle { port, index } => {
                self.level[row(port)][index as usize] ^= 1;
                None
            }
            RegisterOp::ReadInput { port, index } => Some(self.level[row(port)][index as usize]),
        }
    }
}

fn line<MODE>(pin: &Pin<MODE>) -> (Port, u32) {
    (pin.port(), pin.index())
}

#[test]
fn split_names_every_line() {
    let p = GpioBlock.split();
    let lines = vec![
        line(&p.pa0), line(&p.pa1), line(&p.pa2), line(&p.pa8), line(&p.pa9), line(&p.pa10),
        line(&p.pb7), line(&p.pb8), line(&p.pb13), line(&p.pb14),
        line(&p.pc0), line(&p.pc1), line(&p.pc2), line(&p.pc3), line(&p.pc4), line(&p.pc8),
        line(&p.pc9), line(&p.pc10), line(&p.pc11), line(&p.pc13), line(&p.pc14), line(&p.pc15),
        line(&p.pd4), line(&p.pd5), line(&p.pd6), line(&p.pd7),
        line(&p.pf0), line(&p.pf1), line(&p.pf2), line(&p.pf3), line(&p.pf4), line(&p.pf5),
        line(&p.pe10), line(&p.pe11), line(&p.pe12), line(&p.pe13),
    ];
    let a = |i| (Port::A, i);
    let b = |i| (Port::B, i);
    let c = |i| (Port::C, i);
    let d = |i| (Port::D, i);
    let e = |i| (Port::E, i);
    let f = |i| (Port::F, i);
    let expected = vec![
        a(0), a(1), a(2), a(8), a(9), a(10),
        b(7), b(8), b(13), b(14),
        c(0), c(1), c(2), c(3), c(4), c(8), c(9), c(10), c(11), c(13), c(14), c(15),
        d(4), d(5), d(6), d(7),
        f(0), f(1), f(2), f(3), f(4), f(5),
        e(10), e(11), e(12), e(13),
    ];
    assert_eq!(lines, expected);
    assert_eq!(lines.len(), 36);
    assert!(lines.iter().all(|&(_, i)| i < PINS_PER_PORT));
    for (n, x) in lines.iter().enumerate() {
        assert!(lines[n + 1..].iter().all(|y| y != x));
    }
}

#[test]
fn split_gives_floating_inputs() {
    let parts = GpioBlock.split();
    let led: Pin<Input<Floating>> = parts.pf3;
    assert_eq!(line(&led), (Port::F, 3));
}

#[test]
fn push_pull_output_selects_push_pull_drive() {
    let parts = GpioBlock.split();
    let (led, op): (Pin<Output<PushPull>>, RegisterOp) = parts.pf3.into_push_pull_output();
    assert_eq!(line(&led), (Port::F, 3));
    assert_eq!(
        op,
        RegisterOp::SetMode { port: Port::F, index: 3, mode: PinMode::PushPullDrive, out: 0 }
    );
    assert_eq!(DEFAULT_OUT, 0);
}

#[test]
fn floating_input_selects_input_mode() {
    let parts = GpioBlock.split();
    let (out, _) = parts.pc13.into_push_pull_output();
    let (back, op): (Pin<Input<Floating>>, RegisterOp) = out.into_floating_input();
    assert_eq!(line(&back), (Port::C, 13));
    assert_eq!(op, RegisterOp::SetMode { port: Port::C, index: 13, mode: PinMode::Input, out: 0 });
}

#[test]
fn alternate_function_only_retags() {
    let parts = GpioBlock.split();
    let alt: Pin<Alternate<PushPull>> = parts.pe10.into_alternate_push_pull();
    assert_eq!(line(&alt), (Port::E, 10));
    let (out, op) = alt.into_push_pull_output();
    assert_eq!(line(&out), (Port::E, 10));
    assert_eq!(
        op,
        RegisterOp::SetMode { port: Port::E, index: 10, mode: PinMode::PushPullDrive, out: 0 }
    );
    let again: Pin<Alternate<PushPull>> = out.into_alternate_push_pull();
    assert_eq!(line(&again), (Port::E, 10));
}

#[test]
fn a_chain_of_transitions_keeps_the_line() {
    let parts = GpioBlock.split();
    let mut registers = FakeRegisters::new();
    let (pin, op) = parts.pb7.into_floating_input();
    registers.perform(op);
    let (pin, op) = pin.into_push_pull_output();
    registers.perform(op);
    let pin = pin.into_alternate_push_pull();
    let (pin, op) = pin.into_floating_input();
    registers.perform(op);
    assert_eq!(line(&pin), (Port::B, 7));
    assert_eq!(
        registers.modes,
        vec![
            (Port::B, 7, PinMode::Input, 0),
            (Port::B, 7, PinMode::PushPullDrive, 0),
            (Port::B, 7, PinMode::Input, 0),
        ]
    );
}

#[test]
fn output_operations_name_their_own_line() {
    let parts = GpioBlock.split();
    let (mut led, _) = parts.pa9.into_push_pull_output();
    assert_eq!(led.toggle(), RegisterOp::Toggle { port: Port::A, index: 9 });
    assert_eq!(led.set_high(), RegisterOp::SetHigh { port: Port::A, index: 9 });
    assert_eq!(led.set_low(), RegisterOp::SetLow { port: Port::A, index: 9 });
    assert_eq!(led.level_read(), RegisterOp::ReadInput { port: Port::A, index: 9 });
    assert_eq!(line(&led), (Port::A, 9));
}

#[test]
fn toggling_twice_restores_the_level() {
    let parts = GpioBlock.split();
    let mut registers = FakeRegisters::new();
    let (mut led, op) = parts.pf3.into_push_pull_output();
    registers.perform(op);
    for start in [led.set_low(), led.set_high()] {
        registers.perform(start);
        let before = registers.perform(led.level_read()).unwrap();
        let first = led.toggle();
        registers.perform(first);
        let between = registers.perform(led.level_read()).unwrap();
        assert_ne!(between, before);
        assert_eq!(led.is_low(between), led.is_high(before));
        let second = led.toggle();
        assert_eq!(first, second);
        registers.perform(second);
        let after = registers.perform(led.level_read()).unwrap();
        assert_eq!(after, before);
    }
}

#[test]
fn set_high_and_set_low_are_read_back() {
    let parts = GpioBlock.split();
    let mut registers = FakeRegisters::new();
    let (mut pin, op) = parts.pd4.into_push_pull_output();
    registers.perform(op);
    let op = pin.set_high();
    registers.perform(op);
    let level = registers.perform(pin.level_read()).unwrap();
    assert!(pin.is_high(level));
    assert!(!pin.is_low(level));
    let op = pin.set_low();
    registers.perform(op);
    let level = registers.perform(pin.level_read()).unwrap();
    assert!(pin.is_low(level));
    assert!(!pin.is_high(level));
}

#[test]
fn low_is_a_level_of_zero() {
    let (pin, _) = GpioBlock.split().pa0.into_push_pull_output();
    assert!(pin.is_low(0));
    assert!(!pin.is_high(0));
    assert!(!pin.is_low(1));
    assert!(pin.is_high(1));
    assert!(pin.is_high(u32::MAX));
    assert!(!pin.is_low(u32::MAX));
}
