use nau7802::bits::{is_bit_set, with_bit_cleared, with_bit_set, with_field};
use nau7802::decode::decode_conversion;
use nau7802::registers::{
    Ctrl2RegisterBits, PuCtrlBits, GAIN_MASK, GAIN_START_BIT, LDO_MASK, LDO_START_BIT, SPS_MASK,
    SPS_START_BIT,
};
use nau7802::session::READ_ATTEMPTS;
use nau7802::{Action, Error, Event, Gain, Ldo, Register, Request, SamplesPerSecond, Session};

/// A simulated chip that answers the requests a session makes.
struct Device {
    regs: [u8; 32],
    /// Whether the power-up ready bit comes up once both power bits are set.
    powers_up: bool,
    /// The read of the power control register (counted from one) from which
    /// on the conversion-ready bit reads as set.
    ready_on: Option<usize>,
    pu_reads: usize,
    /// How many reads of the second control register still show the
    /// calibration start bit after it was set.
    cal_cycles: usize,
    cal_left: usize,
    cal_error: bool,
    data: [u8; 3],
    /// The request (counted from one) on which the bus fails.
    fail_on: Option<usize>,
}

impl Device {
    fn new() -> Device {
        Device {
            regs: [0; 32],
            powers_up: true,
            ready_on: Some(1),
            pu_reads: 0,
            cal_cycles: 0,
            cal_left: 0,
            cal_error: false,
            data: [0, 0, 0],
            fail_on: None,
        }
    }

    fn read(&mut self, reg: Register) -> u8 {
        let a = reg.addr() as usize;
        match reg {
            Register::PuCtrl => {
                self.pu_reads += 1;
                let mut v = self.regs[a] & !(1 << 3) & !(1 << 5);
                if self.powers_up && self.regs[a] & 0b110 == 0b110 {
                    v |= 1 << 3;
                }
                if let Some(k) = self.ready_on {
                    if self.pu_reads >= k {
                        v |= 1 << 5;
                    }
                }
                v
            }
            Register::Ctrl2 => {
                if self.regs[a] & (1 << 2) != 0 {
                    if self.cal_left > 0 {
                        self.cal_left -= 1;
                    } else {
                        self.regs[a] &= !(1 << 2);
                        if self.cal_error {
                            self.regs[a] |= 1 << 3;
                        }
                    }
                }
                self.regs[a]
            }
            _ => self.regs[a],
        }
    }

    fn answer(&mut self, req: Request, n: usize) -> Event<u8> {
        if self.fail_on == Some(n) {
            return Event::Fault(7);
        }
        match req {
            Request::GetRegister { reg } => Event::Value(self.read(reg)),
            Request::SetRegister { reg, value } => {
                if reg == Register::Ctrl2 && value & (1 << 2) != 0 {
                    self.cal_left = self.cal_cycles;
                }
                self.regs[reg.addr() as usize] = value;
                Event::Ack
            }
            Request::RequestRegister { .. } => Event::Ack,
            Request::ReadData => Event::Data(self.data),
            Request::DelayMs { .. } | Request::DelayUs { .. } => Event::Ack,
        }
    }
}

fn run(mut s: Session, dev: &mut Device) -> (Action<u8>, Vec<Request>) {
    let mut log = Vec::new();
    let mut req = s.request().unwrap();
    loop {
        log.push(req);
        let ev = dev.answer(req, log.len());
        match s.feed(ev) {
            Action::Perform(r) => req = r,
            other => return (other, log),
        }
    }
}

fn count(log: &[Request], want: Request) -> usize {
    log.iter().filter(|r| **r == want).count()
}

fn pu_reads_after_settle(log: &[Request]) -> usize {
    let start = log
        .iter()
        .position(|r| *r == Request::DelayUs { us: 200 })
        .unwrap();
    let end = log[start..]
        .iter()
        .position(|r| *r == Request::GetRegister { reg: Register::Ctrl1 })
        .map_or(log.len(), |i| start + i);
    count(&log[start..end], Request::GetRegister { reg: Register::PuCtrl })
}

#[test]
fn field_write_keeps_bits_outside_mask() {
    for v in [0x00u8, 0xFF, 0xA5, 0x5A, 0x3C] {
        for code in 0u8..8 {
            let r = with_field(v, GAIN_MASK, GAIN_START_BIT, code);
            assert_eq!(r, (v & GAIN_MASK) | code);
            assert_eq!(r & GAIN_MASK, v & GAIN_MASK);
            let r = with_field(v, SPS_MASK, SPS_START_BIT, code);
            assert_eq!(r, (v & SPS_MASK) | (code << 4));
            assert_eq!(r & SPS_MASK, v & SPS_MASK);
            let r = with_field(v, LDO_MASK, LDO_START_BIT, code);
            assert_eq!(r, (v & LDO_MASK) | (code << 3));
            assert_eq!(r & LDO_MASK, v & LDO_MASK);
        }
    }
    assert_eq!(with_field(0xFF, GAIN_MASK, GAIN_START_BIT, Gain::G4.code()), 0xFA);
    assert_eq!(with_field(0x00, SPS_MASK, SPS_START_BIT, SamplesPerSecond::SPS320.code()), 0x70);
    assert_eq!(with_field(0xFF, LDO_MASK, LDO_START_BIT, Ldo::L3v3.code()), 0xE7);
}

#[test]
fn bit_set_then_get() {
    let cr = PuCtrlBits::CR.get();
    let pur = PuCtrlBits::PUR.get();
    let v = with_bit_set(0x00, cr);
    assert_eq!(v, 0x20);
    assert!(is_bit_set(v, cr));
    let v = with_bit_cleared(0xFF, cr);
    assert_eq!(v, 0xDF);
    assert!(!is_bit_set(v, cr));
    let v = with_bit_set(with_bit_set(0x00, cr), pur);
    assert!(is_bit_set(v, cr));
    let v = with_bit_cleared(v, pur);
    assert!(is_bit_set(v, cr));
    let v = with_bit_set(with_bit_cleared(0xFF, cr), pur);
    assert!(!is_bit_set(v, cr));
}

#[test]
fn sign_extension() {
    assert_eq!(decode_conversion(&[0x00, 0x00, 0x01]), 1);
    assert_eq!(decode_conversion(&[0xFF, 0xFF, 0xFF]), -1);
    assert_eq!(decode_conversion(&[0x80, 0x00, 0x00]), -8388608);
    assert_eq!(decode_conversion(&[0x7F, 0xFF, 0xFF]), 8388607);
    assert_eq!(decode_conversion(&[0x12, 0x34, 0x56]), 0x123456);
    assert_eq!(decode_conversion(&[0xFE, 0xDC, 0xBA]), 0xFEDCBA - 0x1000000);
}

#[test]
fn read_decodes_through_session() {
    let mut dev = Device::new();
    dev.data = [0x80, 0x00, 0x00];
    let (a, _) = run(Session::read(), &mut dev);
    assert_eq!(a, Action::Finished { reading: Some(-8388608) });
}

#[test]
fn power_up_never_ready_fails_after_five_polls() {
    let mut dev = Device::new();
    dev.powers_up = false;
    let (a, log) = run(Session::new(), &mut dev);
    assert_eq!(a, Action::Failed(Error::PowerupFailed));
    assert_eq!(pu_reads_after_settle(&log), 5);
    let backoff: Vec<Request> = log
        .iter()
        .filter(|r| matches!(r, Request::DelayUs { .. }))
        .cloned()
        .collect();
    assert_eq!(
        backoff,
        vec![
            Request::DelayUs { us: 200 },
            Request::DelayUs { us: 0 },
            Request::DelayUs { us: 5 },
            Request::DelayUs { us: 10 },
            Request::DelayUs { us: 15 },
            Request::DelayUs { us: 20 },
        ]
    );
}

#[test]
fn calibration_error_fails() {
    let mut dev = Device::new();
    dev.cal_error = true;
    let (a, _) = run(Session::calibrate(), &mut dev);
    assert_eq!(a, Action::Failed(Error::CalibrationFailure));
    let mut dev = Device::new();
    dev.cal_error = true;
    let (a, _) = run(Session::new(), &mut dev);
    assert_eq!(a, Action::Failed(Error::CalibrationFailure));
}

#[test]
fn calibration_waits_until_start_bit_clears() {
    let mut dev = Device::new();
    dev.cal_cycles = 3;
    let (a, log) = run(Session::calibrate(), &mut dev);
    assert_eq!(a, Action::Finished { reading: None });
    assert_eq!(count(&log, Request::DelayMs { ms: 1 }), 3);
    assert_eq!(dev.regs[2] & (1 << Ctrl2RegisterBits::Cals.get()), 0);
}

#[test]
fn read_never_ready_times_out() {
    let mut dev = Device::new();
    dev.ready_on = None;
    let (a, log) = run(Session::read(), &mut dev);
    assert_eq!(a, Action::Failed(Error::ReadTimeout));
    assert_eq!(READ_ATTEMPTS, 5);
    assert_eq!(count(&log, Request::GetRegister { reg: Register::PuCtrl }), 5);
    assert_eq!(count(&log, Request::DelayMs { ms: 100 }), 4);
    assert_eq!(count(&log, Request::ReadData), 0);
}

#[test]
fn read_ready_on_each_attempt() {
    for k in 1..=5usize {
        let mut dev = Device::new();
        dev.ready_on = Some(k);
        dev.data = [0x00, 0x00, 0x2A];
        let (a, log) = run(Session::read(), &mut dev);
        assert_eq!(a, Action::Finished { reading: Some(42) });
        assert_eq!(count(&log, Request::GetRegister { reg: Register::PuCtrl }), k);
        assert_eq!(count(&log, Request::RequestRegister { reg: Register::AdcoB2 }), 1);
        assert_eq!(count(&log, Request::ReadData), 1);
    }
}

#[test]
fn default_bring_up_then_read() {
    let mut dev = Device::new();
    let (a, log) = run(Session::new(), &mut dev);
    assert_eq!(a, Action::Finished { reading: None });
    assert_eq!(pu_reads_after_settle(&log), 1);
    // reset bit cleared, both power bits and the internal LDO bit set
    assert_eq!(dev.regs[0] & 0b1000_0111, 0b1000_0110);
    // LDO 3.3 V and gain 128
    assert_eq!(dev.regs[1], (0b100 << 3) | 0b111);
    // 10 samples per second, calibration done without error
    assert_eq!(dev.regs[2], 0);
    assert_eq!(dev.regs[0x15], 0x30);
    assert_eq!(dev.regs[0x1C], 0x80);
    dev.data = [0xFF, 0xFF, 0xFF];
    let (a, log) = run(Session::read(), &mut dev);
    assert_eq!(a, Action::Finished { reading: Some(-1) });
    assert_eq!(count(&log, Request::GetRegister { reg: Register::PuCtrl }), 1);
}

#[test]
fn bring_up_with_settings_programs_fields() {
    let mut dev = Device::new();
    dev.regs[1] = 0b1100_0000;
    dev.regs[2] = 0b1000_0001;
    let s = Session::new_with_settings(Ldo::L2v4, Gain::G2, SamplesPerSecond::SPS80);
    let (a, _) = run(s, &mut dev);
    assert_eq!(a, Action::Finished { reading: None });
    assert_eq!(dev.regs[1], 0b1100_0000 | (0b111 << 3) | 0b001);
    assert_eq!(dev.regs[2], 0b1000_0001 | (0b011 << 4));
}

#[test]
fn setters_keep_neighbouring_bits() {
    let mut dev = Device::new();
    dev.regs[1] = 0xFF;
    let (a, log) = run(Session::set_gain(Gain::G1), &mut dev);
    assert_eq!(a, Action::Finished { reading: None });
    assert_eq!(dev.regs[1], 0xF8);
    assert_eq!(
        log,
        vec![
            Request::GetRegister { reg: Register::Ctrl1 },
            Request::SetRegister { reg: Register::Ctrl1, value: 0xF8 },
        ]
    );
    let (_, _) = run(Session::set_ldo(Ldo::L4v5), &mut dev);
    assert_eq!(dev.regs[1], 0xC0);
    assert_eq!(dev.regs[0] & 0x80, 0x80);
    dev.regs[2] = 0x83;
    let (_, _) = run(Session::set_sample_rate(SamplesPerSecond::SPS40), &mut dev);
    assert_eq!(dev.regs[2], 0xA3);
}

#[test]
fn bus_failures_are_tagged() {
    let mut dev = Device::new();
    dev.fail_on = Some(1);
    let (a, _) = run(Session::set_gain(Gain::G8), &mut dev);
    assert_eq!(a, Action::Failed(Error::GettingRegister(7)));
    let mut dev = Device::new();
    dev.fail_on = Some(2);
    let (a, _) = run(Session::set_gain(Gain::G8), &mut dev);
    assert_eq!(a, Action::Failed(Error::SettingRegister(7)));
    let mut dev = Device::new();
    dev.fail_on = Some(2);
    let (a, _) = run(Session::read(), &mut dev);
    assert_eq!(a, Action::Failed(Error::RequestingRegister(7)));
    let mut dev = Device::new();
    dev.fail_on = Some(3);
    let (a, _) = run(Session::read(), &mut dev);
    assert_eq!(a, Action::Failed(Error::ReadingData(7)));
}

#[test]
fn session_is_idle_once_over() {
    let mut dev = Device::new();
    let mut s = Session::set_gain(Gain::G16);
    let _ = dev.answer(s.request().unwrap(), 1);
    assert_eq!(s.feed::<u8>(Event::Value(0)), Action::Perform(Request::SetRegister {
        reg: Register::Ctrl1,
        value: 0b100,
    }));
    assert_eq!(s.feed::<u8>(Event::Ack), Action::Finished { reading: None });
    assert!(s.is_over());
    assert_eq!(s.request(), None);
    assert_eq!(s.feed::<u8>(Event::Ack), Action::Idle);
}

#[test]
fn unanswering_event_repeats_request() {
    let mut s = Session::read();
    assert_eq!(s.feed::<u8>(Event::Ack), Action::Perform(Request::GetRegister { reg: Register::PuCtrl }));
    assert_eq!(s.request(), Some(Request::GetRegister { reg: Register::PuCtrl }));
}
