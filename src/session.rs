use vstd::prelude::*;

use crate::bits::{
    bit_cleared, bit_of, bit_set, field_written, is_bit_set, with_bit_cleared, with_bit_set,
    with_field,
};
use crate::decode::{decode_conversion, i24_of};
use crate::error::Error;
use crate::registers::{
    Ctrl2RegisterBits, Gain, Ldo, PgaPwrRegisterBits, PuCtrlBits, Register, SamplesPerSecond,
    GAIN_MASK, GAIN_START_BIT, LDO_MASK, LDO_START_BIT, SPS_MASK, SPS_START_BIT, TURN_OFF_CLK_CHP,
};

verus! {

/// Number of times the power-up ready bit is polled before giving up.
pub const POWER_UP_ATTEMPTS: u8 = 5;
/// Number of times the conversion-ready bit is polled before giving up.
pub const READ_ATTEMPTS: u8 = 5;
/// Wait between two conversion-ready polls, in milliseconds.
pub const READ_POLL_DELAY_MS: u32 = 100;
/// Wait between two calibration polls, in milliseconds.
pub const CALIBRATION_POLL_DELAY_MS: u32 = 1;
/// Growth of the wait after each failed power-up poll, in microseconds.
pub const POWER_UP_BACKOFF_US: u32 = 5;

/// One step of a command: a register access, a wait, or a polling loop.
#[derive(Clone, Copy, Debug, PartialEq, Eq)]
pub enum Step {
    /// Read the register, set one bit, write it back.
    SetBit { reg: Register, bit: u8 },
    /// Read the register, clear one bit, write it back.
    ClearBit { reg: Register, bit: u8 },
    /// Read the register, keep the bits `mask` keeps, OR in `value << shift`, write it back.
    SetField { reg: Register, mask: u8, shift: u8, value: u8 },
    /// Write a whole register.
    WriteRegister { reg: Register, value: u8 },
    DelayMs { ms: u32 },
    DelayUs { us: u32 },
    /// Poll the power-up ready bit, with a growing backoff, a bounded number of times.
    AwaitPowerUp,
    /// Poll the calibration start bit until the device clears it, then check
    /// the calibration error bit.
    AwaitCalibration,
    /// Poll the conversion-ready bit a bounded number of times.
    AwaitConversion,
    /// Select the most significant result byte, then read the three result bytes.
    FetchConversion,
}

/// Where a session stands within its current step: which reply it awaits.
#[derive(Clone, Copy, Debug, PartialEq, Eq)]
pub enum Phase {
    /// A register read (the first read of a poll).
    Fetch,
    /// A register write of `value`.
    Store { value: u8 },
    /// A wait.
    Pause,
    /// The second register read of a calibration poll.
    Recheck,
    /// The write that selects the result register.
    Address,
    /// The three-byte burst read.
    Burst,
}

/// Outside work that a session asks its caller to carry out.
#[derive(Clone, Copy, Debug, PartialEq, Eq)]
pub enum Request {
    /// Write the register's address, then read one byte; answer `Event::Value`.
    GetRegister { reg: Register },
    /// Write the register's address and `value`; answer `Event::Ack`.
    SetRegister { reg: Register, value: u8 },
    /// Write the register's address alone; answer `Event::Ack`.
    RequestRegister { reg: Register },
    /// Read three bytes; answer `Event::Data`.
    ReadData,
    /// Wait; answer `Event::Ack`.
    DelayMs { ms: u32 },
    /// Wait; answer `Event::Ack`.
    DelayUs { us: u32 },
}

/// The outcome of a request, handed back to the session.
#[derive(Clone, Debug, PartialEq, Eq)]
pub enum Event<E> {
    /// The byte a register read returned.
    Value(u8),
    /// A write or a wait completed.
    Ack,
    /// The bytes a burst read returned.
    Data([u8; 3]),
    /// The bus failed with the transport's error.
    Fault(E),
}

/// What a session wants next.
#[derive(Clone, Debug, PartialEq, Eq)]
pub enum Action<E> {
    /// Carry out the request and feed back its outcome.
    Perform(Request),
    /// The command completed; `reading` holds the conversion it fetched, if any.
    Finished { reading: Option<i32> },
    /// The command failed.
    Failed(Error<E>),
    /// The session was already over; nothing was done.
    Idle,
}

pub open spec fn step_wf(s: Step) -> bool {
    match s {
        Step::SetBit { bit, .. } => bit < 8,
        Step::ClearBit { bit, .. } => bit < 8,
        Step::SetField { shift, .. } => shift < 8,
        _ => true,
    }
}

/// The phase in which a step begins.
pub open spec fn entry(s: Step) -> Phase {
    match s {
        Step::WriteRegister { value, .. } => Phase::Store { value },
        Step::DelayMs { .. } => Phase::Pause,
        Step::DelayUs { .. } => Phase::Pause,
        Step::FetchConversion => Phase::Address,
        _ => Phase::Fetch,
    }
}

/// The register that a step reads or writes.
pub open spec fn target(s: Step) -> Register {
    match s {
        Step::SetBit { reg, .. } => reg,
        Step::ClearBit { reg, .. } => reg,
        Step::SetField { reg, .. } => reg,
        Step::WriteRegister { reg, .. } => reg,
        Step::AwaitCalibration => Register::Ctrl2,
        Step::FetchConversion => Register::AdcoB2,
        _ => Register::PuCtrl,
    }
}

/// The wait that a step asks for in its pause.
pub open spec fn pause_of(s: Step, attempt: u8) -> Request {
    match s {
        Step::DelayMs { ms } => Request::DelayMs { ms },
        Step::DelayUs { us } => Request::DelayUs { us },
        Step::AwaitPowerUp => Request::DelayUs { us: (POWER_UP_BACKOFF_US * attempt) as u32 },
        Step::AwaitCalibration => Request::DelayMs { ms: CALIBRATION_POLL_DELAY_MS },
        _ => Request::DelayMs { ms: READ_POLL_DELAY_MS },
    }
}

/// The request that a step makes in a phase.
pub open spec fn request_of(s: Step, phase: Phase, attempt: u8) -> Request {
    match phase {
        Phase::Fetch => Request::GetRegister { reg: target(s) },
        Phase::Recheck => Request::GetRegister { reg: target(s) },
        Phase::Store { value } => Request::SetRegister { reg: target(s), value },
        Phase::Pause => pause_of(s, attempt),
        Phase::Address => Request::RequestRegister { reg: target(s) },
        Phase::Burst => Request::ReadData,
    }
}

/// The phases that a step can be in.
pub open spec fn phase_fits(s: Step, phase: Phase) -> bool {
    match s {
        Step::SetBit { .. } => phase is Fetch || phase is Store,
        Step::ClearBit { .. } => phase is Fetch || phase is Store,
        Step::SetField { .. } => phase is Fetch || phase is Store,
        Step::WriteRegister { .. } => phase is Store,
        Step::DelayMs { .. } => phase is Pause,
        Step::DelayUs { .. } => phase is Pause,
        Step::AwaitPowerUp => phase is Fetch || phase is Pause,
        Step::AwaitCalibration => phase is Fetch || phase is Pause || phase is Recheck,
        Step::AwaitConversion => phase is Fetch || phase is Pause,
        Step::FetchConversion => phase is Address || phase is Burst,
    }
}

/// The abstract state of a session.
pub struct SessionView {
    pub plan: Seq<Step>,
    pub index: nat,
    pub phase: Phase,
    pub attempt: u8,
    pub reading: Option<i32>,
}

impl SessionView {
    pub open spec fn wf(self) -> bool {
        &&& self.plan.len() > 0
        &&& self.plan.len() < usize::MAX
        &&& self.index <= self.plan.len()
        &&& forall|i: int| 0 <= i < self.plan.len() ==> step_wf(#[trigger] self.plan[i])
        &&& self.attempt < 5
        &&& self.index < self.plan.len() ==> phase_fits(self.plan[self.index as int], self.phase)
        &&& self.index < self.plan.len() && self.plan[self.index as int] is AwaitConversion
            && self.phase is Pause ==> self.attempt + 1 < READ_ATTEMPTS
    }

    /// The session has finished or failed.
    pub open spec fn is_over(self) -> bool {
        self.index >= self.plan.len()
    }

    /// The request that the session waits on.
    pub open spec fn pending(self) -> Request {
        request_of(self.plan[self.index as int], self.phase, self.attempt)
    }

    /// Moves within the current step to `phase` and asks for its request.
    pub open spec fn goto<E>(self, phase: Phase, attempt: u8) -> (SessionView, Action<E>) {
        (
            SessionView { phase, attempt, ..self },
            Action::Perform(request_of(self.plan[self.index as int], phase, attempt)),
        )
    }

    /// Completes the current step and begins the next one, or finishes.
    pub open spec fn advance<E>(self, reading: Option<i32>) -> (SessionView, Action<E>) {
        let i = self.index + 1;
        if i < self.plan.len() {
            let s = self.plan[i as int];
            (
                SessionView { index: i, phase: entry(s), attempt: 0, reading, ..self },
                Action::Perform(request_of(s, entry(s), 0)),
            )
        } else {
            (SessionView { index: i, reading, ..self }, Action::Finished { reading })
        }
    }

    /// Ends the session with an error.
    pub open spec fn fail<E>(self, e: Error<E>) -> (SessionView, Action<E>) {
        (SessionView { index: self.plan.len(), ..self }, Action::Failed(e))
    }

    /// Keeps the state and asks again for the pending request.
    pub open spec fn repeat<E>(self) -> (SessionView, Action<E>) {
        (self, Action::Perform(self.pending()))
    }

    /// The state and action that follow a register byte read while fetching.
    pub open spec fn on_fetched<E>(self, v: u8) -> (SessionView, Action<E>) {
        match self.plan[self.index as int] {
            Step::SetBit { bit, .. } => self.goto(Phase::Store { value: bit_set(v, bit) }, 0),
            Step::ClearBit { bit, .. } => self.goto(
                Phase::Store { value: bit_cleared(v, bit) },
                0,
            ),
            Step::SetField { mask, shift, value, .. } => self.goto(
                Phase::Store { value: field_written(v, mask, shift, value) },
                0,
            ),
            Step::AwaitPowerUp => if bit_of(v, PuCtrlBits::PUR.spec_get()) {
                self.advance(self.reading)
            } else {
                self.goto(Phase::Pause, self.attempt)
            },
            Step::AwaitCalibration => if bit_of(v, Ctrl2RegisterBits::Cals.spec_get()) {
                self.goto(Phase::Pause, self.attempt)
            } else {
                self.goto(Phase::Recheck, self.attempt)
            },
            Step::AwaitConversion => if bit_of(v, PuCtrlBits::CR.spec_get()) {
                self.advance(self.reading)
            } else if self.attempt + 1 >= READ_ATTEMPTS {
                self.fail(Error::ReadTimeout)
            } else {
                self.goto(Phase::Pause, self.attempt)
            },
            _ => self.repeat(),
        }
    }

    /// The state and action that follow a completed wait.
    pub open spec fn on_paused<E>(self) -> (SessionView, Action<E>) {
        match self.plan[self.index as int] {
            Step::AwaitPowerUp => if self.attempt + 1 >= POWER_UP_ATTEMPTS {
                self.fail(Error::PowerupFailed)
            } else {
                self.goto(Phase::Fetch, (self.attempt + 1) as u8)
            },
            Step::AwaitCalibration => self.goto(Phase::Fetch, self.attempt),
            Step::AwaitConversion => self.goto(Phase::Fetch, (self.attempt + 1) as u8),
            _ => self.advance(self.reading),
        }
    }

    /// The state and action that follow an event.
    ///
    /// An event that does not answer the pending request leaves the state as
    /// it is and asks for that request again.
    pub open spec fn next<E>(self, ev: Event<E>) -> (SessionView, Action<E>) {
        if self.is_over() {
            (self, Action::Idle)
        } else {
            match (self.phase, ev) {
                (Phase::Fetch, Event::Value(v)) => self.on_fetched(v),
                (Phase::Fetch, Event::Fault(e)) => self.fail(Error::GettingRegister(e)),
                (Phase::Recheck, Event::Value(v)) => if bit_of(
                    v,
                    Ctrl2RegisterBits::CalError.spec_get(),
                ) {
                    self.fail(Error::CalibrationFailure)
                } else {
                    self.advance(self.reading)
                },
                (Phase::Recheck, Event::Fault(e)) => self.fail(Error::GettingRegister(e)),
                (Phase::Store { .. }, Event::Ack) => self.advance(self.reading),
                (Phase::Store { .. }, Event::Fault(e)) => self.fail(Error::SettingRegister(e)),
                (Phase::Pause, Event::Ack) => self.on_paused(),
                (Phase::Address, Event::Ack) => self.goto(Phase::Burst, self.attempt),
                (Phase::Address, Event::Fault(e)) => self.fail(Error::RequestingRegister(e)),
                (Phase::Burst, Event::Data(b)) => self.advance(Some(i24_of(b@) as i32)),
                (Phase::Burst, Event::Fault(e)) => self.fail(Error::ReadingData(e)),
                _ => self.repeat(),
            }
        }
    }
}

/// Reset: set the reset bit, wait a millisecond, clear it.
pub open spec fn reset_steps() -> Seq<Step> {
    seq![
        Step::SetBit { reg: Register::PuCtrl, bit: PuCtrlBits::RR.spec_get() },
        Step::DelayMs { ms: 1 },
        Step::ClearBit { reg: Register::PuCtrl, bit: PuCtrlBits::RR.spec_get() },
    ]
}

/// Power-up: power the digital then the analog part, wait, poll for readiness.
pub open spec fn power_up_steps() -> Seq<Step> {
    seq![
        Step::SetBit { reg: Register::PuCtrl, bit: PuCtrlBits::PUD.spec_get() },
        Step::SetBit { reg: Register::PuCtrl, bit: PuCtrlBits::PUA.spec_get() },
        Step::DelayUs { us: 200 },
        Step::AwaitPowerUp,
    ]
}

/// LDO selection: the voltage field, then the internal-supply bit.
pub open spec fn ldo_steps(ldo: Ldo) -> Seq<Step> {
    seq![
        Step::SetField {
            reg: Register::Ctrl1,
            mask: LDO_MASK,
            shift: LDO_START_BIT,
            value: ldo.spec_code(),
        },
        Step::SetBit { reg: Register::PuCtrl, bit: PuCtrlBits::AVDDS.spec_get() },
    ]
}

pub open spec fn gain_steps(gain: Gain) -> Seq<Step> {
    seq![
        Step::SetField {
            reg: Register::Ctrl1,
            mask: GAIN_MASK,
            shift: GAIN_START_BIT,
            value: gain.spec_code(),
        },
    ]
}

pub open spec fn sample_rate_steps(sps: SamplesPerSecond) -> Seq<Step> {
    seq![
        Step::SetField {
            reg: Register::Ctrl2,
            mask: SPS_MASK,
            shift: SPS_START_BIT,
            value: sps.spec_code(),
        },
    ]
}

/// Fixed analog front-end settings: clock chopping off, decoupling capacitor on.
pub open spec fn misc_init_steps() -> Seq<Step> {
    seq![
        Step::WriteRegister { reg: Register::Adc, value: TURN_OFF_CLK_CHP },
        Step::SetBit { reg: Register::PgaPwr, bit: PgaPwrRegisterBits::CapEn.spec_get() },
    ]
}

/// Calibration: set the start bit, then wait for the device to clear it.
pub open spec fn calibrate_steps() -> Seq<Step> {
    seq![
        Step::SetBit { reg: Register::Ctrl2, bit: Ctrl2RegisterBits::Cals.spec_get() },
        Step::AwaitCalibration,
    ]
}

/// Conversion read: wait for a conversion, then fetch it.
pub open spec fn read_steps() -> Seq<Step> {
    seq![Step::AwaitConversion, Step::FetchConversion]
}

/// The whole bring-up sequence, in order.
pub open spec fn bring_up_steps(ldo: Ldo, gain: Gain, sps: SamplesPerSecond) -> Seq<Step> {
    reset_steps() + power_up_steps() + ldo_steps(ldo) + gain_steps(gain) + sample_rate_steps(sps)
        + misc_init_steps() + calibrate_steps()
}

/// A session at the start of a plan.
pub open spec fn started(plan: Seq<Step>) -> SessionView {
    SessionView { plan, index: 0, phase: entry(plan[0]), attempt: 0, reading: None }
}

fn entry_exec(s: Step) -> (r: Phase)
    ensures
        r == entry(s),
{
    match s {
        Step::WriteRegister { value, .. } => Phase::Store { value },
        Step::DelayMs { .. } => Phase::Pause,
        Step::DelayUs { .. } => Phase::Pause,
        Step::FetchConversion => Phase::Address,
        _ => Phase::Fetch,
    }
}

fn target_exec(s: Step) -> (r: Register)
    ensures
        r == target(s),
{
    match s {
        Step::SetBit { reg, .. } => reg,
        Step::ClearBit { reg, .. } => reg,
        Step::SetField { reg, .. } => reg,
        Step::WriteRegister { reg, .. } => reg,
        Step::AwaitCalibration => Register::Ctrl2,
        Step::FetchConversion => Register::AdcoB2,
        _ => Register::PuCtrl,
    }
}

fn request_exec(s: Step, phase: Phase, attempt: u8) -> (r: Request)
    requires
        attempt < 5,
    ensures
        r == request_of(s, phase, attempt),
{
    match phase {
        Phase::Fetch => Request::GetRegister { reg: target_exec(s) },
        Phase::Recheck => Request::GetRegister { reg: target_exec(s) },
        Phase::Store { value } => Request::SetRegister { reg: target_exec(s), value },
        Phase::Pause => match s {
            Step::DelayMs { ms } => Request::DelayMs { ms },
            Step::DelayUs { us } => Request::DelayUs { us },
            Step::AwaitPowerUp => Request::DelayUs { us: POWER_UP_BACKOFF_US * (attempt as u32) },
            Step::AwaitCalibration => Request::DelayMs { ms: CALIBRATION_POLL_DELAY_MS },
            _ => Request::DelayMs { ms: READ_POLL_DELAY_MS },
        },
        Phase::Address => Request::RequestRegister { reg: target_exec(s) },
        Phase::Burst => Request::ReadData,
    }
}

/// One command in progress: a plan of steps and the position within it.
///
/// The caller carries out each [`Request`] the session makes and feeds the
/// outcome back with [`Session::feed`], until the session finishes or fails.
pub struct Session {
    plan: Vec<Step>,
    index: usize,
    phase: Phase,
    attempt: u8,
    reading: Option<i32>,
}

impl View for Session {
    type V = SessionView;

    closed spec fn view(&self) -> SessionView {
        SessionView {
            plan: self.plan@,
            index: self.index as nat,
            phase: self.phase,
            attempt: self.attempt,
            reading: self.reading,
        }
    }
}

impl Session {
    fn start(plan: Vec<Step>) -> (r: Session)
        requires
            0 < plan@.len() < usize::MAX,
            forall|i: int| 0 <= i < plan@.len() ==> step_wf(#[trigger] plan@[i]),
        ensures
            r@ == started(plan@),
            r@.wf(),
    {
        let phase = entry_exec(plan[0]);
        Session { plan, index: 0, phase, attempt: 0, reading: None }
    }

    /// The bring-up sequence with the given settings: reset, power-up,
    /// LDO, gain and sample-rate selection, fixed front-end settings, and
    /// calibration.
    pub fn new_with_settings(ldo: Ldo, gain: Gain, sps: SamplesPerSecond) -> (r: Session)
        ensures
            r@ == started(bring_up_steps(ldo, gain, sps)),
            r@.wf(),
    {
        let plan = vec![
            Step::SetBit { reg: Register::PuCtrl, bit: PuCtrlBits::RR.get() },
            Step::DelayMs { ms: 1 },
            Step::ClearBit { reg: Register::PuCtrl, bit: PuCtrlBits::RR.get() },
            Step::SetBit { reg: Register::PuCtrl, bit: PuCtrlBits::PUD.get() },
            Step::SetBit { reg: Register::PuCtrl, bit: PuCtrlBits::PUA.get() },
            Step::DelayUs { us: 200 },
            Step::AwaitPowerUp,
            Step::SetField {
                reg: Register::Ctrl1,
                mask: LDO_MASK,
                shift: LDO_START_BIT,
                value: ldo.code(),
            },
            Step::SetBit { reg: Register::PuCtrl, bit: PuCtrlBits::AVDDS.get() },
            Step::SetField {
                reg: Register::Ctrl1,
                mask: GAIN_MASK,
                shift: GAIN_START_BIT,
                value: gain.code(),
            },
            Step::SetField {
                reg: Register::Ctrl2,
                mask: SPS_MASK,
                shift: SPS_START_BIT,
                value: sps.code(),
            },
            Step::WriteRegister { reg: Register::Adc, value: TURN_OFF_CLK_CHP },
            Step::SetBit { reg: Register::PgaPwr, bit: PgaPwrRegisterBits::CapEn.get() },
            Step::SetBit { reg: Register::Ctrl2, bit: Ctrl2RegisterBits::Cals.get() },
            Step::AwaitCalibration,
        ];
        assert(plan@ =~= bring_up_steps(ldo, gain, sps));
        Session::start(plan)
    }

    /// The bring-up sequence with a 3.3 V LDO, gain 128 and 10 samples per second.
    pub fn new() -> (r: Session)
        ensures
            r@ == started(bring_up_steps(Ldo::L3v3, Gain::G128, SamplesPerSecond::SPS10)),
            r@.wf(),
    {
        Session::new_with_settings(Ldo::L3v3, Gain::G128, SamplesPerSecond::SPS10)
    }

    /// Calibration: set the start bit and wait until the device clears it.
    pub fn calibrate() -> (r: Session)
        ensures
            r@ == started(calibrate_steps()),
            r@.wf(),
    {
        let plan = vec![
            Step::SetBit { reg: Register::Ctrl2, bit: Ctrl2RegisterBits::Cals.get() },
            Step::AwaitCalibration,
        ];
        assert(plan@ =~= calibrate_steps());
        Session::start(plan)
    }

    /// One conversion read: poll for a ready conversion, then fetch it.
    pub fn read() -> (r: Session)
        ensures
            r@ == started(read_steps()),
            r@.wf(),
    {
        let plan = vec![Step::AwaitConversion, Step::FetchConversion];
        assert(plan@ =~= read_steps());
        Session::start(plan)
    }

    /// Writes the sample-rate field.
    pub fn set_sample_rate(sps: SamplesPerSecond) -> (r: Session)
        ensures
            r@ == started(sample_rate_steps(sps)),
            r@.wf(),
    {
        let plan = vec![
            Step::SetField {
                reg: Register::Ctrl2,
                mask: SPS_MASK,
                shift: SPS_START_BIT,
                value: sps.code(),
            },
        ];
        assert(plan@ =~= sample_rate_steps(sps));
        Session::start(plan)
    }

    /// Writes the gain field.
    pub fn set_gain(gain: Gain) -> (r: Session)
        ensures
            r@ == started(gain_steps(gain)),
            r@.wf(),
    {
        let plan = vec![
            Step::SetField {
                reg: Register::Ctrl1,
                mask: GAIN_MASK,
                shift: GAIN_START_BIT,
                value: gain.code(),
            },
        ];
        assert(plan@ =~= gain_steps(gain));
        Session::start(plan)
    }

    /// Writes the LDO field, then sets the internal-supply bit.
    pub fn set_ldo(ldo: Ldo) -> (r: Session)
        ensures
            r@ == started(ldo_steps(ldo)),
            r@.wf(),
    {
        let plan = vec![
            Step::SetField {
                reg: Register::Ctrl1,
                mask: LDO_MASK,
                shift: LDO_START_BIT,
                value: ldo.code(),
            },
            Step::SetBit { reg: Register::PuCtrl, bit: PuCtrlBits::AVDDS.get() },
        ];
        assert(plan@ =~= ldo_steps(ldo));
        Session::start(plan)
    }

    /// The request the session waits on, or `None` once it is over.
    pub fn request(&self) -> (r: Option<Request>)
        requires
            self@.wf(),
        ensures
            r == (if self@.is_over() {
                None
            } else {
                Some(self@.pending())
            }),
    {
        if self.index >= self.plan.len() {
            None
        } else {
            Some(request_exec(self.plan[self.index], self.phase, self.attempt))
        }
    }

    /// Whether the session has finished or failed.
    pub fn is_over(&self) -> (r: bool)
        ensures
            r == self@.is_over(),
    {
        self.index >= self.plan.len()
    }

    fn goto<E>(&mut self, phase: Phase, attempt: u8) -> (a: Action<E>)
        requires
            old(self)@.wf(),
            !old(self)@.is_over(),
            phase_fits(old(self)@.plan[old(self)@.index as int], phase),
            attempt < 5,
            old(self)@.plan[old(self)@.index as int] is AwaitConversion && phase is Pause
                ==> attempt + 1 < READ_ATTEMPTS,
        ensures
            (final(self)@, a) == old(self)@.goto::<E>(phase, attempt),
            final(self)@.wf(),
    {
        self.phase = phase;
        self.attempt = attempt;
        Action::Perform(request_exec(self.plan[self.index], phase, attempt))
    }

    fn advance<E>(&mut self, reading: Option<i32>) -> (a: Action<E>)
        requires
            old(self)@.wf(),
            !old(self)@.is_over(),
        ensures
            (final(self)@, a) == old(self)@.advance::<E>(reading),
            final(self)@.wf(),
    {
        let i = self.index + 1;
        self.reading = reading;
        self.index = i;
        if i < self.plan.len() {
            let s = self.plan[i];
            let p = entry_exec(s);
            self.phase = p;
            self.attempt = 0;
            Action::Perform(request_exec(s, p, 0))
        } else {
            Action::Finished { reading }
        }
    }

    fn fail<E>(&mut self, e: Error<E>) -> (a: Action<E>)
        requires
            old(self)@.wf(),
        ensures
            (final(self)@, a) == old(self)@.fail(e),
            final(self)@.wf(),
    {
        self.index = self.plan.len();
        Action::Failed(e)
    }

    fn repeat<E>(&self) -> (a: Action<E>)
        requires
            self@.wf(),
            !self@.is_over(),
        ensures
            a == self@.repeat::<E>().1,
    {
        Action::Perform(request_exec(self.plan[self.index], self.phase, self.attempt))
    }

    fn on_fetched<E>(&mut self, v: u8) -> (a: Action<E>)
        requires
            old(self)@.wf(),
            !old(self)@.is_over(),
        ensures
            (final(self)@, a) == old(self)@.on_fetched::<E>(v),
            final(self)@.wf(),
    {
        match self.plan[self.index] {
            Step::SetBit { bit, .. } => self.goto(Phase::Store { value: with_bit_set(v, bit) }, 0),
            Step::ClearBit { bit, .. } => self.goto(
                Phase::Store { value: with_bit_cleared(v, bit) },
                0,
            ),
            Step::SetField { mask, shift, value, .. } => self.goto(
                Phase::Store { value: with_field(v, mask, shift, value) },
                0,
            ),
            Step::AwaitPowerUp => if is_bit_set(v, PuCtrlBits::PUR.get()) {
                let reading = self.reading;
                self.advance(reading)
            } else {
                let attempt = self.attempt;
                self.goto(Phase::Pause, attempt)
            },
            Step::AwaitCalibration => if is_bit_set(v, Ctrl2RegisterBits::Cals.get()) {
                let attempt = self.attempt;
                self.goto(Phase::Pause, attempt)
            } else {
                let attempt = self.attempt;
                self.goto(Phase::Recheck, attempt)
            },
            Step::AwaitConversion => if is_bit_set(v, PuCtrlBits::CR.get()) {
                let reading = self.reading;
                self.advance(reading)
            } else if self.attempt + 1 >= READ_ATTEMPTS {
                self.fail(Error::ReadTimeout)
            } else {
                let attempt = self.attempt;
                self.goto(Phase::Pause, attempt)
            },
            _ => self.repeat(),
        }
    }

    fn on_paused<E>(&mut self) -> (a: Action<E>)
        requires
            old(self)@.wf(),
            !old(self)@.is_over(),
            old(self)@.phase is Pause,
        ensures
            (final(self)@, a) == old(self)@.on_paused::<E>(),
            final(self)@.wf(),
    {
        match self.plan[self.index] {
            Step::AwaitPowerUp => if self.attempt + 1 >= POWER_UP_ATTEMPTS {
                self.fail(Error::PowerupFailed)
            } else {
                let attempt = self.attempt + 1;
                self.goto(Phase::Fetch, attempt)
            },
            Step::AwaitCalibration => {
                let attempt = self.attempt;
                self.goto(Phase::Fetch, attempt)
            },
            Step::AwaitConversion => {
                let attempt = self.attempt + 1;
                self.goto(Phase::Fetch, attempt)
            },
            _ => {
                let reading = self.reading;
                self.advance(reading)
            },
        }
    }

    /// Hands the outcome of the pending request to the session and returns
    /// what it wants next.
    pub fn feed<E>(&mut self, ev: Event<E>) -> (a: Action<E>)
        requires
            old(self)@.wf(),
        ensures
            (final(self)@, a) == old(self)@.next(ev),
            final(self)@.wf(),
    {
        if self.index >= self.plan.len() {
            return Action::Idle;
        }
        match (self.phase, ev) {
            (Phase::Fetch, Event::Value(v)) => self.on_fetched(v),
            (Phase::Fetch, Event::Fault(e)) => self.fail(Error::GettingRegister(e)),
            (Phase::Recheck, Event::Value(v)) => if is_bit_set(v, Ctrl2RegisterBits::CalError.get()) {
                self.fail(Error::CalibrationFailure)
            } else {
                let reading = self.reading;
                self.advance(reading)
            },
            (Phase::Recheck, Event::Fault(e)) => self.fail(Error::GettingRegister(e)),
            (Phase::Store { .. }, Event::Ack) => {
                let reading = self.reading;
                self.advance(reading)
            },
            (Phase::Store { .. }, Event::Fault(e)) => self.fail(Error::SettingRegister(e)),
            (Phase::Pause, Event::Ack) => self.on_paused(),
            (Phase::Address, Event::Ack) => {
                let attempt = self.attempt;
                self.goto(Phase::Burst, attempt)
            },
            (Phase::Address, Event::Fault(e)) => self.fail(Error::RequestingRegister(e)),
            (Phase::Burst, Event::Data(b)) => {
                let value = decode_conversion(&b);
                self.advance(Some(value))
            },
            (Phase::Burst, Event::Fault(e)) => self.fail(Error::ReadingData(e)),
            _ => self.repeat(),
        }
    }
}

} // verus!
