use vstd::prelude::*;

use crate::bits::{bit_cleared, bit_of, bit_reads_back, bit_set, other_bits_unaffected};
use crate::decode::i24_of;
use crate::error::Error;
use crate::registers::{Ctrl2RegisterBits, PuCtrlBits, Register};
use crate::registers::{Gain, Ldo, SamplesPerSecond};
use crate::session::{
    bring_up_steps, entry, read_steps, started, step_wf, Action, Event, Request, SessionView, Step,
    POWER_UP_ATTEMPTS, READ_ATTEMPTS,
};

verus! {

/// The state reached and the actions returned when a session is fed a
/// sequence of events in order.
pub open spec fn run<E>(s: SessionView, evs: Seq<Event<E>>) -> (SessionView, Seq<Action<E>>)
    decreases evs.len(),
{
    if evs.len() == 0 {
        (s, Seq::empty())
    } else {
        let (s1, a) = s.next(evs[0]);
        let (s2, acts) = run(s1, evs.drop_first());
        (s2, seq![a] + acts)
    }
}

/// Replies to a run of polls: each value answers one register read, and an
/// acknowledgement answers each wait between two reads.
pub open spec fn polled<E>(vals: Seq<u8>) -> Seq<Event<E>>
    decreases vals.len(),
{
    if vals.len() <= 1 {
        vals.map_values(|v: u8| Event::Value(v))
    } else {
        seq![Event::Value(vals[0]), Event::Ack] + polled(vals.drop_first())
    }
}

/// The waits and re-reads of a power-up poll that misses the ready bit `n`
/// times from attempt `a` on, before the last miss.
pub open spec fn power_waits<E>(a: nat, n: nat) -> Seq<Action<E>>
    decreases n,
{
    if n == 0 {
        Seq::empty()
    } else {
        seq![
            Action::Perform(Request::DelayUs { us: (5 * a) as u32 }),
            Action::Perform(Request::GetRegister { reg: Register::PuCtrl }),
        ] + power_waits(a + 1, (n - 1) as nat)
    }
}

/// The waits and re-reads of a conversion poll that misses the ready bit `n` times.
pub open spec fn read_waits<E>(n: nat) -> Seq<Action<E>>
    decreases n,
{
    if n == 0 {
        Seq::empty()
    } else {
        seq![
            Action::Perform(Request::DelayMs { ms: 100 }),
            Action::Perform(Request::GetRegister { reg: Register::PuCtrl }),
        ] + read_waits((n - 1) as nat)
    }
}

proof fn lemma_run_cons<E>(s: SessionView, e: Event<E>, rest: Seq<Event<E>>)
    ensures
        run(s, seq![e] + rest) == ({
            let (s1, a) = s.next(e);
            let (s2, acts) = run(s1, rest);
            (s2, seq![a] + acts)
        }),
{
    let evs = seq![e] + rest;
    assert(evs.drop_first() =~= rest);
    assert(evs[0] == e);
}

/// Feeding two sequences of events one after the other is feeding their concatenation.
pub proof fn lemma_run_append<E>(s: SessionView, x: Seq<Event<E>>, y: Seq<Event<E>>)
    ensures
        run(s, x + y) == ({
            let (s1, a1) = run(s, x);
            let (s2, a2) = run(s1, y);
            (s2, a1 + a2)
        }),
    decreases x.len(),
{
    if x.len() == 0 {
        assert(x + y =~= y);
        assert(Seq::<Action<E>>::empty() + run(s, y).1 =~= run(s, y).1);
    } else {
        let rest = x.drop_first();
        assert(x =~= seq![x[0]] + rest);
        assert(x + y =~= seq![x[0]] + (rest + y));
        lemma_run_cons(s, x[0], rest + y);
        lemma_run_cons(s, x[0], rest);
        let s1 = s.next(x[0]).0;
        lemma_run_append(s1, rest, y);
        let a = s.next(x[0]).1;
        let (t, b1) = run(s1, rest);
        assert(seq![a] + (b1 + run(t, y).1) =~= (seq![a] + b1) + run(t, y).1);
    }
}

proof fn lemma_polled_cons<E>(vals: Seq<u8>)
    requires
        vals.len() >= 1,
    ensures
        vals.len() == 1 ==> polled::<E>(vals) == seq![Event::<E>::Value(vals[0])],
        vals.len() > 1 ==> polled::<E>(vals) == seq![Event::<E>::Value(vals[0]), Event::Ack]
            + polled::<E>(vals.drop_first()),
{
    if vals.len() == 1 {
        assert(vals.map_values(|v: u8| Event::<E>::Value(v)) =~= seq![Event::<E>::Value(vals[0])]);
    }
}

proof fn lemma_power_unready<E>(s: SessionView, vals: Seq<u8>)
    requires
        s.wf(),
        !s.is_over(),
        s.plan[s.index as int] is AwaitPowerUp,
        s.phase is Fetch,
        vals.len() >= 1,
        s.attempt + vals.len() == POWER_UP_ATTEMPTS,
        forall|i: int| 0 <= i < vals.len() ==> !bit_of(#[trigger] vals[i], PuCtrlBits::PUR.spec_get()),
    ensures
        run(s, polled::<E>(vals) + seq![Event::Ack]).0.is_over(),
        run(s, polled::<E>(vals) + seq![Event::Ack]).1 == power_waits::<E>(
            s.attempt as nat,
            (vals.len() - 1) as nat,
        ) + seq![
            Action::Perform(Request::DelayUs { us: (5 * (s.attempt + vals.len() - 1)) as u32 }),
            Action::Failed(Error::PowerupFailed),
        ],
    decreases vals.len(),
{
    lemma_polled_cons::<E>(vals);
    let v0 = vals[0];
    assert(!bit_of(vals[0], PuCtrlBits::PUR.spec_get()));
    let (s1, a1) = s.next(Event::<E>::Value(v0));
    if vals.len() == 1 {
        let evs = seq![Event::<E>::Value(v0)] + seq![Event::Ack];
        lemma_run_cons(s, Event::<E>::Value(v0), seq![Event::Ack]);
        lemma_run_cons(s1, Event::<E>::Ack, Seq::empty());
        assert(seq![Event::<E>::Ack] + Seq::empty() =~= seq![Event::<E>::Ack]);
        let (s2, a2) = s1.next(Event::<E>::Ack);
        assert(run(s2, Seq::<Event<E>>::empty()).1 =~= Seq::empty());
        assert(power_waits::<E>(s.attempt as nat, 0) =~= Seq::empty());
        assert(run(s, evs).1 =~= power_waits::<E>(s.attempt as nat, 0) + seq![a1, a2]);
    } else {
        let rest = vals.drop_first();
        let tail = polled::<E>(rest) + seq![Event::Ack];
        assert(polled::<E>(vals) + seq![Event::Ack] =~= seq![Event::<E>::Value(v0)] + (seq![
            Event::<E>::Ack,
        ] + tail));
        lemma_run_cons(s, Event::<E>::Value(v0), seq![Event::<E>::Ack] + tail);
        lemma_run_cons(s1, Event::<E>::Ack, tail);
        let (s2, a2) = s1.next(Event::<E>::Ack);
        assert forall|i: int| 0 <= i < rest.len() implies !bit_of(
            #[trigger] rest[i],
            PuCtrlBits::PUR.spec_get(),
        ) by {
            assert(rest[i] == vals[i + 1]);
        }
        lemma_power_unready::<E>(s2, rest);
        assert(run(s, polled::<E>(vals) + seq![Event::Ack]).1 =~= seq![a1, a2] + run(s2, tail).1);
        assert(power_waits::<E>(s.attempt as nat, (vals.len() - 1) as nat) =~= seq![a1, a2]
            + power_waits::<E>(s2.attempt as nat, (rest.len() - 1) as nat));
    }
}

/// A power-up poll that never sees the ready bit gives up with
/// `PowerupFailed` after exactly `POWER_UP_ATTEMPTS` register reads: the
/// pending read, then four more, each after a wait that grows by 5 µs.
pub proof fn power_up_gives_up<E>(s: SessionView, vals: Seq<u8>)
    requires
        s.wf(),
        !s.is_over(),
        s.plan[s.index as int] is AwaitPowerUp,
        s.phase is Fetch,
        s.attempt == 0,
        vals.len() == POWER_UP_ATTEMPTS,
        forall|i: int| 0 <= i < vals.len() ==> !bit_of(#[trigger] vals[i], PuCtrlBits::PUR.spec_get()),
    ensures
        s.pending() == (Request::GetRegister { reg: Register::PuCtrl }),
        run(s, polled::<E>(vals) + seq![Event::Ack]).0.is_over(),
        run(s, polled::<E>(vals) + seq![Event::Ack]).1 == seq![
            Action::<E>::Perform(Request::DelayUs { us: 0 }),
            Action::Perform(Request::GetRegister { reg: Register::PuCtrl }),
            Action::Perform(Request::DelayUs { us: 5 }),
            Action::Perform(Request::GetRegister { reg: Register::PuCtrl }),
            Action::Perform(Request::DelayUs { us: 10 }),
            Action::Perform(Request::GetRegister { reg: Register::PuCtrl }),
            Action::Perform(Request::DelayUs { us: 15 }),
            Action::Perform(Request::GetRegister { reg: Register::PuCtrl }),
            Action::Perform(Request::DelayUs { us: 20 }),
            Action::Failed(Error::PowerupFailed),
        ],
{
    lemma_power_unready::<E>(s, vals);
    reveal_with_fuel(power_waits, 5);
    assert(power_waits::<E>(0, 4) + seq![
        Action::Perform(Request::DelayUs { us: 20 }),
        Action::Failed(Error::PowerupFailed),
    ] =~= seq![
        Action::<E>::Perform(Request::DelayUs { us: 0 }),
        Action::Perform(Request::GetRegister { reg: Register::PuCtrl }),
        Action::Perform(Request::DelayUs { us: 5 }),
        Action::Perform(Request::GetRegister { reg: Register::PuCtrl }),
        Action::Perform(Request::DelayUs { us: 10 }),
        Action::Perform(Request::GetRegister { reg: Register::PuCtrl }),
        Action::Perform(Request::DelayUs { us: 15 }),
        Action::Perform(Request::GetRegister { reg: Register::PuCtrl }),
        Action::Perform(Request::DelayUs { us: 20 }),
        Action::Failed(Error::PowerupFailed),
    ]);
}

proof fn lemma_read_unready<E>(s: SessionView, vals: Seq<u8>)
    requires
        s.wf(),
        !s.is_over(),
        s.plan[s.index as int] is AwaitConversion,
        s.phase is Fetch,
        vals.len() >= 1,
        s.attempt + vals.len() == READ_ATTEMPTS,
        forall|i: int| 0 <= i < vals.len() ==> !bit_of(#[trigger] vals[i], PuCtrlBits::CR.spec_get()),
    ensures
        run(s, polled::<E>(vals)).0.is_over(),
        run(s, polled::<E>(vals)).1 == read_waits::<E>((vals.len() - 1) as nat) + seq![
            Action::Failed(Error::ReadTimeout),
        ],
    decreases vals.len(),
{
    lemma_polled_cons::<E>(vals);
    let v0 = vals[0];
    assert(!bit_of(vals[0], PuCtrlBits::CR.spec_get()));
    let (s1, a1) = s.next(Event::<E>::Value(v0));
    if vals.len() == 1 {
        lemma_run_cons(s, Event::<E>::Value(v0), Seq::empty());
        assert(seq![Event::<E>::Value(v0)] + Seq::empty() =~= seq![Event::<E>::Value(v0)]);
        assert(run(s1, Seq::<Event<E>>::empty()).1 =~= Seq::empty());
        assert(read_waits::<E>(0) =~= Seq::empty());
        assert(run(s, polled::<E>(vals)).1 =~= read_waits::<E>(0) + seq![a1]);
    } else {
        let rest = vals.drop_first();
        let tail = polled::<E>(rest);
        assert(polled::<E>(vals) =~= seq![Event::<E>::Value(v0)] + (seq![Event::<E>::Ack] + tail));
        lemma_run_cons(s, Event::<E>::Value(v0), seq![Event::<E>::Ack] + tail);
        lemma_run_cons(s1, Event::<E>::Ack, tail);
        let (s2, a2) = s1.next(Event::<E>::Ack);
        assert forall|i: int| 0 <= i < rest.len() implies !bit_of(
            #[trigger] rest[i],
            PuCtrlBits::CR.spec_get(),
        ) by {
            assert(rest[i] == vals[i + 1]);
        }
        lemma_read_unready::<E>(s2, rest);
        assert(run(s, polled::<E>(vals)).1 =~= seq![a1, a2] + run(s2, tail).1);
        assert(read_waits::<E>((vals.len() - 1) as nat) =~= seq![a1, a2] + read_waits::<E>(
            (rest.len() - 1) as nat,
        ));
    }
}

proof fn lemma_read_ready<E>(s: SessionView, vals: Seq<u8>)
    requires
        s.wf(),
        s.index + 1 < s.plan.len(),
        s.plan[s.index as int] is AwaitConversion,
        s.phase is Fetch,
        vals.len() >= 1,
        s.attempt + vals.len() <= READ_ATTEMPTS,
        forall|i: int|
            0 <= i < vals.len() - 1 ==> !bit_of(#[trigger] vals[i], PuCtrlBits::CR.spec_get()),
        bit_of(vals[vals.len() - 1], PuCtrlBits::CR.spec_get()),
    ensures
        run(s, polled::<E>(vals)) == ({
            let (t, a) = s.advance::<E>(s.reading);
            (t, read_waits::<E>((vals.len() - 1) as nat) + seq![a])
        }),
    decreases vals.len(),
{
    lemma_polled_cons::<E>(vals);
    let v0 = vals[0];
    let (s1, a1) = s.next(Event::<E>::Value(v0));
    if vals.len() == 1 {
        lemma_run_cons(s, Event::<E>::Value(v0), Seq::empty());
        assert(seq![Event::<E>::Value(v0)] + Seq::empty() =~= seq![Event::<E>::Value(v0)]);
        assert(run(s1, Seq::<Event<E>>::empty()).1 =~= Seq::empty());
        assert(read_waits::<E>(0) =~= Seq::empty());
        assert(run(s, polled::<E>(vals)).1 =~= read_waits::<E>(0) + seq![a1]);
    } else {
        assert(!bit_of(vals[0], PuCtrlBits::CR.spec_get()));
        let rest = vals.drop_first();
        let tail = polled::<E>(rest);
        assert(polled::<E>(vals) =~= seq![Event::<E>::Value(v0)] + (seq![Event::<E>::Ack] + tail));
        lemma_run_cons(s, Event::<E>::Value(v0), seq![Event::<E>::Ack] + tail);
        lemma_run_cons(s1, Event::<E>::Ack, tail);
        let (s2, a2) = s1.next(Event::<E>::Ack);
        assert forall|i: int| 0 <= i < rest.len() - 1 implies !bit_of(
            #[trigger] rest[i],
            PuCtrlBits::CR.spec_get(),
        ) by {
            assert(rest[i] == vals[i + 1]);
        }
        assert(rest[rest.len() - 1] == vals[vals.len() - 1]);
        lemma_read_ready::<E>(s2, rest);
        assert(s2.advance::<E>(s2.reading) == s.advance::<E>(s.reading));
        assert(run(s, polled::<E>(vals)).1 =~= seq![a1, a2] + run(s2, tail).1);
        assert(read_waits::<E>((vals.len() - 1) as nat) =~= seq![a1, a2] + read_waits::<E>(
            (rest.len() - 1) as nat,
        ));
    }
}

/// A read whose conversion-ready bit never shows gives up with `ReadTimeout`
/// after exactly `READ_ATTEMPTS` polls, and never reads the result.
pub proof fn read_times_out<E>(vals: Seq<u8>)
    requires
        vals.len() == READ_ATTEMPTS,
        forall|i: int| 0 <= i < vals.len() ==> !bit_of(#[trigger] vals[i], PuCtrlBits::CR.spec_get()),
    ensures
        started(read_steps()).pending() == (Request::GetRegister { reg: Register::PuCtrl }),
        run(started(read_steps()), polled::<E>(vals)).0.is_over(),
        run(started(read_steps()), polled::<E>(vals)).1 == read_waits::<E>(4) + seq![
            Action::Failed(Error::ReadTimeout),
        ],
{
    let s = started(read_steps());
    assert(s.plan[0] == Step::AwaitConversion);
    assert(s.wf());
    lemma_read_unready::<E>(s, vals);
}

/// A read whose conversion-ready bit first shows on poll `k` (the length of
/// `vals`, at most `READ_ATTEMPTS`) polls exactly `k` times, then selects the
/// result register, performs one three-byte read, and returns its
/// sign-extended value.
pub proof fn read_ready_on_poll<E>(vals: Seq<u8>, b: [u8; 3])
    requires
        1 <= vals.len() <= READ_ATTEMPTS,
        forall|i: int|
            0 <= i < vals.len() - 1 ==> !bit_of(#[trigger] vals[i], PuCtrlBits::CR.spec_get()),
        bit_of(vals[vals.len() - 1], PuCtrlBits::CR.spec_get()),
    ensures
        started(read_steps()).pending() == (Request::GetRegister { reg: Register::PuCtrl }),
        run(started(read_steps()), polled::<E>(vals) + seq![Event::Ack, Event::Data(b)]).0.is_over(),
        run(started(read_steps()), polled::<E>(vals) + seq![Event::Ack, Event::Data(b)]).1
            == read_waits::<E>((vals.len() - 1) as nat) + seq![
            Action::Perform(Request::RequestRegister { reg: Register::AdcoB2 }),
            Action::Perform(Request::ReadData),
            Action::Finished { reading: Some(i24_of(b@) as i32) },
        ],
{
    let s = started(read_steps());
    assert(s.plan[0] == Step::AwaitConversion);
    assert(s.plan[1] == Step::FetchConversion);
    assert(s.wf());
    lemma_read_ready::<E>(s, vals);
    let (t, a) = s.advance::<E>(s.reading);
    lemma_run_append(s, polled::<E>(vals), seq![Event::<E>::Ack, Event::Data(b)]);
    lemma_run_cons(t, Event::<E>::Ack, seq![Event::Data(b)]);
    let (t1, a1) = t.next(Event::<E>::Ack);
    lemma_run_cons(t1, Event::<E>::Data(b), Seq::empty());
    assert(seq![Event::<E>::Data(b)] + Seq::empty() =~= seq![Event::<E>::Data(b)]);
    assert(seq![Event::<E>::Ack] + seq![Event::<E>::Data(b)] =~= seq![Event::<E>::Ack, Event::Data(b)]);
    let (t2, a2) = t1.next(Event::<E>::Data(b));
    assert(run(t2, Seq::<Event<E>>::empty()).1 =~= Seq::empty());
    assert(run(t, seq![Event::<E>::Ack, Event::Data(b)]).1 =~= seq![a1, a2]);
    assert(read_waits::<E>((vals.len() - 1) as nat) + seq![a] + seq![a1, a2] =~= read_waits::<E>(
        (vals.len() - 1) as nat,
    ) + seq![a, a1, a2]);
}

/// A calibration poll that finds the start bit cleared reads the error bit
/// next: it fails with `CalibrationFailure` when that bit is set, and
/// otherwise completes the calibration step.
pub proof fn calibration_outcome<E>(s: SessionView, v1: u8, v2: u8)
    requires
        s.wf(),
        !s.is_over(),
        s.plan[s.index as int] is AwaitCalibration,
        s.phase is Fetch,
        !bit_of(v1, Ctrl2RegisterBits::Cals.spec_get()),
    ensures
        s.next(Event::<E>::Value(v1)).1 == Action::<E>::Perform(
            Request::GetRegister { reg: Register::Ctrl2 },
        ),
        bit_of(v2, Ctrl2RegisterBits::CalError.spec_get()) ==> s.next(Event::<E>::Value(v1)).0.next(
            Event::<E>::Value(v2),
        ).1 == Action::<E>::Failed(Error::CalibrationFailure),
        bit_of(v2, Ctrl2RegisterBits::CalError.spec_get()) ==> s.next(Event::<E>::Value(v1)).0.next(
            Event::<E>::Value(v2),
        ).0.is_over(),
        !bit_of(v2, Ctrl2RegisterBits::CalError.spec_get()) ==> s.next(Event::<E>::Value(v1)).0.next(
            Event::<E>::Value(v2),
        ).1 == s.advance::<E>(s.reading).1,
{
}

/// A bit step writes back the register value it read with only its own bit
/// changed: a later read of that bit finds it set (or cleared), and every
/// other bit reads as it did before.
pub proof fn bit_step_changes_only_its_bit<E>(s: SessionView, v: u8, other: u8)
    requires
        s.wf(),
        !s.is_over(),
        s.phase is Fetch,
        other < 8,
    ensures
        s.plan[s.index as int] matches Step::SetBit { reg, bit } ==> {
            &&& s.next(Event::<E>::Value(v)).1 == Action::<E>::Perform(
                Request::SetRegister { reg, value: bit_set(v, bit) },
            )
            &&& bit_of(bit_set(v, bit), bit)
            &&& other != bit ==> bit_of(bit_set(v, bit), other) == bit_of(v, other)
        },
        s.plan[s.index as int] matches Step::ClearBit { reg, bit } ==> {
            &&& s.next(Event::<E>::Value(v)).1 == Action::<E>::Perform(
                Request::SetRegister { reg, value: bit_cleared(v, bit) },
            )
            &&& !bit_of(bit_cleared(v, bit), bit)
            &&& other != bit ==> bit_of(bit_cleared(v, bit), other) == bit_of(v, other)
        },
{
    match s.plan[s.index as int] {
        Step::SetBit { bit, .. } => {
            bit_reads_back(v, bit);
            if other != bit {
                other_bits_unaffected(v, other, bit);
            }
        },
        Step::ClearBit { bit, .. } => {
            bit_reads_back(v, bit);
            if other != bit {
                other_bits_unaffected(v, other, bit);
            }
        },
        _ => {},
    }
}

/// Replies of a device that answers each request of a step as asked, where
/// every register read returns `v`.
pub open spec fn prompt_replies<E>(s: Step, v: u8) -> Seq<Event<E>> {
    match s {
        Step::WriteRegister { .. } => seq![Event::Ack],
        Step::DelayMs { .. } => seq![Event::Ack],
        Step::DelayUs { .. } => seq![Event::Ack],
        Step::AwaitPowerUp => seq![Event::Value(v)],
        Step::AwaitConversion => seq![Event::Value(v)],
        Step::AwaitCalibration => seq![Event::Value(v), Event::Value(v)],
        Step::FetchConversion => seq![Event::Ack],
        _ => seq![Event::Value(v), Event::Ack],
    }
}

/// A register value on which a step goes on at once: a poll sees its ready
/// bit, calibration sees neither its start bit nor its error bit.
pub open spec fn favourable(s: Step, v: u8) -> bool {
    match s {
        Step::AwaitPowerUp => bit_of(v, PuCtrlBits::PUR.spec_get()),
        Step::AwaitConversion => bit_of(v, PuCtrlBits::CR.spec_get()),
        Step::AwaitCalibration => !bit_of(v, Ctrl2RegisterBits::Cals.spec_get()) && !bit_of(
            v,
            Ctrl2RegisterBits::CalError.spec_get(),
        ),
        Step::FetchConversion => false,
        _ => true,
    }
}

/// The prompt replies to the steps of `plan` from `i` on, the read values taken from `vs`.
pub open spec fn prompt_replies_from<E>(plan: Seq<Step>, vs: Seq<u8>, i: nat) -> Seq<Event<E>>
    decreases plan.len() - i,
{
    if i >= plan.len() {
        Seq::empty()
    } else {
        prompt_replies::<E>(plan[i as int], vs[i as int]) + prompt_replies_from(plan, vs, i + 1)
    }
}

/// The session is at the start of its current step.
pub open spec fn at_step_start(s: SessionView) -> bool {
    s.index < s.plan.len() ==> s.phase == entry(s.plan[s.index as int]) && s.attempt == 0
}

proof fn lemma_prompt_step<E>(s: SessionView, v: u8)
    requires
        s.wf(),
        !s.is_over(),
        at_step_start(s),
        favourable(s.plan[s.index as int], v),
    ensures
        ({
            let (t, acts) = run(s, prompt_replies::<E>(s.plan[s.index as int], v));
            &&& t.wf()
            &&& at_step_start(t)
            &&& t.plan == s.plan
            &&& t.index == s.index + 1
            &&& t.reading == s.reading
            &&& acts.len() >= 1
            &&& acts.last() == s.advance::<E>(s.reading).1
            &&& forall|k: int| 0 <= k < acts.len() - 1 ==> (#[trigger] acts[k]) is Perform
        }),
{
    let st = s.plan[s.index as int];
    let evs = prompt_replies::<E>(st, v);
    if evs.len() == 1 {
        lemma_run_cons(s, evs[0], Seq::empty());
        assert(evs =~= seq![evs[0]] + Seq::empty());
        let (s1, a1) = s.next(evs[0]);
        assert(run(s1, Seq::<Event<E>>::empty()).1 =~= Seq::empty());
        assert(run(s, evs).1 =~= seq![a1]);
    } else {
        assert(evs.len() == 2);
        assert(evs =~= seq![evs[0]] + seq![evs[1]]);
        assert(seq![evs[1]] =~= seq![evs[1]] + Seq::empty());
        lemma_run_cons(s, evs[0], seq![evs[1]]);
        let (s1, a1) = s.next(evs[0]);
        lemma_run_cons(s1, evs[1], Seq::empty());
        let (s2, a2) = s1.next(evs[1]);
        assert(run(s2, Seq::<Event<E>>::empty()).1 =~= Seq::empty());
        assert(run(s, evs).1 =~= seq![a1, a2]);
    }
}

proof fn lemma_prompt_plan<E>(s: SessionView, vs: Seq<u8>)
    requires
        s.wf(),
        at_step_start(s),
        vs.len() == s.plan.len(),
        forall|j: int| s.index <= j < s.plan.len() ==> favourable(s.plan[j], #[trigger] vs[j]),
    ensures
        ({
            let (t, acts) = run(s, prompt_replies_from::<E>(s.plan, vs, s.index));
            &&& t.is_over()
            &&& !s.is_over() ==> acts.len() >= 1 && acts.last() == Action::<E>::Finished {
                reading: s.reading,
            }
            &&& forall|k: int| 0 <= k < acts.len() - 1 ==> (#[trigger] acts[k]) is Perform
        }),
    decreases s.plan.len() - s.index,
{
    if s.index >= s.plan.len() {
        assert(run(s, Seq::<Event<E>>::empty()).1 =~= Seq::empty());
    } else {
        let x = prompt_replies::<E>(s.plan[s.index as int], vs[s.index as int]);
        let y = prompt_replies_from::<E>(s.plan, vs, s.index + 1);
        lemma_run_append(s, x, y);
        lemma_prompt_step::<E>(s, vs[s.index as int]);
        let (t, a1) = run(s, x);
        lemma_prompt_plan::<E>(t, vs);
        let (u, a2) = run(t, y);
        if t.is_over() {
            assert(y =~= Seq::empty());
            assert(a2 =~= Seq::empty());
            assert(a1 + a2 =~= a1);
        } else {
            assert((a1 + a2).last() == a2.last());
            assert forall|k: int| 0 <= k < (a1 + a2).len() - 1 implies (#[trigger] (a1 + a2)[k]) is Perform by {
                if k < a1.len() - 1 {
                } else if k == a1.len() - 1 {
                    assert(a1[k] == s.advance::<E>(s.reading).1);
                } else {
                    assert((a1 + a2)[k] == a2[k - a1.len()]);
                }
            }
        }
    }
}

/// Bring-up with the default settings, against a device that answers each
/// request as asked and reports power-up at the first poll and calibration
/// done without error, finishes without a failure: every action but the last
/// asks for more work, and the last one is `Finished`.
pub proof fn default_bring_up_succeeds<E>(vs: Seq<u8>)
    requires
        vs.len() == bring_up_steps(Ldo::L3v3, Gain::G128, SamplesPerSecond::SPS10).len(),
        forall|j: int|
            0 <= j < vs.len() ==> favourable(
                bring_up_steps(Ldo::L3v3, Gain::G128, SamplesPerSecond::SPS10)[j],
                #[trigger] vs[j],
            ),
    ensures
        ({
            let plan = bring_up_steps(Ldo::L3v3, Gain::G128, SamplesPerSecond::SPS10);
            let (t, acts) = run(started(plan), prompt_replies_from::<E>(plan, vs, 0));
            &&& t.is_over()
            &&& acts.len() >= 1
            &&& acts.last() == Action::<E>::Finished { reading: None }
            &&& forall|k: int| 0 <= k < acts.len() - 1 ==> (#[trigger] acts[k]) is Perform
        }),
{
    let plan = bring_up_steps(Ldo::L3v3, Gain::G128, SamplesPerSecond::SPS10);
    let s = started(plan);
    assert(plan.len() == 15);
    assert forall|i: int| 0 <= i < plan.len() implies step_wf(#[trigger] plan[i]) by {
        assert(plan[i] == bring_up_steps(Ldo::L3v3, Gain::G128, SamplesPerSecond::SPS10)[i]);
    }
    assert(s.wf());
    lemma_prompt_plan::<E>(s, vs);
}

} // verus!
