//! Register codec and protocol logic for the Texas Instruments INA233
//! power monitor.
//!
//! Everything in this crate is pure: it turns bus replies into typed
//! registers, typed registers into bus frames, and decides which bus
//! transaction comes next. Performing the transactions is left to the caller,
//! who owns the bus: [`Construction`] names one transaction at a time and is
//! handed its outcome, and [`Ina233`] turns the replies of the measurement
//! registers into physical quantities.

use crate::error::Error;
use crate::registers::{
    lemma_read_addresses, read_register, write_register, MfrCalibration, MfrId, MfrModel,
    MfrRevision, ReadIin, ReadVin, ReadableRegister, RestoreDefaultAll, TiMfrId, TiMfrModel,
    TiMfrRevision, MFR_CALIBRATION, MFR_ID, MFR_MODEL, MFR_REVISION, RESTORE_DEFAULT_ALL,
    TI_MFR_ID, TI_MFR_MODEL, TI_MFR_REVISION,
};
use crate::text::{lemma_spelled_ascii, spelled, spells};
use crate::units::{
    calibration_for, clip_i64, current_lsb_for, current_lsb_of, Current, Potential, Resistance,
    BUS_VOLTAGE_LSB,
};
use vstd::prelude::*;
use vstd::std_specs::convert::FromSpec;

pub mod bits;
pub mod error;
pub mod registers;
pub mod text;
pub mod units;

verus! {

/// The length of the reply buffer handed to [`Construction::advance`]: that of
/// the longest reply read during construction.
pub const REPLY_CAPACITY: usize = 7;

/// One bus transaction with the device.
#[derive(Debug, Clone, Copy, PartialEq, Eq)]
pub enum Transaction {
    /// Write the command byte, then read `length` bytes back.
    Read { command: u8, length: usize },
    /// Write the frame of a command that carries no payload.
    Command([u8; 1]),
    /// Write the frame of a command followed by its 16-bit payload.
    Store([u8; 3]),
}

impl Transaction {
    /// The transaction that reads register `R`: its command byte is written,
    /// and as many bytes as the register is long are read back.
    pub fn read<R: ReadableRegister<L>, const L: usize>() -> (r: Transaction)
        ensures
            r == (Transaction::Read { command: R::ADDRESS, length: L }),
    {
        Transaction::Read { command: R::ADDRESS, length: L }
    }
}

/// The transaction whose outcome a construction waits for.
#[derive(Debug, Clone, Copy, PartialEq, Eq)]
pub enum Stage {
    /// The read of the manufacturer's name.
    MfrId,
    /// The read of the model name.
    MfrModel,
    /// The read of the device revision.
    MfrRevision,
    /// The read of the vendor's copy of the manufacturer's name.
    TiMfrId,
    /// The read of the vendor's copy of the model name.
    TiMfrModel,
    /// The read of the vendor's copy of the device revision.
    TiMfrRevision,
    /// The write that resets the device.
    RestoreDefaultAll,
    /// The write of the calibration register.
    MfrCalibration,
}

/// What a construction has settled so far.
#[derive(Debug, Clone, Copy, PartialEq, Eq)]
pub struct State {
    /// The transaction awaited.
    pub stage: Stage,
    /// Whether every identity register read so far held the expected text.
    pub verified: bool,
    /// The calibration register that will be written.
    pub calibration: MfrCalibration,
    /// The current LSB that the calibration was computed for.
    pub current_lsb: Current,
}

/// Where a construction stands after one more outcome.
#[derive(Debug, PartialEq, Eq)]
pub enum Step<E> {
    /// Another transaction is due.
    Continue(State),
    /// The device is set up; the driver converts currents with this LSB.
    Ready(Current),
    /// Construction has failed, and no driver comes of it.
    Failed(Error<E>),
}

/// The state in which a construction begins.
///
/// The current LSB is one 32768th of the maximum expected current, and the
/// calibration is computed from it and the shunt resistance. With `verify`
/// the identity registers are read first; without it the reset comes first.
pub open spec fn initial(
    shunt_resistance: Resistance,
    maximum_current: Current,
    verify: bool,
) -> State {
    let lsb = current_lsb_for(maximum_current.picoamperes as int);
    State {
        stage: if verify {
            Stage::MfrId
        } else {
            Stage::RestoreDefaultAll
        },
        verified: true,
        calibration: MfrCalibration {
            value: calibration_for(lsb, shunt_resistance.nanoohms as int) as u16,
        },
        current_lsb: Current { picoamperes: lsb as i64 },
    }
}

/// The transaction that is due in `state`.
pub open spec fn pending(state: State) -> Transaction {
    match state.stage {
        Stage::MfrId => Transaction::Read { command: MFR_ID, length: 3 },
        Stage::MfrModel => Transaction::Read { command: MFR_MODEL, length: 7 },
        Stage::MfrRevision => Transaction::Read { command: MFR_REVISION, length: 3 },
        Stage::TiMfrId => Transaction::Read { command: TI_MFR_ID, length: 2 },
        Stage::TiMfrModel => Transaction::Read { command: TI_MFR_MODEL, length: 2 },
        Stage::TiMfrRevision => Transaction::Read { command: TI_MFR_REVISION, length: 2 },
        Stage::RestoreDefaultAll => Transaction::Command([RESTORE_DEFAULT_ALL]),
        Stage::MfrCalibration => Transaction::Store(
            [
                MFR_CALIBRATION,
                (state.calibration.value % 256) as u8,
                (state.calibration.value / 256) as u8,
            ],
        ),
    }
}

/// Whether the reply to the identity register read at `stage` holds the text
/// expected of an INA233. Only as many bytes of `reply` count as the register
/// is long. The stages that write expect nothing.
pub open spec fn identity_matches(stage: Stage, reply: [u8; 7]) -> bool {
    match stage {
        Stage::MfrId => spelled(MfrId::from_spec([reply[0], reply[1], reply[2]]).id@, "TI"@),
        Stage::MfrModel => spelled(MfrModel::from_spec(reply).model@, "INA233"@),
        Stage::MfrRevision => spelled(
            MfrRevision::from_spec([reply[0], reply[1], reply[2]]).revision@,
            "A1"@,
        ),
        Stage::TiMfrId => spelled(TiMfrId::from_spec([reply[0], reply[1]]).id@, "TI"@),
        Stage::TiMfrModel => spelled(TiMfrModel::from_spec([reply[0], reply[1]]).model@, "33"@),
        Stage::TiMfrRevision => spelled(
            TiMfrRevision::from_spec([reply[0], reply[1]]).revision@,
            "A1"@,
        ),
        Stage::RestoreDefaultAll => true,
        Stage::MfrCalibration => true,
    }
}

/// Where a construction in `state` stands after the outcome of its pending
/// transaction.
///
/// A bus error ends it at once. All six identity registers are read before
/// their texts decide: a mismatch fails the construction after the sixth,
/// before anything is written. The reset and the calibration follow, and
/// after the calibration the driver is ready.
pub open spec fn step<E>(state: State, outcome: Result<[u8; 7], E>) -> Step<E> {
    match outcome {
        Err(error) => Step::Failed(Error::Communication(error)),
        Ok(reply) => {
            let verified = state.verified && identity_matches(state.stage, reply);
            match state.stage {
                Stage::MfrId => Step::Continue(State { stage: Stage::MfrModel, verified, ..state }),
                Stage::MfrModel => Step::Continue(
                    State { stage: Stage::MfrRevision, verified, ..state },
                ),
                Stage::MfrRevision => Step::Continue(
                    State { stage: Stage::TiMfrId, verified, ..state },
                ),
                Stage::TiMfrId => Step::Continue(
                    State { stage: Stage::TiMfrModel, verified, ..state },
                ),
                Stage::TiMfrModel => Step::Continue(
                    State { stage: Stage::TiMfrRevision, verified, ..state },
                ),
                Stage::TiMfrRevision => if verified {
                    Step::Continue(State { stage: Stage::RestoreDefaultAll, verified, ..state })
                } else {
                    Step::Failed(Error::Verification)
                },
                Stage::RestoreDefaultAll => Step::Continue(
                    State { stage: Stage::MfrCalibration, verified, ..state },
                ),
                Stage::MfrCalibration => Step::Ready(state.current_lsb),
            }
        },
    }
}

/// The bytes of the texts expected. A reply matches exactly when it holds
/// them where its register has its text: after the byte count in the first
/// three registers, and last byte first in the vendor's three.
pub proof fn lemma_identity_bytes(reply: [u8; 7])
    ensures
        identity_matches(Stage::MfrId, reply) <==> reply[1] == 0x54 && reply[2] == 0x49,
        identity_matches(Stage::MfrModel, reply) <==> reply[1] == 0x49 && reply[2] == 0x4E
            && reply[3] == 0x41 && reply[4] == 0x32 && reply[5] == 0x33 && reply[6] == 0x33,
        identity_matches(Stage::MfrRevision, reply) <==> reply[1] == 0x41 && reply[2] == 0x31,
        identity_matches(Stage::TiMfrId, reply) <==> reply[1] == 0x54 && reply[0] == 0x49,
        identity_matches(Stage::TiMfrModel, reply) <==> reply[1] == 0x33 && reply[0] == 0x33,
        identity_matches(Stage::TiMfrRevision, reply) <==> reply[1] == 0x41 && reply[0] == 0x31,
{
    reveal_strlit("TI");
    reveal_strlit("INA233");
    reveal_strlit("A1");
    reveal_strlit("33");
    lemma_spelled_ascii(MfrId::from_spec([reply[0], reply[1], reply[2]]).id@, "TI"@);
    lemma_spelled_ascii(MfrModel::from_spec(reply).model@, "INA233"@);
    lemma_spelled_ascii(MfrRevision::from_spec([reply[0], reply[1], reply[2]]).revision@, "A1"@);
    lemma_spelled_ascii(TiMfrId::from_spec([reply[0], reply[1]]).id@, "TI"@);
    lemma_spelled_ascii(TiMfrModel::from_spec([reply[0], reply[1]]).model@, "33"@);
    lemma_spelled_ascii(TiMfrRevision::from_spec([reply[0], reply[1]]).revision@, "A1"@);
}

/// The transactions performed when the outcomes are handed, in turn, to a
/// construction in `state`. Outcomes left over once the construction has
/// ended belong to no transaction.
pub open spec fn transcript<E>(state: State, outcomes: Seq<Result<[u8; 7], E>>) -> Seq<
    Transaction,
>
    decreases outcomes.len(),
{
    if outcomes.len() == 0 {
        Seq::empty()
    } else {
        let rest = match step(state, outcomes[0]) {
            Step::Continue(next) => transcript(next, outcomes.drop_first()),
            _ => Seq::empty(),
        };
        seq![pending(state)] + rest
    }
}

/// Where a construction in `state` stands once the outcomes have been handed
/// to it in turn.
pub open spec fn conclusion<E>(state: State, outcomes: Seq<Result<[u8; 7], E>>) -> Step<E>
    decreases outcomes.len(),
{
    if outcomes.len() == 0 {
        Step::Continue(state)
    } else {
        match step(state, outcomes[0]) {
            Step::Continue(next) => conclusion(next, outcomes.drop_first()),
            done => done,
        }
    }
}

/// The identity register read in the `index`-th place.
pub open spec fn identity_stage(index: int) -> Stage {
    if index == 0 {
        Stage::MfrId
    } else if index == 1 {
        Stage::MfrModel
    } else if index == 2 {
        Stage::MfrRevision
    } else if index == 3 {
        Stage::TiMfrId
    } else if index == 4 {
        Stage::TiMfrModel
    } else {
        Stage::TiMfrRevision
    }
}

/// The six reads that verify the identity of the device.
pub open spec fn identity_reads() -> Seq<Transaction> {
    seq![
        Transaction::Read { command: 0x99, length: 3 },
        Transaction::Read { command: 0x9A, length: 7 },
        Transaction::Read { command: 0x9B, length: 3 },
        Transaction::Read { command: 0xE0, length: 2 },
        Transaction::Read { command: 0xE1, length: 2 },
        Transaction::Read { command: 0xE2, length: 2 },
    ]
}

/// A construction that fails for the identity of the device has written
/// nothing to it: whatever the state it started in and whatever the outcomes,
/// every transaction up to a verification error is a read.
pub proof fn lemma_verification_failure_follows_reads_only<E>(
    state: State,
    outcomes: Seq<Result<[u8; 7], E>>,
)
    requires
        conclusion(state, outcomes) == Step::<E>::Failed(Error::Verification),
    ensures
        forall|i: int|
            0 <= i < transcript(state, outcomes).len() ==> transcript(state, outcomes)[i] is Read,
    decreases outcomes.len(),
{
    if outcomes.len() > 0 {
        match step(state, outcomes[0]) {
            Step::Continue(next) => {
                lemma_verification_failure_follows_reads_only(next, outcomes.drop_first());
            },
            _ => {},
        }
    }
}

/// With verification on, six replies of which any one does not hold the text
/// expected end the construction in a verification error, after the six
/// identity reads and nothing else: neither the reset nor the calibration is
/// written.
pub proof fn lemma_mismatch_fails_verification<E>(
    shunt_resistance: Resistance,
    maximum_current: Current,
    outcomes: Seq<Result<[u8; 7], E>>,
)
    requires
        outcomes.len() == 6,
        forall|i: int| 0 <= i < 6 ==> outcomes[i] is Ok,
        exists|i: int| 0 <= i < 6 && !identity_matches(identity_stage(i), outcomes[i]->Ok_0),
    ensures
        conclusion(initial(shunt_resistance, maximum_current, true), outcomes) == Step::<
            E,
        >::Failed(Error::Verification),
        transcript(initial(shunt_resistance, maximum_current, true), outcomes)
            == identity_reads(),
{
    let start = initial(shunt_resistance, maximum_current, true);
    lemma_unfold(start, outcomes);
    let s1 = step(start, outcomes[0])->Continue_0;
    let o1 = outcomes.drop_first();
    lemma_unfold(s1, o1);
    let s2 = step(s1, o1[0])->Continue_0;
    let o2 = o1.drop_first();
    lemma_unfold(s2, o2);
    let s3 = step(s2, o2[0])->Continue_0;
    let o3 = o2.drop_first();
    lemma_unfold(s3, o3);
    let s4 = step(s3, o3[0])->Continue_0;
    let o4 = o3.drop_first();
    lemma_unfold(s4, o4);
    let s5 = step(s4, o4[0])->Continue_0;
    let o5 = o4.drop_first();
    lemma_unfold(s5, o5);
    assert(transcript(start, outcomes) =~= identity_reads());
}

/// With verification on, six replies that hold the texts expected and two
/// writes that succeed make the driver ready, after the six identity reads,
/// the reset and the calibration, in this order.
pub proof fn lemma_identified_device_is_set_up<E>(
    shunt_resistance: Resistance,
    maximum_current: Current,
    outcomes: Seq<Result<[u8; 7], E>>,
)
    requires
        outcomes.len() == 8,
        forall|i: int| 0 <= i < 8 ==> outcomes[i] is Ok,
        forall|i: int| 0 <= i < 6 ==> identity_matches(identity_stage(i), outcomes[i]->Ok_0),
    ensures
        conclusion(initial(shunt_resistance, maximum_current, true), outcomes) == Step::<E>::Ready(
            initial(shunt_resistance, maximum_current, true).current_lsb,
        ),
        transcript(initial(shunt_resistance, maximum_current, true), outcomes) == identity_reads()
            + seq![
            Transaction::Command([0x12u8]),
            pending(
                State {
                    stage: Stage::MfrCalibration,
                    ..initial(shunt_resistance, maximum_current, true)
                },
            ),
        ],
{
    let start = initial(shunt_resistance, maximum_current, true);
    let o1 = outcomes.drop_first();
    let o2 = o1.drop_first();
    let o3 = o2.drop_first();
    let o4 = o3.drop_first();
    let o5 = o4.drop_first();
    let o6 = o5.drop_first();
    let o7 = o6.drop_first();
    assert(o1[0] == outcomes[1] && o2[0] == outcomes[2] && o3[0] == outcomes[3] && o4[0]
        == outcomes[4] && o5[0] == outcomes[5] && o6[0] == outcomes[6] && o7[0] == outcomes[7]);
    let s1 = step(start, outcomes[0])->Continue_0;
    let s2 = step(s1, o1[0])->Continue_0;
    let s3 = step(s2, o2[0])->Continue_0;
    let s4 = step(s3, o3[0])->Continue_0;
    let s5 = step(s4, o4[0])->Continue_0;
    assert(identity_matches(identity_stage(0), outcomes[0]->Ok_0));
    assert(identity_matches(identity_stage(1), outcomes[1]->Ok_0));
    assert(identity_matches(identity_stage(2), outcomes[2]->Ok_0));
    assert(identity_matches(identity_stage(3), outcomes[3]->Ok_0));
    assert(identity_matches(identity_stage(4), outcomes[4]->Ok_0));
    assert(identity_matches(identity_stage(5), outcomes[5]->Ok_0));
    assert(s5.verified && s5.stage == Stage::TiMfrRevision);
    let s6 = step(s5, o5[0])->Continue_0;
    assert(s6 == State { stage: Stage::RestoreDefaultAll, ..start });
    let s7 = step(s6, o6[0])->Continue_0;
    assert(s7 == State { stage: Stage::MfrCalibration, ..start });
    lemma_unfold(s7, o7);
    lemma_unfold(s6, o6);
    lemma_unfold(s5, o5);
    lemma_unfold(s4, o4);
    lemma_unfold(s3, o3);
    lemma_unfold(s2, o2);
    lemma_unfold(s1, o1);
    lemma_unfold(start, outcomes);
    assert(transcript(s7, o7) =~= seq![pending(s7)]);
    assert(transcript(s6, o6) =~= seq![Transaction::Command([0x12u8]), pending(s7)]);
    assert(transcript(start, outcomes) =~= identity_reads() + seq![
        Transaction::Command([0x12u8]),
        pending(State { stage: Stage::MfrCalibration, ..start }),
    ]);
}

/// The driver that comes of a construction converts currents with the LSB
/// that the construction began with, whatever the outcomes on the way.
pub proof fn lemma_driver_keeps_current_lsb<E>(state: State, outcomes: Seq<Result<[u8; 7], E>>)
    requires
        conclusion(state, outcomes) is Ready,
    ensures
        conclusion(state, outcomes)->Ready_0 == state.current_lsb,
    decreases outcomes.len(),
{
    if outcomes.len() > 0 {
        match step(state, outcomes[0]) {
            Step::Continue(next) => {
                lemma_driver_keeps_current_lsb(next, outcomes.drop_first());
            },
            _ => {},
        }
    }
}

/// The current LSB that a construction settles on is at most a 32768th of
/// what a `Current` holds, so the current of a count is the exact product of
/// count and LSB, with nothing clipped. In particular a count of minus one
/// reads as the LSB with its sign turned. The one product that does not fit
/// is that of the most negative count with the LSB of the most negative
/// maximum current.
pub proof fn lemma_driver_current_is_exact(
    shunt_resistance: Resistance,
    maximum_current: Current,
    verify: bool,
    raw: i16,
)
    requires
        raw > i16::MIN || maximum_current.picoamperes > i64::MIN,
    ensures
        ({
            let lsb = initial(shunt_resistance, maximum_current, verify).current_lsb.picoamperes;
            &&& lsb == current_lsb_for(maximum_current.picoamperes as int)
            &&& -0x1_0000_0000_0000 <= lsb < 0x1_0000_0000_0000
            &&& clip_i64(raw * lsb) == raw * lsb
            &&& raw == -1 ==> clip_i64(raw * lsb) == -lsb
        }),
{
    let lsb = initial(shunt_resistance, maximum_current, verify).current_lsb.picoamperes;
    assert(lsb == current_lsb_for(maximum_current.picoamperes as int));
    assert(maximum_current.picoamperes > i64::MIN ==> lsb > -0x1_0000_0000_0000);
    assert(i64::MIN <= raw * lsb <= i64::MAX) by (nonlinear_arith)
        requires
            -0x8000 <= raw < 0x8000,
            -0x1_0000_0000_0000 <= lsb < 0x1_0000_0000_0000,
            raw > -0x8000 || lsb > -0x1_0000_0000_0000,
    ;
    assert(raw == -1 ==> raw * lsb == -lsb) by (nonlinear_arith);
}

/// One step of `transcript` and `conclusion`.
proof fn lemma_unfold<E>(state: State, outcomes: Seq<Result<[u8; 7], E>>)
    requires
        outcomes.len() > 0,
    ensures
        transcript(state, outcomes) == seq![pending(state)] + match step(state, outcomes[0]) {
            Step::Continue(next) => transcript(next, outcomes.drop_first()),
            _ => Seq::empty(),
        },
        conclusion(state, outcomes) == match step(state, outcomes[0]) {
            Step::Continue(next) => conclusion(next, outcomes.drop_first()),
            done => done,
        },
{
}

/// A driver under construction: the device is being identified, reset and
/// calibrated, one transaction at a time.
#[derive(Debug)]
pub struct Construction {
    state: State,
}

impl View for Construction {
    type V = State;

    closed spec fn view(&self) -> State {
        self.state
    }
}

/// What became of a construction after one more outcome.
#[derive(Debug)]
pub enum Progress<E> {
    /// Another transaction is due.
    Continue(Construction),
    /// The device is set up.
    Ready(Ina233),
    /// Construction has failed.
    Failed(Error<E>),
}

impl<E> View for Progress<E> {
    type V = Step<E>;

    open spec fn view(&self) -> Step<E> {
        match *self {
            Progress::Continue(construction) => Step::Continue(construction@),
            Progress::Ready(driver) => Step::Ready(driver@),
            Progress::Failed(error) => Step::Failed(error),
        }
    }
}

impl Construction {
    /// The transaction to perform next.
    pub fn pending(&self) -> (r: Transaction)
        ensures
            r == pending(self@),
    {
        proof {
            lemma_read_addresses();
        }
        match self.state.stage {
            Stage::MfrId => Transaction::read::<MfrId, 3>(),
            Stage::MfrModel => Transaction::read::<MfrModel, 7>(),
            Stage::MfrRevision => Transaction::read::<MfrRevision, 3>(),
            Stage::TiMfrId => Transaction::read::<TiMfrId, 2>(),
            Stage::TiMfrModel => Transaction::read::<TiMfrModel, 2>(),
            Stage::TiMfrRevision => Transaction::read::<TiMfrRevision, 2>(),
            Stage::RestoreDefaultAll => Transaction::Command(write_register(RestoreDefaultAll)),
            Stage::MfrCalibration => Transaction::Store(write_register(self.state.calibration)),
        }
    }

    /// Take in the outcome of the pending transaction: the reply buffer, of
    /// which a read has filled the first bytes, or the error of the bus.
    pub fn advance<E>(self, outcome: Result<[u8; 7], E>) -> (r: Progress<E>)
        ensures
            r@ == step(self@, outcome),
    {
        let reply: [u8; 7] = match outcome {
            Ok(reply) => reply,
            Err(error) => {
                return Progress::Failed(Error::from(error));
            },
        };
        let state = self.state;
        match state.stage {
            Stage::MfrId => {
                let register = MfrId::from([reply[0], reply[1], reply[2]]);
                let verified = state.verified && spells(&register.id, "TI");
                Progress::Continue(
                    Construction { state: State { stage: Stage::MfrModel, verified, ..state } },
                )
            },
            Stage::MfrModel => {
                let register = MfrModel::from(reply);
                let verified = state.verified && spells(&register.model, "INA233");
                Progress::Continue(
                    Construction { state: State { stage: Stage::MfrRevision, verified, ..state } },
                )
            },
            Stage::MfrRevision => {
                let register = MfrRevision::from([reply[0], reply[1], reply[2]]);
                let verified = state.verified && spells(&register.revision, "A1");
                Progress::Continue(
                    Construction { state: State { stage: Stage::TiMfrId, verified, ..state } },
                )
            },
            Stage::TiMfrId => {
                let register = TiMfrId::from([reply[0], reply[1]]);
                let verified = state.verified && spells(&register.id, "TI");
                Progress::Continue(
                    Construction { state: State { stage: Stage::TiMfrModel, verified, ..state } },
                )
            },
            Stage::TiMfrModel => {
                let register = TiMfrModel::from([reply[0], reply[1]]);
                let verified = state.verified && spells(&register.model, "33");
                Progress::Continue(
                    Construction {
                        state: State { stage: Stage::TiMfrRevision, verified, ..state },
                    },
                )
            },
            Stage::TiMfrRevision => {
                let register = TiMfrRevision::from([reply[0], reply[1]]);
                let verified = state.verified && spells(&register.revision, "A1");
                if verified {
                    Progress::Continue(
                        Construction {
                            state: State { stage: Stage::RestoreDefaultAll, verified, ..state },
                        },
                    )
                } else {
                    Progress::Failed(Error::Verification)
                }
            },
            Stage::RestoreDefaultAll => Progress::Continue(
                Construction { state: State { stage: Stage::MfrCalibration, ..state } },
            ),
            Stage::MfrCalibration => Progress::Ready(Ina233 { current_lsb: state.current_lsb }),
        }
    }
}

/// A driver for a Texas Instruments INA233 that has been identified, reset
/// and calibrated.
#[derive(Debug)]
pub struct Ina233 {
    current_lsb: Current,
}

impl View for Ina233 {
    type V = Current;

    /// The current that one count of the current register stands for.
    closed spec fn view(&self) -> Current {
        self.current_lsb
    }
}

impl Ina233 {
    /// Begin the construction of a driver.
    ///
    /// - `shunt_resistance`: The resistance of the current shunt.
    /// - `maximum_current`: The maximum expected (measurable) current load.
    /// - `verify`: Whether to check the identity registers of the device
    ///   before anything is written to it.
    ///
    /// Choose resistance and current so that the calibration value,
    /// `0.00512 V / (maximum_current / 32768 * shunt_resistance)`, fits 16
    /// bits: one that does not is clipped, and the currents measured are
    /// then wrong.
    pub fn new(shunt_resistance: Resistance, maximum_current: Current, verify: bool) -> (r:
        Construction)
        ensures
            r@ == initial(shunt_resistance, maximum_current, verify),
    {
        let lsb = current_lsb_of(maximum_current);
        let mut calibration = MfrCalibration::default();
        calibration.set_current_lsb(lsb, shunt_resistance);
        let stage = if verify {
            Stage::MfrId
        } else {
            Stage::RestoreDefaultAll
        };
        Construction { state: State { stage, verified: true, calibration, current_lsb: lsb } }
    }

    /// The current that one count of the current register stands for.
    pub fn current_lsb(&self) -> (r: Current)
        ensures
            r == self@,
    {
        self.current_lsb
    }

    /// The latest voltage measurement, from the outcome of reading the bus
    /// voltage register, [`ReadVin`]: 1.25 mV for each count of the reply.
    pub fn voltage<E>(&self, outcome: Result<[u8; 2], E>) -> (r: Result<Potential, Error<E>>)
        ensures
            match outcome {
                Ok(reply) => r is Ok && r->Ok_0.nanovolts == ReadVin::from_spec(reply).value
                    * BUS_VOLTAGE_LSB,
                Err(error) => r == Err::<Potential, Error<E>>(Error::Communication(error)),
            },
    {
        match read_register::<ReadVin, 2, E>(outcome) {
            Ok(register) => Ok(register.voltage()),
            Err(error) => Err(Error::from(error)),
        }
    }

    /// The latest current measurement, from the outcome of reading the input
    /// current register, [`ReadIin`]: the current LSB for each count of the
    /// reply, a two's-complement number.
    pub fn current<E>(&self, outcome: Result<[u8; 2], E>) -> (r: Result<Current, Error<E>>)
        ensures
            match outcome {
                Ok(reply) => r is Ok && r->Ok_0.picoamperes == clip_i64(
                    ReadIin::from_spec(reply).value * self@.picoamperes,
                ),
                Err(error) => r == Err::<Current, Error<E>>(Error::Communication(error)),
            },
    {
        match read_register::<ReadIin, 2, E>(outcome) {
            Ok(register) => Ok(register.current(self.current_lsb)),
            Err(error) => Err(Error::from(error)),
        }
    }
}

} // verus!
