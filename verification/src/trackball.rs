//! PMW3360 optical sensor: SPI register framing, assembly of the 16-bit
//! motion deltas, the start-up handshake and the per-poll motion read, the
//! latter two as state machines whose actions a driver performs.

use vstd::prelude::*;
use crate::motion::Motion;

verus! {

/// Product ID register; reads `PRODUCT_ID_PMW3360` once the sensor is up.
pub const REG_PRODUCT_ID: u8 = 0x00;
/// Motion register; bit 7 is set when motion occurred since the last read.
pub const REG_MOTION: u8 = 0x02;
/// Low byte of the X movement.
pub const REG_DELTA_X_L: u8 = 0x03;
/// High byte of the X movement.
pub const REG_DELTA_X_H: u8 = 0x04;
/// Low byte of the Y movement.
pub const REG_DELTA_Y_L: u8 = 0x05;
/// High byte of the Y movement.
pub const REG_DELTA_Y_H: u8 = 0x06;
/// Config1 register: resolution in steps of 100 CPI.
pub const REG_CONFIG1: u8 = 0x0F;
/// Product ID of a PMW3360.
pub const PRODUCT_ID_PMW3360: u8 = 0x42;
/// Config1 value written at start-up: 16 * 100 = 1600 CPI.
pub const CPI_1600: u8 = 0x10;
/// Bit of the motion register that flags movement.
pub const MOTION_FLAG: u8 = 0x80;
/// Bit of the address byte that marks a register read (clear for a write).
pub const READ_BIT: u8 = 0x80;
/// Delay between two product ID probes while the sensor boots, in ms.
pub const PROBE_RETRY_MS: u64 = 50;

/// The two bytes clocked out to read register `reg`: the address with its
/// most significant bit set, then a dummy byte during which the sensor
/// answers.
pub fn read_frame(reg: u8) -> (frame: [u8; 2])
    ensures
        frame@ == seq![READ_BIT | reg, 0u8],
{
    [READ_BIT | reg, 0x00]
}

/// The two bytes clocked out to write `val` to register `reg`.
pub fn write_frame(reg: u8, val: u8) -> (frame: [u8; 2])
    ensures
        frame@ == seq![reg, val],
{
    [reg, val]
}

/// The register value within the two bytes received during a read frame:
/// the byte clocked in with the dummy byte.
pub fn read_reply(rx: [u8; 2]) -> (value: u8)
    ensures
        value == rx@[1],
{
    rx[1]
}

/// The value of the 16-bit two's complement number whose bytes are `lo` and
/// `hi` (little-endian).
pub open spec fn delta_value(lo: u8, hi: u8) -> int {
    if hi < 128 {
        hi * 256 + lo
    } else {
        hi * 256 + lo - 65536
    }
}

/// Joins the low and high byte of a delta register pair into the signed
/// movement count.
pub fn combine_delta(lo: u8, hi: u8) -> (d: i16)
    ensures
        d as int == delta_value(lo, hi),
{
    let h: i16 = hi as i16;
    let l: i16 = lo as i16;
    let d: i16 = (h << 8u32) | l;
    assert(d as int == delta_value(lo, hi)) by (bit_vector)
        requires
            h == hi as i16,
            l == lo as i16,
            d == (h << 8u32) | l,
    ;
    d
}

/// Splitting a delta into its two register bytes and joining them again
/// gives back the delta.
pub proof fn lemma_delta_bytes_round_trip(d: i16)
    ensures
        delta_value(d as u8, (d >> 8u32) as u8) == d as int,
{
    assert(delta_value(d as u8, (d >> 8u32) as u8) == d as int) by (bit_vector);
}

/// What the driver does next.
#[derive(Clone, Copy, Debug, PartialEq, Eq)]
pub enum SensorAction {
    /// Read a register and hand its value back.
    ReadRegister(u8),
    /// Write a value to a register, then report completion.
    WriteRegister(u8, u8),
    /// Wait this many milliseconds, then report completion.
    WaitMillis(u64),
    /// Send this movement to the central.
    Report(Motion),
    /// Nothing more to do in this run.
    Finish,
}

/// Progress of the start-up handshake.
#[derive(Clone, Copy, Debug, PartialEq, Eq)]
pub enum StartupState {
    /// A product ID read is outstanding.
    Probing,
    /// Waiting before the next probe.
    Backoff,
    /// The resolution write is outstanding.
    Configuring,
    /// The sensor is identified and configured.
    Ready,
}

/// What the driver hands back to the start-up machine.
#[derive(Clone, Copy, Debug, PartialEq, Eq)]
pub enum StartupEvent {
    /// The value of the register that was read.
    RegisterValue(u8),
    /// The requested write or wait has finished.
    Completed,
}

/// The start-up handshake as a transition function: probe the product ID
/// until it reads as a PMW3360, waiting between probes, then set the
/// resolution once.
pub open spec fn startup_transition(state: StartupState, event: StartupEvent) -> (StartupState, SensorAction) {
    match (state, event) {
        (StartupState::Probing, StartupEvent::RegisterValue(pid)) => if pid == PRODUCT_ID_PMW3360 {
            (StartupState::Configuring, SensorAction::WriteRegister(REG_CONFIG1, CPI_1600))
        } else {
            (StartupState::Backoff, SensorAction::WaitMillis(PROBE_RETRY_MS))
        },
        (StartupState::Backoff, StartupEvent::Completed) => (
            StartupState::Probing,
            SensorAction::ReadRegister(REG_PRODUCT_ID),
        ),
        (StartupState::Configuring, StartupEvent::Completed) => (StartupState::Ready, SensorAction::Finish),
        (StartupState::Ready, _) => (StartupState::Ready, SensorAction::Finish),
        // An event that does not answer the outstanding action repeats it.
        (StartupState::Probing, _) => (StartupState::Probing, SensorAction::ReadRegister(REG_PRODUCT_ID)),
        (StartupState::Backoff, _) => (StartupState::Backoff, SensorAction::WaitMillis(PROBE_RETRY_MS)),
        (StartupState::Configuring, _) => (
            StartupState::Configuring,
            SensorAction::WriteRegister(REG_CONFIG1, CPI_1600),
        ),
    }
}

/// The first step of the start-up handshake: read the product ID.
pub fn startup_begin() -> (r: (StartupState, SensorAction))
    ensures
        r == (StartupState::Probing, SensorAction::ReadRegister(REG_PRODUCT_ID)),
{
    (StartupState::Probing, SensorAction::ReadRegister(REG_PRODUCT_ID))
}

/// One step of the start-up handshake.
pub fn startup_step(state: StartupState, event: StartupEvent) -> (r: (StartupState, SensorAction))
    ensures
        r == startup_transition(state, event),
        state == StartupState::Probing && event == StartupEvent::RegisterValue(0x42)
            ==> r == (StartupState::Configuring, SensorAction::WriteRegister(0x0F, 0x10)),
        state == StartupState::Probing && (event matches StartupEvent::RegisterValue(pid) && pid != 0x42)
            ==> r == (StartupState::Backoff, SensorAction::WaitMillis(50)),
        state == StartupState::Backoff && event == StartupEvent::Completed
            ==> r == (StartupState::Probing, SensorAction::ReadRegister(0x00)),
        r.1 == SensorAction::Finish ==> r.0 == StartupState::Ready,
{
    proof {
        lemma_probe_until_identified(state, event);
    }
    match (state, event) {
        (StartupState::Probing, StartupEvent::RegisterValue(pid)) => if pid == PRODUCT_ID_PMW3360 {
            (StartupState::Configuring, SensorAction::WriteRegister(REG_CONFIG1, CPI_1600))
        } else {
            (StartupState::Backoff, SensorAction::WaitMillis(PROBE_RETRY_MS))
        },
        (StartupState::Backoff, StartupEvent::Completed) => (
            StartupState::Probing,
            SensorAction::ReadRegister(REG_PRODUCT_ID),
        ),
        (StartupState::Configuring, StartupEvent::Completed) => (StartupState::Ready, SensorAction::Finish),
        (StartupState::Ready, _) => (StartupState::Ready, SensorAction::Finish),
        (StartupState::Probing, _) => (StartupState::Probing, SensorAction::ReadRegister(REG_PRODUCT_ID)),
        (StartupState::Backoff, _) => (StartupState::Backoff, SensorAction::WaitMillis(PROBE_RETRY_MS)),
        (StartupState::Configuring, _) => (
            StartupState::Configuring,
            SensorAction::WriteRegister(REG_CONFIG1, CPI_1600),
        ),
    }
}

/// Progress of one motion poll.
#[derive(Clone, Copy, Debug, PartialEq, Eq)]
pub enum PollState {
    /// The motion register read is outstanding.
    AwaitMotion,
    /// The low byte of X is outstanding.
    AwaitXLow,
    /// The high byte of X is outstanding.
    AwaitXHigh { x_low: u8 },
    /// The low byte of Y is outstanding.
    AwaitYLow { dx: i16 },
    /// The high byte of Y is outstanding.
    AwaitYHigh { dx: i16, y_low: u8 },
    /// The poll is over.
    Done,
}

/// The motion poll as a transition function on the value of the register
/// that was read: the motion flag, then X low, X high, Y low, Y high; a
/// movement is reported unless it is zero on both axes.
pub open spec fn poll_transition(state: PollState, value: u8) -> (PollState, SensorAction) {
    match state {
        PollState::AwaitMotion => if value & MOTION_FLAG == 0 {
            (PollState::Done, SensorAction::Finish)
        } else {
            (PollState::AwaitXLow, SensorAction::ReadRegister(REG_DELTA_X_L))
        },
        PollState::AwaitXLow => (PollState::AwaitXHigh { x_low: value }, SensorAction::ReadRegister(REG_DELTA_X_H)),
        PollState::AwaitXHigh { x_low } => (
            PollState::AwaitYLow { dx: delta_value(x_low, value) as i16 },
            SensorAction::ReadRegister(REG_DELTA_Y_L),
        ),
        PollState::AwaitYLow { dx } => (
            PollState::AwaitYHigh { dx, y_low: value },
            SensorAction::ReadRegister(REG_DELTA_Y_H),
        ),
        PollState::AwaitYHigh { dx, y_low } => {
            let dy = delta_value(y_low, value) as i16;
            if dx == 0 && dy == 0 {
                (PollState::Done, SensorAction::Finish)
            } else {
                (PollState::Done, SensorAction::Report(Motion { x: dx, y: dy, z: 0 }))
            }
        },
        PollState::Done => (PollState::Done, SensorAction::Finish),
    }
}

/// The first step of a motion poll: read the motion register.
pub fn poll_begin() -> (r: (PollState, SensorAction))
    ensures
        r == (PollState::AwaitMotion, SensorAction::ReadRegister(REG_MOTION)),
{
    (PollState::AwaitMotion, SensorAction::ReadRegister(REG_MOTION))
}

/// One step of a motion poll, given the value of the register just read.
pub fn poll_step(state: PollState, value: u8) -> (r: (PollState, SensorAction))
    ensures
        r == poll_transition(state, value),
{
    match state {
        PollState::AwaitMotion => if value & MOTION_FLAG == 0 {
            (PollState::Done, SensorAction::Finish)
        } else {
            (PollState::AwaitXLow, SensorAction::ReadRegister(REG_DELTA_X_L))
        },
        PollState::AwaitXLow => (PollState::AwaitXHigh { x_low: value }, SensorAction::ReadRegister(REG_DELTA_X_H)),
        PollState::AwaitXHigh { x_low } => {
            let dx = combine_delta(x_low, value);
            (PollState::AwaitYLow { dx }, SensorAction::ReadRegister(REG_DELTA_Y_L))
        },
        PollState::AwaitYLow { dx } => (
            PollState::AwaitYHigh { dx, y_low: value },
            SensorAction::ReadRegister(REG_DELTA_Y_H),
        ),
        PollState::AwaitYHigh { dx, y_low } => {
            let dy = combine_delta(y_low, value);
            if dx == 0 && dy == 0 {
                (PollState::Done, SensorAction::Finish)
            } else {
                (PollState::Done, SensorAction::Report(Motion { x: dx, y: dy, z: 0 }))
            }
        },
        PollState::Done => (PollState::Done, SensorAction::Finish),
    }
}

/// The first byte of a read frame has the read bit (bit 7) set and keeps the
/// low seven bits of the register address; the first byte of a write frame to
/// any register below `0x80` has that bit clear.
pub proof fn lemma_frame_direction(reg: u8)
    ensures
        (READ_BIT | reg) & 0x80u8 == 0x80u8,
        (READ_BIT | reg) & 0x7fu8 == reg & 0x7fu8,
        reg < 0x80 ==> reg & 0x80u8 == 0u8,
{
    assert((0x80u8 | reg) & 0x80u8 == 0x80u8) by (bit_vector);
    assert((0x80u8 | reg) & 0x7fu8 == reg & 0x7fu8) by (bit_vector);
    assert(reg < 0x80 ==> reg & 0x80u8 == 0u8) by (bit_vector);
}

/// A motion poll fed the motion register `motion` stops at once when the
/// motion flag is clear. Otherwise it asks for X low, X high, Y low and Y high
/// in this order, and then reports the movement assembled from those bytes,
/// unless that movement is zero on both axes.
pub proof fn lemma_poll_run(motion: u8, x_low: u8, x_high: u8, y_low: u8, y_high: u8)
    ensures
        ({
            let (s1, a1) = poll_transition(PollState::AwaitMotion, motion);
            let (s2, a2) = poll_transition(s1, x_low);
            let (s3, a3) = poll_transition(s2, x_high);
            let (s4, a4) = poll_transition(s3, y_low);
            let (s5, a5) = poll_transition(s4, y_high);
            let dx = delta_value(x_low, x_high);
            let dy = delta_value(y_low, y_high);
            &&& motion & MOTION_FLAG == 0 ==> s1 == PollState::Done && a1 == SensorAction::Finish
            &&& motion & MOTION_FLAG != 0 ==> {
                &&& a1 == SensorAction::ReadRegister(REG_DELTA_X_L)
                &&& a2 == SensorAction::ReadRegister(REG_DELTA_X_H)
                &&& a3 == SensorAction::ReadRegister(REG_DELTA_Y_L)
                &&& a4 == SensorAction::ReadRegister(REG_DELTA_Y_H)
                &&& s5 == PollState::Done
                &&& (dx == 0 && dy == 0 ==> a5 == SensorAction::Finish)
                &&& (!(dx == 0 && dy == 0) ==> a5 == SensorAction::Report(
                    Motion { x: dx as i16, y: dy as i16, z: 0 },
                ))
            }
        }),
{
    let dx = delta_value(x_low, x_high);
    let dy = delta_value(y_low, y_high);
    assert(-32768 <= dx <= 32767 && -32768 <= dy <= 32767);
    assert((dx as i16) as int == dx && (dy as i16) as int == dy);
}

/// The sensor is configured only once it has identified itself: the
/// handshake enters `Configuring` only from a probe that read the PMW3360
/// product ID, enters `Ready` only when that write completed, and stays
/// `Ready` without acting again.
pub proof fn lemma_startup_order(state: StartupState, event: StartupEvent)
    ensures
        ({
            let (next, action) = startup_transition(state, event);
            &&& (state != StartupState::Configuring && next == StartupState::Configuring)
                ==> state == StartupState::Probing && event == StartupEvent::RegisterValue(PRODUCT_ID_PMW3360)
            &&& (state != StartupState::Ready && next == StartupState::Ready)
                ==> state == StartupState::Configuring && event == StartupEvent::Completed
            &&& state == StartupState::Ready ==> next == StartupState::Ready && action == SensorAction::Finish
            &&& action matches SensorAction::WriteRegister(reg, val) ==> next == StartupState::Configuring
                && reg == REG_CONFIG1 && val == CPI_1600
        }),
{
}

/// The handshake keeps probing until the sensor identifies itself: while
/// probing, a product ID of 0x42 leads to writing 0x10 (1600 CPI) to register
/// 0x0F, and every other product ID to a 50 ms wait after which register 0x00
/// is read again; the handshake says it is finished only once it is ready.
pub proof fn lemma_probe_until_identified(state: StartupState, event: StartupEvent)
    ensures
        startup_transition(StartupState::Probing, StartupEvent::RegisterValue(0x42))
            == (StartupState::Configuring, SensorAction::WriteRegister(0x0F, 0x10)),
        forall|pid: u8| pid != 0x42 ==> #[trigger] startup_transition(StartupState::Probing, StartupEvent::RegisterValue(pid))
            == (StartupState::Backoff, SensorAction::WaitMillis(50)),
        startup_transition(StartupState::Backoff, StartupEvent::Completed)
            == (StartupState::Probing, SensorAction::ReadRegister(0x00)),
        startup_transition(state, event).1 == SensorAction::Finish ==> startup_transition(state, event).0 == StartupState::Ready,
{
}

} // verus!
