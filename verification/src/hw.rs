//! What a driver asks of the hardware: the steps it takes, and how a command with its data
//! goes over the bus.
//!
//! Drivers plan their work as a list of [Step]s; whoever owns the SPI bus, the pins and the
//! timer carries them out in order, stopping at the first error.
use crate::geometry::PinState;
use vstd::prelude::*;

verus! {

/// One unit of work for the hardware.
#[derive(Clone, Debug, PartialEq, Eq)]
pub enum Step {
    /// Sends a command byte followed by its data bytes, once the panel is not busy.
    Send { command: u8, data: Vec<u8> },
    /// Sends a command byte followed by `count` copies of `byte`, one at a time, once the
    /// panel is not busy.
    SendRepeated { command: u8, byte: u8, count: usize },
    /// Waits until the panel is no longer busy.
    WaitIfBusy,
    /// Waits for the given number of milliseconds.
    DelayMs(u32),
    /// Drives the reset pin to the given level.
    SetReset(PinState),
}

/// The mathematical value of a [Step].
#[verifier::ext_equal]
pub enum StepSpec {
    Send(u8, Seq<u8>),
    SendRepeated(u8, u8, nat),
    WaitIfBusy,
    DelayMs(u32),
    SetReset(PinState),
}

impl DeepView for Step {
    type V = StepSpec;

    open spec fn deep_view(&self) -> StepSpec {
        match self {
            Step::Send { command, data } => StepSpec::Send(*command, data@),
            Step::SendRepeated { command, byte, count } => StepSpec::SendRepeated(
                *command,
                *byte,
                *count as nat,
            ),
            Step::WaitIfBusy => StepSpec::WaitIfBusy,
            Step::DelayMs(ms) => StepSpec::DelayMs(*ms),
            Step::SetReset(level) => StepSpec::SetReset(*level),
        }
    }
}

/// Builds the step that sends `command` with the given data bytes.
pub fn send_step(command: u8, data: &[u8]) -> (r: Step)
    ensures
        r.deep_view() == StepSpec::Send(command, data@),
{
    let mut bytes: Vec<u8> = Vec::new();
    let mut i: usize = 0;
    while i < data.len()
        invariant
            i <= data.len(),
            bytes@ =~= data@.take(i as int),
        decreases data.len() - i,
    {
        bytes.push(data[i]);
        i = i + 1;
    }
    assert(data@.take(data.len() as int) =~= data@);
    Step::Send { command, data: bytes }
}

/// One transfer on the bus.
#[derive(Clone, Copy, Debug, PartialEq, Eq, Structural)]
pub enum BusOp {
    /// Waits until the panel is no longer busy.
    WaitIfBusy,
    /// Drives the Data/Command pin: low for a command, high for data.
    SetDc(PinState),
    /// Writes the command byte.
    WriteCommand,
    /// Writes the data bytes.
    WriteData,
}

/// The transfers that send a command with `data_len` data bytes: wait for the panel, write
/// the command with the Data/Command pin low, then, if there is any data, write it with the
/// pin high.
pub fn send_ops(data_len: usize) -> (r: Vec<BusOp>)
    ensures
        r@ == (if data_len > 0 {
            seq![
                BusOp::WaitIfBusy,
                BusOp::SetDc(PinState::Low),
                BusOp::WriteCommand,
                BusOp::SetDc(PinState::High),
                BusOp::WriteData,
            ]
        } else {
            seq![BusOp::WaitIfBusy, BusOp::SetDc(PinState::Low), BusOp::WriteCommand]
        }),
{
    let mut ops: Vec<BusOp> = Vec::new();
    ops.push(BusOp::WaitIfBusy);
    ops.push(BusOp::SetDc(PinState::Low));
    ops.push(BusOp::WriteCommand);
    if data_len > 0 {
        ops.push(BusOp::SetDc(PinState::High));
        ops.push(BusOp::WriteData);
    }
    ops
}

/// The transfers that send a command followed by a stream of data bytes, if there is a
/// stream: the Data/Command pin goes high for the stream even when it turns out empty.
pub fn send_stream_ops(has_stream: bool) -> (r: Vec<BusOp>)
    ensures
        r@ == (if has_stream {
            seq![
                BusOp::WaitIfBusy,
                BusOp::SetDc(PinState::Low),
                BusOp::WriteCommand,
                BusOp::SetDc(PinState::High),
                BusOp::WriteData,
            ]
        } else {
            seq![BusOp::WaitIfBusy, BusOp::SetDc(PinState::Low), BusOp::WriteCommand]
        }),
{
    let mut ops: Vec<BusOp> = Vec::new();
    ops.push(BusOp::WaitIfBusy);
    ops.push(BusOp::SetDc(PinState::Low));
    ops.push(BusOp::WriteCommand);
    if has_stream {
        ops.push(BusOp::SetDc(PinState::High));
        ops.push(BusOp::WriteData);
    }
    ops
}

/// The opposite logic level.
pub open spec fn opposite(level: PinState) -> PinState {
    match level {
        PinState::Low => PinState::High,
        PinState::High => PinState::Low,
    }
}

/// The opposite level differs from the level, and going opposite twice comes back.
pub proof fn lemma_opposite(level: PinState)
    ensures
        opposite(level) != level,
        opposite(opposite(level)) == level,
{
}

/// Decides whether to wait for the panel: given the level that signals "busy" and whether the
/// busy pin reads high, returns the level to wait for, or `None` when the panel is idle.
pub fn busy_wait_target(busy_when: PinState, pin_is_high: bool) -> (r: Option<PinState>)
    ensures
        r == (if (busy_when == PinState::High) == pin_is_high {
            Some(opposite(busy_when))
        } else {
            None::<PinState>
        }),
{
    match busy_when {
        PinState::High => {
            if pin_is_high {
                Some(PinState::Low)
            } else {
                None
            }
        },
        PinState::Low => {
            if !pin_is_high {
                Some(PinState::High)
            } else {
                None
            }
        },
    }
}

/// Splits a 16-bit value into the two 8-bit values representing the low and high bytes.
pub fn split_low_and_high(value: u16) -> (r: (u8, u8))
    ensures
        r.0 == value % 256,
        r.1 == value / 256,
        r.0 + 256 * r.1 == value,
{
    let low: u8 = (value & 0xFF) as u8;
    let high: u8 = ((value >> 8) & 0xFF) as u8;
    assert((value & 0xFF) == value % 256 && ((value >> 8) & 0xFF) == value / 256) by (bit_vector);
    (low, high)
}

/// The bitwise complement of every byte.
pub open spec fn inverted(data: Seq<u8>) -> Seq<u8> {
    data.map_values(|b: u8| !b)
}

/// Each inverted byte is the complement of the original one: the two share no bit and
/// together cover all eight.
pub proof fn lemma_inverted_complements(data: Seq<u8>)
    ensures
        inverted(data).len() == data.len(),
        forall|i: int| 0 <= i < data.len() ==> #[trigger] (inverted(data)[i] ^ data[i]) == 0xFF,
{
    assert forall|i: int| 0 <= i < data.len() implies #[trigger] (inverted(data)[i] ^ data[i]) == 0xFF by {
        let b = data[i];
        assert(!b ^ b == 0xFF) by (bit_vector);
    }
}

/// Returns the bitwise complement of every byte.
pub fn invert_bytes(data: &[u8]) -> (r: Vec<u8>)
    ensures
        r@ == inverted(data@),
        r@.len() == data@.len(),
        forall|i: int| 0 <= i < data@.len() ==> #[trigger] (r@[i] ^ data@[i]) == 0xFF,
{
    proof {
        lemma_inverted_complements(data@);
    }
    let mut out: Vec<u8> = Vec::new();
    let mut i: usize = 0;
    while i < data.len()
        invariant
            i <= data.len(),
            out@ =~= inverted(data@.take(i as int)),
        decreases data.len() - i,
    {
        out.push(!data[i]);
        i = i + 1;
    }
    assert(data@.take(data.len() as int) =~= data@);
    out
}

/// Appends `more` to `steps`.
pub fn append_steps(steps: &mut Vec<Step>, more: Vec<Step>)
    ensures
        final(steps).deep_view() == old(steps).deep_view() + more.deep_view(),
{
    let mut more = more;
    let ghost tail = more.deep_view();
    steps.append(&mut more);
    assert(steps.deep_view() =~= old(steps).deep_view() + tail);
}

} // verus!
