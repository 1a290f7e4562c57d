//! Framing of single-register transactions on the two-wire bus.
//!
//! A transaction is a fixed list of bus operations. The caller issues them
//! one at a time and reports, after each, whether a sent byte was
//! acknowledged; `after_op` decides whether the transaction goes on,
//! completes, or aborts with the phase that was not acknowledged.
use vstd::prelude::*;

verus! {

/// Seven-bit bus address of the clock chip.
pub const DEVICE_ADDRESS: u8 = 0x68;

/// Seven-bit bus address of the optional eight-channel bus switch.
pub const SWITCH_ADDRESS: u8 = 0x74;

/// One primitive operation on the bus.
#[derive(Clone, Copy, Debug, PartialEq, Eq, Structural)]
pub enum BusOp {
    Start,
    Stop,
    Restart,
    /// Send one byte; the device answers with an acknowledgment or not.
    Send(u8),
    /// Read one byte without acknowledging it.
    Receive,
}

/// A complete, self-contained bus transaction.
#[derive(Clone, Copy, Debug, PartialEq, Eq, Structural)]
pub enum Transaction {
    /// Write `val` into register `reg` of the chip.
    Write { reg: u8, val: u8 },
    /// Read register `reg` of the chip.
    Read { reg: u8 },
    /// Route the bus switch to `channel` (0 to 7).
    SelectChannel { channel: u8 },
}

/// The byte of a transaction that went unacknowledged.
#[derive(Clone, Copy, Debug, PartialEq, Eq, Structural)]
pub enum Phase {
    /// The chip's address with the write bit.
    WriteAddress,
    /// The register number.
    Register,
    /// The value written.
    Value,
    /// The chip's address with the read bit.
    ReadAddress,
    /// The switch's address with the write bit.
    SwitchAddress,
    /// The switch's channel mask.
    ControlWord,
}

/// What follows an operation of a transaction.
#[derive(Clone, Copy, Debug, PartialEq, Eq, Structural)]
pub enum Progress {
    /// Issue the operation at this index next.
    Next(usize),
    /// The transaction is over; it succeeded.
    Complete,
    /// The transaction is aborted: the byte of this phase was not acknowledged.
    NoAck(Phase),
}

impl Transaction {
    pub open spec fn wf(self) -> bool {
        self matches Transaction::SelectChannel { channel } ==> channel < 8
    }
}

/// The one-hot mask that routes the bus switch to `channel`.
pub open spec fn channel_mask(channel: u8) -> u8
    recommends
        channel < 8,
{
    if channel == 0 {
        1
    } else if channel == 1 {
        2
    } else if channel == 2 {
        4
    } else if channel == 3 {
        8
    } else if channel == 4 {
        16
    } else if channel == 5 {
        32
    } else if channel == 6 {
        64
    } else {
        128
    }
}

/// The operations of a transaction, in order, when every byte is acknowledged.
pub open spec fn ops(t: Transaction) -> Seq<BusOp> {
    match t {
        Transaction::Write { reg, val } => seq![
            BusOp::Start,
            BusOp::Send((DEVICE_ADDRESS * 2) as u8),
            BusOp::Send(reg),
            BusOp::Send(val),
            BusOp::Stop,
        ],
        Transaction::Read { reg } => seq![
            BusOp::Start,
            BusOp::Send((DEVICE_ADDRESS * 2) as u8),
            BusOp::Send(reg),
            BusOp::Restart,
            BusOp::Send((DEVICE_ADDRESS * 2 + 1) as u8),
            BusOp::Receive,
            BusOp::Stop,
        ],
        Transaction::SelectChannel { channel } => seq![
            BusOp::Start,
            BusOp::Send((SWITCH_ADDRESS * 2) as u8),
            BusOp::Send(channel_mask(channel)),
            BusOp::Stop,
        ],
    }
}

/// The phase of the byte sent at index `i` of a transaction.
pub open spec fn phase_at(t: Transaction, i: int) -> Phase {
    match t {
        Transaction::Write { .. } => if i == 1 {
            Phase::WriteAddress
        } else if i == 2 {
            Phase::Register
        } else {
            Phase::Value
        },
        Transaction::Read { .. } => if i == 1 {
            Phase::WriteAddress
        } else if i == 2 {
            Phase::Register
        } else {
            Phase::ReadAddress
        },
        Transaction::SelectChannel { .. } => if i == 1 {
            Phase::SwitchAddress
        } else {
            Phase::ControlWord
        },
    }
}

/// What follows the operation at index `i`, given whether it was acknowledged
/// (which matters only for a sent byte).
pub open spec fn progress(t: Transaction, i: int, acked: bool) -> Progress {
    if ops(t)[i] is Send && !acked {
        Progress::NoAck(phase_at(t, i))
    } else if i + 1 < ops(t).len() {
        Progress::Next((i + 1) as usize)
    } else {
        Progress::Complete
    }
}

/// The operations of `t`, in order.
pub fn bus_ops(t: &Transaction) -> (r: Vec<BusOp>)
    requires
        t.wf(),
    ensures
        r@ == ops(*t),
{
    let write_address: u8 = DEVICE_ADDRESS << 1;
    let read_address: u8 = write_address | 1;
    assert(write_address == 0xd0 && read_address == 0xd1) by (bit_vector)
        requires
            write_address == 0x68u8 << 1u8,
            read_address == write_address | 1u8,
    ;
    let r = match *t {
        Transaction::Write { reg, val } => vec![
            BusOp::Start,
            BusOp::Send(write_address),
            BusOp::Send(reg),
            BusOp::Send(val),
            BusOp::Stop,
        ],
        Transaction::Read { reg } => vec![
            BusOp::Start,
            BusOp::Send(write_address),
            BusOp::Send(reg),
            BusOp::Restart,
            BusOp::Send(read_address),
            BusOp::Receive,
            BusOp::Stop,
        ],
        Transaction::SelectChannel { channel } => {
            let switch_address: u8 = SWITCH_ADDRESS << 1;
            assert(switch_address == 0xe8) by (bit_vector)
                requires
                    switch_address == 0x74u8 << 1u8,
            ;
            let mask: u8 = 1u8 << channel;
            assert(mask == channel_mask(channel)) by (bit_vector)
                requires
                    mask == 1u8 << channel,
                    channel < 8,
            ;
            vec![
                BusOp::Start,
                BusOp::Send(switch_address),
                BusOp::Send(mask),
                BusOp::Stop,
            ]
        },
    };
    assert(r@ =~= ops(*t));
    r
}

/// Decides what follows the operation at index `i` of `t`.
pub fn after_op(t: &Transaction, i: usize, acked: bool) -> (r: Progress)
    requires
        i < ops(*t).len(),
    ensures
        r == progress(*t, i as int, acked),
{
    let n: usize = match *t {
        Transaction::Write { .. } => 5,
        Transaction::Read { .. } => 7,
        Transaction::SelectChannel { .. } => 4,
    };
    let sends = match *t {
        Transaction::Write { .. } => 1 <= i && i <= 3,
        Transaction::Read { .. } => i == 1 || i == 2 || i == 4,
        Transaction::SelectChannel { .. } => i == 1 || i == 2,
    };
    if sends && !acked {
        let phase = match *t {
            Transaction::Write { .. } => if i == 1 {
                Phase::WriteAddress
            } else if i == 2 {
                Phase::Register
            } else {
                Phase::Value
            },
            Transaction::Read { .. } => if i == 1 {
                Phase::WriteAddress
            } else if i == 2 {
                Phase::Register
            } else {
                Phase::ReadAddress
            },
            Transaction::SelectChannel { .. } => if i == 1 {
                Phase::SwitchAddress
            } else {
                Phase::ControlWord
            },
        };
        Progress::NoAck(phase)
    } else if i + 1 < n {
        Progress::Next(i + 1)
    } else {
        Progress::Complete
    }
}

/// An unacknowledged byte aborts its transaction: nothing after it is issued,
/// and the abort names the phase of that byte.
pub proof fn lemma_no_ack_aborts(t: Transaction, k: int)
    requires
        0 <= k < ops(t).len(),
        ops(t)[k] is Send,
    ensures
        progress(t, k, false) == Progress::NoAck(phase_at(t, k)),
        !(progress(t, k, false) is Next),
{
}

/// Each sent byte of a transaction has its own phase: the phase named by an
/// abort identifies the byte that was not acknowledged.
pub proof fn lemma_phase_identifies_byte(t: Transaction, j: int, k: int)
    requires
        0 <= j < ops(t).len(),
        0 <= k < ops(t).len(),
        ops(t)[j] is Send,
        ops(t)[k] is Send,
        phase_at(t, j) == phase_at(t, k),
    ensures
        j == k,
{
}

/// When every byte is acknowledged, the operations are issued in order and
/// the transaction completes after its last one.
pub proof fn lemma_all_acked_runs_through(t: Transaction, i: int)
    requires
        0 <= i < ops(t).len(),
    ensures
        i + 1 < ops(t).len() ==> progress(t, i, true) == Progress::Next((i + 1) as usize),
        i + 1 == ops(t).len() ==> progress(t, i, true) == Progress::Complete,
{
}

} // verus!
