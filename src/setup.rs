//! The bring-up sequence and the runtime input selection, as plans of steps.
//!
//! A plan is carried out in order; the first step that fails ends it with
//! that step's error. Reading, writing and waiting are left to whoever owns
//! the bus, the reset line and the clock; the decisions at each step are
//! made by the functions of this crate (`check_ident`, `RegUpdate::apply`,
//! `require_signal`, `LockMonitor::poll`, and `bus::after_op` within each
//! transaction).
use vstd::prelude::*;

use crate::error::{Error, Signal};
use crate::mapper::{first_violation, map_frequency_settings, mapped, FrequencySettings};
use crate::registers::RegUpdate;

verus! {

/// Microseconds for which the reset line is held.
pub const RESET_HOLD_US: u32 = 1_000;

/// Microseconds that the chip needs to boot after reset.
pub const BOOT_WAIT_US: u32 = 10_000;

/// Register holding the clock-select field (bits 7:6).
pub const CKSEL_REG: u8 = 3;

/// How the bus reaches the chip.
#[derive(Clone, Copy, Debug, PartialEq, Eq, Structural)]
pub enum Topology {
    /// The chip sits directly on the bus.
    Direct,
    /// The chip sits behind an eight-channel bus switch, on this channel.
    Muxed(u8),
}

impl Topology {
    pub open spec fn wf(self) -> bool {
        self matches Topology::Muxed(c) ==> c < 8
    }
}

/// One step of a plan.
#[derive(Clone, Copy, Debug, PartialEq, Eq, Structural)]
pub enum Step {
    /// Drive the reset line: asserted (`true`) or released.
    Reset(bool),
    /// Busy-wait at least this many microseconds.
    WaitUs(u32),
    /// Route the bus switch to this channel.
    Select(u8),
    /// Read the product number registers and check them with `check_ident`.
    CheckIdent,
    /// Carry out a register update (read first where it keeps bits).
    Update(RegUpdate),
    /// Read the loss-of-signal status and check it with `require_signal`.
    RequireSignal(Signal),
    /// Poll for lock until it is acquired or the deadline passes.
    MonitorLock,
}

/// Byte `shift / 8` of `x`, counting from the least significant.
pub open spec fn byte_at(x: u32, shift: u32) -> u8 {
    ((x >> shift) & 0xff) as u8
}

pub open spec fn blind(reg: u8, val: u8) -> RegUpdate {
    RegUpdate { reg, keep: 0, set: val }
}

/// The register updates that program the chip from physical settings `p`,
/// in order: free-run mode, bandwidth, clock-select pin override off,
/// clock-select register mode b01 with calibration request, auto-select
/// off, output formats, the dividers most significant byte first, fast
/// lock, and the calibration start. Only the low four bits of `bwsel` reach
/// the bandwidth field.
pub open spec fn config_updates(p: FrequencySettings) -> Seq<RegUpdate> {
    seq![
        RegUpdate { reg: 0, keep: 0xff, set: 0x40 },
        RegUpdate { reg: 2, keep: 0x0f, set: p.bwsel << 4 },
        RegUpdate { reg: 21, keep: 0xfe, set: 0 },
        RegUpdate { reg: 3, keep: 0x3f, set: 0x50 },
        RegUpdate { reg: 4, keep: 0x3f, set: 0x00 },
        RegUpdate { reg: 6, keep: 0xc0, set: 0x0f },
        blind(25, p.n1_hs << 5),
        blind(31, byte_at(p.nc1_ls, 16)),
        blind(32, byte_at(p.nc1_ls, 8)),
        blind(33, byte_at(p.nc1_ls, 0)),
        blind(40, (p.n2_hs << 5) | byte_at(p.n2_ls, 16)),
        blind(41, byte_at(p.n2_ls, 8)),
        blind(42, byte_at(p.n2_ls, 0)),
        blind(43, byte_at(p.n31, 16)),
        blind(44, byte_at(p.n31, 8)),
        blind(45, byte_at(p.n31, 0)),
        blind(46, byte_at(p.n32, 16)),
        blind(47, byte_at(p.n32, 8)),
        blind(48, byte_at(p.n32, 0)),
        RegUpdate { reg: 137, keep: 0xff, set: 0x01 },
        RegUpdate { reg: 136, keep: 0xff, set: 0x40 },
    ]
}

/// Reset, boot wait and, behind a switch, the channel selection.
pub open spec fn prologue(topology: Topology) -> Seq<Step> {
    let reset = seq![
        Step::Reset(true),
        Step::WaitUs(RESET_HOLD_US),
        Step::Reset(false),
        Step::WaitUs(BOOT_WAIT_US),
    ];
    match topology {
        Topology::Direct => reset,
        Topology::Muxed(c) => reset.push(Step::Select(c)),
    }
}

pub open spec fn update_steps(us: Seq<RegUpdate>) -> Seq<Step> {
    us.map_values(|u: RegUpdate| Step::Update(u))
}

/// The bring-up plan for physical settings `p`.
pub open spec fn setup_steps(p: FrequencySettings, topology: Topology) -> Seq<Step> {
    prologue(topology).push(Step::CheckIdent) + update_steps(config_updates(p)) + seq![
        Step::RequireSignal(Signal::Crystal),
        Step::RequireSignal(Signal::Clkin2),
        Step::MonitorLock,
    ]
}

/// The clock-select update: code b00 selects the external reference, b01
/// the free-running mode.
pub open spec fn cksel_update(external: bool) -> RegUpdate {
    RegUpdate { reg: CKSEL_REG, keep: 0x3f, set: if external { 0x00 } else { 0x40 } }
}

fn byte_of(x: u32, shift: u32) -> (r: u8)
    requires
        shift < 32,
    ensures
        r == byte_at(x, shift),
{
    ((x >> shift) & 0xff) as u8
}

fn config_update_list(p: &FrequencySettings) -> (r: Vec<RegUpdate>)
    ensures
        r@ == config_updates(*p),
{
    let r = vec![
        RegUpdate { reg: 0, keep: 0xff, set: 0x40 },
        RegUpdate { reg: 2, keep: 0x0f, set: p.bwsel << 4 },
        RegUpdate { reg: 21, keep: 0xfe, set: 0 },
        RegUpdate { reg: 3, keep: 0x3f, set: 0x50 },
        RegUpdate { reg: 4, keep: 0x3f, set: 0x00 },
        RegUpdate { reg: 6, keep: 0xc0, set: 0x0f },
        RegUpdate { reg: 25, keep: 0, set: p.n1_hs << 5 },
        RegUpdate { reg: 31, keep: 0, set: byte_of(p.nc1_ls, 16) },
        RegUpdate { reg: 32, keep: 0, set: byte_of(p.nc1_ls, 8) },
        RegUpdate { reg: 33, keep: 0, set: byte_of(p.nc1_ls, 0) },
        RegUpdate { reg: 40, keep: 0, set: (p.n2_hs << 5) | byte_of(p.n2_ls, 16) },
        RegUpdate { reg: 41, keep: 0, set: byte_of(p.n2_ls, 8) },
        RegUpdate { reg: 42, keep: 0, set: byte_of(p.n2_ls, 0) },
        RegUpdate { reg: 43, keep: 0, set: byte_of(p.n31, 16) },
        RegUpdate { reg: 44, keep: 0, set: byte_of(p.n31, 8) },
        RegUpdate { reg: 45, keep: 0, set: byte_of(p.n31, 0) },
        RegUpdate { reg: 46, keep: 0, set: byte_of(p.n32, 16) },
        RegUpdate { reg: 47, keep: 0, set: byte_of(p.n32, 8) },
        RegUpdate { reg: 48, keep: 0, set: byte_of(p.n32, 0) },
        RegUpdate { reg: 137, keep: 0xff, set: 0x01 },
        RegUpdate { reg: 136, keep: 0xff, set: 0x40 },
    ];
    assert(r@ =~= config_updates(*p));
    r
}

/// The bring-up plan for the logical `settings`: the settings are mapped
/// first, and rejected settings give their validation error and no plan.
pub fn setup(settings: &FrequencySettings, topology: Topology) -> (r: Result<Vec<Step>, Error>)
    requires
        topology.wf(),
    ensures
        match r {
            Ok(steps) => first_violation(*settings).is_none() && steps@ == setup_steps(
                mapped(*settings),
                topology,
            ),
            Err(e) => first_violation(*settings) matches Some(v) && e == Error::Validation(v),
        },
{
    let p = match map_frequency_settings(settings) {
        Ok(p) => p,
        Err(v) => {
            return Err(Error::Validation(v));
        },
    };
    let mut steps: Vec<Step> = vec![
        Step::Reset(true),
        Step::WaitUs(RESET_HOLD_US),
        Step::Reset(false),
        Step::WaitUs(BOOT_WAIT_US),
    ];
    match topology {
        Topology::Direct => {},
        Topology::Muxed(c) => steps.push(Step::Select(c)),
    }
    assert(steps@ =~= prologue(topology));
    steps.push(Step::CheckIdent);
    let updates = config_update_list(&p);
    let ghost base = steps@;
    let mut i: usize = 0;
    while i < updates.len()
        invariant
            i <= updates@.len(),
            steps@ =~= base + update_steps(updates@.subrange(0, i as int)),
        decreases updates@.len() - i,
    {
        steps.push(Step::Update(updates[i]));
        i = i + 1;
        assert(updates@.subrange(0, i as int) =~= updates@.subrange(0, i - 1).push(
            updates@[i - 1],
        ));
    }
    assert(updates@.subrange(0, i as int) =~= updates@);
    steps.push(Step::RequireSignal(Signal::Crystal));
    steps.push(Step::RequireSignal(Signal::Clkin2));
    steps.push(Step::MonitorLock);
    assert(steps@ =~= setup_steps(p, topology));
    Ok(steps)
}

/// The plan that switches the PLL's reference: one update of the
/// clock-select field, then lock monitoring.
pub fn select_ext_input(external: bool) -> (r: Vec<Step>)
    ensures
        r@ == seq![Step::Update(cksel_update(external)), Step::MonitorLock],
{
    let set: u8 = if external {
        0x00
    } else {
        0x40
    };
    let r = vec![Step::Update(RegUpdate { reg: CKSEL_REG, keep: 0x3f, set }), Step::MonitorLock];
    assert(r@ =~= seq![Step::Update(cksel_update(external)), Step::MonitorLock]);
    r
}

/// The bring-up plan reads the product number before it touches any
/// configuration register: only reset, waiting and channel selection come
/// before the identification check, and every register update comes after it.
pub proof fn lemma_ident_precedes_updates(p: FrequencySettings, topology: Topology)
    ensures
        ({
            let s = setup_steps(p, topology);
            let k = prologue(topology).len() as int;
            &&& s[k] == Step::CheckIdent
            &&& forall|i: int| 0 <= i < k ==> {
                ||| #[trigger] s[i] is Reset
                ||| s[i] is WaitUs
                ||| s[i] is Select
            }
            &&& forall|i: int| 0 <= i < s.len() && #[trigger] s[i] is Update ==> k < i
        }),
{
    let s = setup_steps(p, topology);
    let pre = prologue(topology).push(Step::CheckIdent);
    let ups = update_steps(config_updates(p));
    let k = prologue(topology).len() as int;
    assert(s[k] == pre[k]);
    assert forall|i: int| 0 <= i < k implies {
        ||| #[trigger] s[i] is Reset
        ||| s[i] is WaitUs
        ||| s[i] is Select
    } by {
        assert(s[i] == pre[i]);
    }
}

/// Selecting the input writes clock-select code b00 for the external
/// reference and b01 for free-running mode, keeps the register's other bits,
/// and is followed by lock monitoring.
pub proof fn lemma_select_input_code(external: bool, old: u8)
    ensures
        cksel_update(external).reg == CKSEL_REG,
        cksel_update(external).value(old) >> 6 == (if external { 0u8 } else { 1u8 }),
        cksel_update(external).value(old) & 0x3f == old & 0x3f,
{
    let v = cksel_update(external).value(old);
    if external {
        assert(v >> 6 == 0 && v & 0x3f == old & 0x3f) by (bit_vector)
            requires
                v == (old & 0x3fu8) | 0u8,
        ;
    } else {
        assert(v >> 6 == 1 && v & 0x3f == old & 0x3f) by (bit_vector)
            requires
                v == (old & 0x3fu8) | 0x40u8,
        ;
    }
}

/// The three bytes of a value below 2^24, most significant first, make up
/// the value.
pub proof fn lemma_bytes_compose(x: u32)
    requires
        x < 0x100_0000,
    ensures
        byte_at(x, 16) as int * 65536 + byte_at(x, 8) as int * 256 + byte_at(x, 0) as int == x,
{
    let b2: u32 = (x >> 16u32) & 0xffu32;
    let b1: u32 = (x >> 8u32) & 0xffu32;
    let b0: u32 = (x >> 0u32) & 0xffu32;
    assert(b2 < 256 && b1 < 256 && b0 < 256) by (bit_vector)
        requires
            b2 == (x >> 16u32) & 0xffu32,
            b1 == (x >> 8u32) & 0xffu32,
            b0 == (x >> 0u32) & 0xffu32,
    ;
    assert(b2 * 65536 + b1 * 256 + b0 == x) by (bit_vector)
        requires
            x < 0x100_0000u32,
            b2 == (x >> 16u32) & 0xffu32,
            b1 == (x >> 8u32) & 0xffu32,
            b0 == (x >> 0u32) & 0xffu32,
    ;
}

/// For accepted settings with non-zero ratios, the divider registers hold
/// the mapped values: each high-speed code in bits 7:5 of its register, and
/// each low-speed and input divider split most significant byte first.
pub proof fn lemma_divider_registers(s: FrequencySettings)
    requires
        crate::mapper::accepted(s),
        s.nc1_ls >= 1,
        s.n2_ls >= 1,
        s.n31 >= 1,
        s.n32 >= 1,
    ensures
        ({
            let p = mapped(s);
            let u = config_updates(p);
            &&& u[6] == blind(25, p.n1_hs << 5)
            &&& p.n1_hs << 5 >> 5 == p.n1_hs
            &&& u[7].set as int * 65536 + u[8].set as int * 256 + u[9].set as int == p.nc1_ls
            &&& u[10].set >> 5 == p.n2_hs
            &&& (u[10].set & 0x0f) as int * 65536 + u[11].set as int * 256 + u[12].set as int
                == p.n2_ls
            &&& u[13].set as int * 65536 + u[14].set as int * 256 + u[15].set as int == p.n31
            &&& u[16].set as int * 65536 + u[17].set as int * 256 + u[18].set as int == p.n32
        }),
{
    let p = mapped(s);
    lemma_bytes_compose(p.nc1_ls);
    lemma_bytes_compose(p.n2_ls);
    lemma_bytes_compose(p.n31);
    lemma_bytes_compose(p.n32);
    let (h1, h2, n2) = (p.n1_hs, p.n2_hs, p.n2_ls);
    let top = byte_at(n2, 16);
    assert(h1 << 5 >> 5 == h1) by (bit_vector)
        requires
            h1 < 8u8,
    ;
    assert(top < 16) by (bit_vector)
        requires
            top == ((n2 >> 16u32) & 0xffu32) as u8,
            n2 < 0x10_0000u32,
    ;
    assert(((h2 << 5) | top) >> 5 == h2 && ((h2 << 5) | top) & 0x0f == top) by (bit_vector)
        requires
            h2 < 8u8,
            top < 16u8,
    ;
}

} // verus!
