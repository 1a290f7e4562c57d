//! Register numbers of the chip, decoding of its status registers, and
//! read-modify-write updates.
use vstd::prelude::*;

use crate::error::{Error, Signal};

verus! {

/// High byte of the product number.
pub const IDENT_HI_REG: u8 = 134;

/// Low byte of the product number.
pub const IDENT_LO_REG: u8 = 135;

/// The product number the chip must report.
pub const EXPECTED_IDENT: u16 = 0x0182;

/// Loss-of-signal interrupt flags (bit 0: crystal, bit 2: CLKIN2).
pub const LOS_STATUS_REG: u8 = 129;

/// Loss-of-lock interrupt flag (bit 0).
pub const LOL_STATUS_REG: u8 = 130;

/// Whether bit `b` of `v` is set.
pub open spec fn bit(v: u8, b: u8) -> bool {
    (v >> b) & 1 == 1
}

/// The 16-bit product number from its two register bytes.
pub fn ident(hi: u8, lo: u8) -> (r: u16)
    ensures
        r == hi as int * 256 + lo as int,
{
    let r: u16 = ((hi as u16) << 8) | (lo as u16);
    assert(r == hi as u16 * 256 + lo as u16) by (bit_vector)
        requires
            r == ((hi as u16) << 8u16) | (lo as u16),
    ;
    r
}

/// Accepts the product number bytes only when they form the expected number.
pub fn check_ident(hi: u8, lo: u8) -> (r: Result<(), Error>)
    ensures
        r is Ok <==> hi as int * 256 + lo as int == EXPECTED_IDENT,
        r is Err ==> r == Err::<(), Error>(Error::IdentityMismatch),
{
    if ident(hi, lo) != EXPECTED_IDENT {
        Err(Error::IdentityMismatch)
    } else {
        Ok(())
    }
}

/// The crystal signal is present when its loss-of-signal flag is clear.
pub fn has_xtal(status: u8) -> (r: bool)
    ensures
        r == !bit(status, 0),
{
    let r = status & 0x01 == 0;
    assert(r == !((status >> 0u8) & 1u8 == 1u8)) by (bit_vector)
        requires
            r == (status & 0x01u8 == 0u8),
    ;
    r
}

/// CLKIN2 is present when its loss-of-signal flag is clear.
pub fn has_clkin2(status: u8) -> (r: bool)
    ensures
        r == !bit(status, 2),
{
    let r = status & 0x04 == 0;
    assert(r == !((status >> 2u8) & 1u8 == 1u8)) by (bit_vector)
        requires
            r == (status & 0x04u8 == 0u8),
    ;
    r
}

/// The PLL is locked when its loss-of-lock flag is clear.
pub fn locked(status: u8) -> (r: bool)
    ensures
        r == !bit(status, 0),
{
    let r = status & 0x01 == 0;
    assert(r == !((status >> 0u8) & 1u8 == 1u8)) by (bit_vector)
        requires
            r == (status & 0x01u8 == 0u8),
    ;
    r
}

/// Accepts a loss-of-signal status only when `signal` is present.
pub fn require_signal(signal: Signal, status: u8) -> (r: Result<(), Error>)
    ensures
        r is Ok <==> (match signal {
            Signal::Crystal => !bit(status, 0),
            Signal::Clkin2 => !bit(status, 2),
        }),
        r is Err ==> r == Err::<(), Error>(Error::MissingSignal(signal)),
{
    let present = match signal {
        Signal::Crystal => has_xtal(status),
        Signal::Clkin2 => has_clkin2(status),
    };
    if present {
        Ok(())
    } else {
        Err(Error::MissingSignal(signal))
    }
}

/// A register update: the new value keeps the bits of the old one that
/// `keep` selects and sets those of `set`. With `keep == 0` the old value
/// plays no part and the register is written without being read.
#[derive(Clone, Copy, Debug, PartialEq, Eq, Structural)]
pub struct RegUpdate {
    pub reg: u8,
    pub keep: u8,
    pub set: u8,
}

impl RegUpdate {
    pub open spec fn value(self, old: u8) -> u8 {
        (old & self.keep) | self.set
    }

    /// Whether the register has to be read before it is written.
    pub fn reads_first(&self) -> (r: bool)
        ensures
            r == (self.keep != 0),
    {
        self.keep != 0
    }

    /// The value to write, given the value read (any value when nothing was read).
    pub fn apply(&self, old: u8) -> (r: u8)
        ensures
            r == self.value(old),
    {
        (old & self.keep) | self.set
    }
}

/// A blind write ignores the value it would have read.
pub proof fn lemma_blind_write(u: RegUpdate, a: u8, b: u8)
    requires
        u.keep == 0,
    ensures
        u.value(a) == u.value(b),
        u.value(a) == u.set,
{
    let (k, s) = (u.keep, u.set);
    assert((a & k) | s == s && (b & k) | s == s) by (bit_vector)
        requires
            k == 0u8,
    ;
}

} // verus!
