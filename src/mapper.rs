//! Validation and register encoding of the logical PLL divider settings.
use vstd::prelude::*;

verus! {

/// Largest accepted value of `nc1_ls` and `n2_ls` (2^20).
pub const LS_MAX: u32 = 0x10_0000;

/// Largest accepted value of `n31` and `n32` (2^19).
pub const N3_MAX: u32 = 0x8_0000;

/// PLL divider ratios and bandwidth selection.
///
/// As supplied by a caller these are the logical values reported by the
/// chip's design tool; after `map_frequency_settings` the same shape holds
/// the physical register values.
#[derive(Clone, Copy, Debug, PartialEq, Eq, Structural)]
pub struct FrequencySettings {
    pub n1_hs: u8,
    pub nc1_ls: u32,
    pub n2_hs: u8,
    pub n2_ls: u32,
    pub n31: u32,
    pub n32: u32,
    pub bwsel: u8,
}

/// Which divider field a validation failure concerns.
#[derive(Clone, Copy, Debug, PartialEq, Eq, Structural)]
pub enum Field {
    N1Hs,
    Nc1Ls,
    N2Hs,
    N2Ls,
    N31,
    N32,
}

/// Why a field was rejected.
#[derive(Clone, Copy, Debug, PartialEq, Eq, Structural)]
pub enum Reason {
    /// The value must be even (for `nc1_ls`: zero or even).
    NotEven,
    /// The value is above the field's upper bound.
    TooHigh,
    /// The value is not one of the accepted high-speed divider ratios.
    InvalidValue,
}

#[derive(Clone, Copy, Debug, PartialEq, Eq, Structural)]
pub struct ValidationError {
    pub field: Field,
    pub reason: Reason,
}

/// The high-speed dividers accept the ratios 4 to 11.
pub open spec fn hs_ok(v: u8) -> bool {
    4 <= v <= 11
}

/// Whether one field of `s` meets its constraint.
pub open spec fn field_ok(s: FrequencySettings, f: Field) -> bool {
    match f {
        Field::N1Hs => hs_ok(s.n1_hs),
        Field::Nc1Ls => (s.nc1_ls == 0 || s.nc1_ls % 2 == 0) && s.nc1_ls <= LS_MAX,
        Field::N2Hs => hs_ok(s.n2_hs),
        Field::N2Ls => s.n2_ls % 2 == 0 && s.n2_ls <= LS_MAX,
        Field::N31 => s.n31 <= N3_MAX,
        Field::N32 => s.n32 <= N3_MAX,
    }
}

/// The settings that validation accepts.
pub open spec fn accepted(s: FrequencySettings) -> bool {
    &&& hs_ok(s.n1_hs)
    &&& hs_ok(s.n2_hs)
    &&& s.nc1_ls == 0 || s.nc1_ls % 2 == 0
    &&& s.nc1_ls <= LS_MAX
    &&& s.n2_ls % 2 == 0
    &&& s.n2_ls <= LS_MAX
    &&& s.n31 <= N3_MAX
    &&& s.n32 <= N3_MAX
}

/// The first violated constraint, in the order in which they are checked.
pub open spec fn first_violation(s: FrequencySettings) -> Option<ValidationError> {
    if s.nc1_ls != 0 && s.nc1_ls % 2 == 1 {
        Some(ValidationError { field: Field::Nc1Ls, reason: Reason::NotEven })
    } else if s.nc1_ls > LS_MAX {
        Some(ValidationError { field: Field::Nc1Ls, reason: Reason::TooHigh })
    } else if s.n2_ls % 2 == 1 {
        Some(ValidationError { field: Field::N2Ls, reason: Reason::NotEven })
    } else if s.n2_ls > LS_MAX {
        Some(ValidationError { field: Field::N2Ls, reason: Reason::TooHigh })
    } else if s.n31 > N3_MAX {
        Some(ValidationError { field: Field::N31, reason: Reason::TooHigh })
    } else if s.n32 > N3_MAX {
        Some(ValidationError { field: Field::N32, reason: Reason::TooHigh })
    } else if !hs_ok(s.n1_hs) {
        Some(ValidationError { field: Field::N1Hs, reason: Reason::InvalidValue })
    } else if !hs_ok(s.n2_hs) {
        Some(ValidationError { field: Field::N2Hs, reason: Reason::InvalidValue })
    } else {
        None
    }
}

/// The register encoding of a low-speed or input divider: the ratio minus
/// one, modulo 2^32 (so a ratio of zero encodes as all ones).
pub open spec fn minus_one(x: u32) -> u32 {
    if x == 0 {
        u32::MAX
    } else {
        (x - 1) as u32
    }
}

/// The physical register values of accepted settings.
pub open spec fn mapped(s: FrequencySettings) -> FrequencySettings {
    FrequencySettings {
        n1_hs: (s.n1_hs - 4) as u8,
        nc1_ls: minus_one(s.nc1_ls),
        n2_hs: (s.n2_hs - 4) as u8,
        n2_ls: minus_one(s.n2_ls),
        n31: minus_one(s.n31),
        n32: minus_one(s.n32),
        bwsel: s.bwsel,
    }
}

/// The 3-bit register code of a high-speed divider ratio.
fn hs_code(v: u8) -> (r: Option<u8>)
    ensures
        r == (if hs_ok(v) { Some((v - 4) as u8) } else { None::<u8> }),
{
    if 4 <= v && v <= 11 {
        Some(v - 4)
    } else {
        None
    }
}

fn encode_minus_one(x: u32) -> (r: u32)
    ensures
        r == minus_one(x),
{
    x.wrapping_sub(1)
}

/// Validates `settings` and encodes them as physical register values.
///
/// The constraints are checked in a fixed order and the first one violated
/// is reported.
pub fn map_frequency_settings(settings: &FrequencySettings) -> (r: Result<
    FrequencySettings,
    ValidationError,
>)
    ensures
        match r {
            Ok(p) => first_violation(*settings).is_none() && p == mapped(*settings),
            Err(e) => first_violation(*settings) == Some(e),
        },
{
    if settings.nc1_ls != 0 && settings.nc1_ls % 2 == 1 {
        return Err(ValidationError { field: Field::Nc1Ls, reason: Reason::NotEven });
    }
    if settings.nc1_ls > LS_MAX {
        return Err(ValidationError { field: Field::Nc1Ls, reason: Reason::TooHigh });
    }
    if settings.n2_ls % 2 == 1 {
        return Err(ValidationError { field: Field::N2Ls, reason: Reason::NotEven });
    }
    if settings.n2_ls > LS_MAX {
        return Err(ValidationError { field: Field::N2Ls, reason: Reason::TooHigh });
    }
    if settings.n31 > N3_MAX {
        return Err(ValidationError { field: Field::N31, reason: Reason::TooHigh });
    }
    if settings.n32 > N3_MAX {
        return Err(ValidationError { field: Field::N32, reason: Reason::TooHigh });
    }
    let n1_hs = match hs_code(settings.n1_hs) {
        Some(c) => c,
        None => {
            return Err(ValidationError { field: Field::N1Hs, reason: Reason::InvalidValue });
        },
    };
    let n2_hs = match hs_code(settings.n2_hs) {
        Some(c) => c,
        None => {
            return Err(ValidationError { field: Field::N2Hs, reason: Reason::InvalidValue });
        },
    };
    Ok(
        FrequencySettings {
            n1_hs,
            nc1_ls: encode_minus_one(settings.nc1_ls),
            n2_hs,
            n2_ls: encode_minus_one(settings.n2_ls),
            n31: encode_minus_one(settings.n31),
            n32: encode_minus_one(settings.n32),
            bwsel: settings.bwsel,
        },
    )
}

/// Validation accepts exactly the settings whose fields all meet their
/// constraints; a rejection names a field whose constraint is violated.
pub proof fn lemma_validation_exact(s: FrequencySettings)
    ensures
        first_violation(s).is_none() <==> accepted(s),
        accepted(s) <==> (forall|f: Field| field_ok(s, f)),
        first_violation(s) matches Some(e) ==> !field_ok(s, e.field),
{
    if accepted(s) {
        assert forall|f: Field| field_ok(s, f) by {
            match f {
                Field::N1Hs => {},
                Field::Nc1Ls => {},
                Field::N2Hs => {},
                Field::N2Ls => {},
                Field::N31 => {},
                Field::N32 => {},
            }
        }
    } else {
        if hs_ok(s.n1_hs) && !hs_ok(s.n2_hs) {
            assert(!field_ok(s, Field::N2Hs));
        } else if !hs_ok(s.n1_hs) {
            assert(!field_ok(s, Field::N1Hs));
        } else if !((s.nc1_ls == 0 || s.nc1_ls % 2 == 0) && s.nc1_ls <= LS_MAX) {
            assert(!field_ok(s, Field::Nc1Ls));
        } else if !(s.n2_ls % 2 == 0 && s.n2_ls <= LS_MAX) {
            assert(!field_ok(s, Field::N2Ls));
        } else if s.n31 > N3_MAX {
            assert(!field_ok(s, Field::N31));
        } else {
            assert(!field_ok(s, Field::N32));
        }
    }
}

/// For accepted settings each high-speed divider code is the ratio minus four.
pub proof fn lemma_hs_codes(s: FrequencySettings)
    requires
        accepted(s),
    ensures
        mapped(s).n1_hs == s.n1_hs - 4,
        mapped(s).n2_hs == s.n2_hs - 4,
        mapped(s).n1_hs < 8,
        mapped(s).n2_hs < 8,
{
}

/// For accepted settings each low-speed and input divider is encoded as its
/// ratio minus one (for a non-zero ratio) and `bwsel` is kept.
pub proof fn lemma_ratio_codes(s: FrequencySettings)
    requires
        accepted(s),
    ensures
        s.nc1_ls >= 1 ==> mapped(s).nc1_ls == s.nc1_ls - 1,
        s.n2_ls >= 1 ==> mapped(s).n2_ls == s.n2_ls - 1,
        s.n31 >= 1 ==> mapped(s).n31 == s.n31 - 1,
        s.n32 >= 1 ==> mapped(s).n32 == s.n32 - 1,
        mapped(s).bwsel == s.bwsel,
{
}

} // verus!
