//! The interrupt-mask half of the critical section: pure models of the
//! atomic read-and-clear and read-and-set instructions on the hart's status
//! register, the restore token they exchange, and the decode step that
//! re-derives the mask from a captured token.

use vstd::prelude::*;

verus! {

/// The master interrupt-enable bit of the status register.
pub const MASTER_ENABLE: u64 = 0b1000;

/// The supervisor-mode delegation interrupt-enable bit.
pub const DELEGATE_ENABLE: u64 = 0b0010;

/// The low field of the status register that the restore decode inspects.
pub const LOW_FIELD: u64 = 0b1111;

/// The bits of the low field that no recognized mask ever targets; a
/// captured token with any of them set is corrupt or forged.
pub const UNRECOGNIZED_LOW_BITS: u64 = 0b0101;

/// Which interrupt-enable bits a deployment masks on entry: one immediate
/// constant out of a small fixed set. The restore path must match a captured
/// token against this same fixed set.
#[derive(Clone, Copy, PartialEq, Eq, Structural, Debug)]
pub enum MaskPattern {
    /// Mask the master bit together with the supervisor delegation bit.
    MasterAndDelegate,
    /// Mask only the master interrupt-enable bit.
    MasterOnly,
    /// Mask only the supervisor delegation bit.
    DelegateOnly,
    /// Mask no bits at all.
    Neither,
}

/// A corrupt or forged restore token: its low field matches none of the
/// four recognized mask patterns. Finding one at release time is fatal.
#[derive(Clone, Copy, PartialEq, Eq, Structural, Debug)]
pub struct CorruptToken {
    /// The offending captured value.
    pub token: u64,
}

impl MaskPattern {
    /// The immediate bit pattern this mask stands for.
    pub open spec fn bits(self) -> u64 {
        match self {
            MaskPattern::MasterAndDelegate => 0b1010,
            MaskPattern::MasterOnly => 0b1000,
            MaskPattern::DelegateOnly => 0b0010,
            MaskPattern::Neither => 0b0000,
        }
    }

    /// The immediate operand to encode into the register instructions.
    pub fn imm(self) -> (r: u64)
        ensures
            r == self.bits(),
    {
        match self {
            MaskPattern::MasterAndDelegate => 0b1010,
            MaskPattern::MasterOnly => 0b1000,
            MaskPattern::DelegateOnly => 0b0010,
            MaskPattern::Neither => 0b0000,
        }
    }
}

/// Whether a captured token's low field matches one of the four recognized
/// mask patterns — exactly the tokens that the restore decode accepts.
pub open spec fn recognized(token: u64) -> bool {
    ||| token & LOW_FIELD == 0b1010
    ||| token & LOW_FIELD == 0b1000
    ||| token & LOW_FIELD == 0b0010
    ||| token & LOW_FIELD == 0b0000
}

/// Model of the uninterruptible read-and-clear instruction issued on entry:
/// in one step, clear the configured interrupt-enable bits of the status
/// register and hand back the register's full prior value as the restore
/// token.
pub fn disable_bits(reg: u64, cfg: MaskPattern) -> (r: (u64, u64))
    ensures
        r.0 == reg & !cfg.bits(),
        r.1 == reg,
{
    let imm = cfg.imm();
    (reg & !imm, reg)
}

/// The restore-time decode: match the token's low field against the same
/// fixed set of masks that entry chooses from, and report a corrupt token
/// on any other value. Succeeds exactly on recognized tokens.
pub fn decode_token(token: u64) -> (r: Result<MaskPattern, CorruptToken>)
    ensures
        r is Ok <==> recognized(token),
        r matches Ok(p) ==> p.bits() == token & LOW_FIELD,
        r matches Err(e) ==> e.token == token,
{
    let low = token & LOW_FIELD;
    if low == 0b1010 {
        Ok(MaskPattern::MasterAndDelegate)
    } else if low == 0b1000 {
        Ok(MaskPattern::MasterOnly)
    } else if low == 0b0010 {
        Ok(MaskPattern::DelegateOnly)
    } else if low == 0b0000 {
        Ok(MaskPattern::Neither)
    } else {
        Err(CorruptToken { token })
    }
}

/// Model of the uninterruptible read-and-set instruction issued on exit:
/// atomically set exactly the bits of the decoded pattern, leaving every
/// other bit of the register untouched.
pub fn restore_bits(reg: u64, p: MaskPattern) -> (r: u64)
    ensures
        r == reg | p.bits(),
{
    reg | p.imm()
}

/// Law: round-trip restoration, full-pattern token encoding. First, the
/// restore decode accepts a captured register value exactly when none of
/// the never-targeted low bits is set — on any other value release aborts
/// instead of restoring. Second, for every configured mask, clearing the
/// configured bits on entry and then setting back all captured low-field
/// bits on exit leaves the register bit-for-bit equal to its initial value.
pub proof fn lemma_restore_round_trip(reg: u64, cfg: MaskPattern)
    ensures
        recognized(reg) <==> reg & UNRECOGNIZED_LOW_BITS == 0,
        ((reg & !cfg.bits()) | (reg & LOW_FIELD)) == reg,
{
    assert((reg & 0b1111 == 0b1010 || reg & 0b1111 == 0b1000 || reg & 0b1111 == 0b0010 || reg
        & 0b1111 == 0b0000) <==> reg & 0b0101 == 0) by (bit_vector);
    let b = cfg.bits();
    assert(b == 0b1010 || b == 0b1000 || b == 0b0010 || b == 0b0000);
    assert(((reg & !b) | (reg & 0b1111)) == reg) by (bit_vector)
        requires
            b == 0b1010 || b == 0b1000 || b == 0b0010 || b == 0b0000,
    ;
}

/// Model of entry in the single-boolean token encoding: atomically clear
/// only the master interrupt-enable bit and record, as the whole token,
/// whether it was set beforehand.
pub fn disable_master(reg: u64) -> (r: (u64, bool))
    ensures
        r.0 == reg & !MASTER_ENABLE,
        r.1 == (reg & MASTER_ENABLE != 0),
{
    (reg & !MASTER_ENABLE, reg & MASTER_ENABLE != 0)
}

/// Model of exit in the single-boolean token encoding: set the master bit
/// again exactly if the token says it was set on entry, touching nothing
/// otherwise.
pub fn restore_master(reg: u64, was_enabled: bool) -> (r: u64)
    ensures
        r == if was_enabled {
            reg | MASTER_ENABLE
        } else {
            reg
        },
{
    if was_enabled {
        reg | MASTER_ENABLE
    } else {
        reg
    }
}

/// Law: round-trip restoration, single-boolean token encoding. Clearing
/// the master bit on entry and conditionally setting it again on exit
/// leaves the register bit-for-bit equal to its initial value, for every
/// initial value — this encoding has no unrecognizable token and no fatal
/// path.
pub proof fn lemma_master_round_trip(reg: u64)
    ensures
        ({
            let masked = reg & !MASTER_ENABLE;
            let was_enabled = reg & MASTER_ENABLE != 0;
            (if was_enabled {
                masked | MASTER_ENABLE
            } else {
                masked
            }) == reg
        }),
{
    assert(reg & 0b1000 != 0 ==> ((reg & !0b1000) | 0b1000) == reg) by (bit_vector);
    assert(reg & 0b1000 == 0 ==> (reg & !0b1000) == reg) by (bit_vector);
}

} // verus!
