//! The register-to-register operations of the `8XY_` family.

use vstd::prelude::*;

verus! {

/// One operation of the `8XY_` family, on the operands `VX` and `VY`.
#[derive(Clone, Copy, Debug, PartialEq, Eq)]
pub enum AluOp {
    /// `8XY0`: `VX <- VY`.
    Assign,
    /// `8XY1`: `VX <- VX | VY`.
    Or,
    /// `8XY2`: `VX <- VX & VY`.
    And,
    /// `8XY3`: `VX <- VX ^ VY`.
    Xor,
    /// `8XY4`: `VX <- VX + VY`, flag on carry.
    Add,
    /// `8XY5`: `VX <- VX - VY`, flag when nothing is borrowed.
    Sub,
    /// `8XY6`: `VX <- VY >> 1`, flag is bit 0 of `VY`.
    ShiftRight,
    /// `8XY7`: `VX <- VY - VX`, flag when nothing is borrowed.
    SubFrom,
    /// `8XYE`: `VX <- VY << 1`, flag is bit 7 of `VY`.
    ShiftLeft,
}

/// What an operation leaves in `VX` and, where it sets the flag, in `VF`.
#[derive(Clone, Copy, Debug, PartialEq, Eq)]
pub struct AluResult {
    /// The new value of `VX`.
    pub value: u8,
    /// The new value of `VF`, for the operations that set it.
    pub flag: Option<u8>,
}

/// The new `VX` of `op` on `vx` and `vy`, as arithmetic modulo 256.
pub open spec fn alu_value(op: AluOp, vx: u8, vy: u8) -> u8 {
    match op {
        AluOp::Assign => vy,
        AluOp::Or => vx | vy,
        AluOp::And => vx & vy,
        AluOp::Xor => vx ^ vy,
        AluOp::Add => ((vx + vy) % 256) as u8,
        AluOp::Sub => ((vx - vy) % 256) as u8,
        AluOp::ShiftRight => vy / 2,
        AluOp::SubFrom => ((vy - vx) % 256) as u8,
        AluOp::ShiftLeft => ((vy * 2) % 256) as u8,
    }
}

/// The new `VF` of `op` on `vx` and `vy`, or `None` where `op` leaves the
/// flag alone. Subtraction raises the flag when there is no borrow.
pub open spec fn alu_flag(op: AluOp, vx: u8, vy: u8) -> Option<u8> {
    match op {
        AluOp::Assign | AluOp::Or | AluOp::And | AluOp::Xor => None,
        AluOp::Add => Some(if vx + vy >= 256 { 1u8 } else { 0u8 }),
        AluOp::Sub => Some(if vx >= vy { 1u8 } else { 0u8 }),
        AluOp::ShiftRight => Some(vy % 2),
        AluOp::SubFrom => Some(if vy >= vx { 1u8 } else { 0u8 }),
        AluOp::ShiftLeft => Some(vy / 128),
    }
}

/// Addition yields the sum modulo 256 and raises the flag exactly when the
/// sum does not fit a byte.
pub proof fn lemma_add_carries(a: u8, b: u8)
    ensures
        alu_value(AluOp::Add, a, b) == (a + b) % 256,
        alu_flag(AluOp::Add, a, b) == Some(1u8) <==> a + b >= 256,
        alu_flag(AluOp::Add, a, b) == Some(0u8) <==> a + b < 256,
{
}

/// Subtraction yields the difference modulo 256 and raises the flag
/// exactly when nothing is borrowed.
pub proof fn lemma_sub_borrows(a: u8, b: u8)
    ensures
        alu_value(AluOp::Sub, a, b) == (a - b) % 256,
        alu_flag(AluOp::Sub, a, b) == Some(1u8) <==> a >= b,
        alu_flag(AluOp::Sub, a, b) == Some(0u8) <==> a < b,
        alu_value(AluOp::SubFrom, a, b) == alu_value(AluOp::Sub, b, a),
        alu_flag(AluOp::SubFrom, a, b) == alu_flag(AluOp::Sub, b, a),
{
}

/// The shifts take their operand from `VY` alone: whatever `VX` holds, the
/// result is `VY` shifted by one bit and the flag is the bit shifted out.
pub proof fn lemma_shifts_read_vy(a: u8, b: u8)
    ensures
        alu_value(AluOp::ShiftRight, a, b) == b / 2,
        alu_flag(AluOp::ShiftRight, a, b) == Some(b % 2),
        2 * alu_value(AluOp::ShiftRight, a, b) + b % 2 == b,
        alu_value(AluOp::ShiftLeft, a, b) == (2 * b) % 256,
        alu_flag(AluOp::ShiftLeft, a, b) == Some(b / 128),
        alu_value(AluOp::ShiftLeft, a, b) + 256 * (b / 128) == 2 * b,
{
}

/// Computes `op` on the operands `vx` and `vy`.
pub fn alu(op: AluOp, vx: u8, vy: u8) -> (out: AluResult)
    ensures
        out.value == alu_value(op, vx, vy),
        out.flag == alu_flag(op, vx, vy),
{
    match op {
        AluOp::Assign => AluResult { value: vy, flag: None },
        AluOp::Or => AluResult { value: vx | vy, flag: None },
        AluOp::And => AluResult { value: vx & vy, flag: None },
        AluOp::Xor => AluResult { value: vx ^ vy, flag: None },
        AluOp::Add => {
            let carry: u8 = if vx > 255 - vy { 1 } else { 0 };
            AluResult { value: vx.wrapping_add(vy), flag: Some(carry) }
        },
        AluOp::Sub => {
            let no_borrow: u8 = if vx >= vy { 1 } else { 0 };
            AluResult { value: vx.wrapping_sub(vy), flag: Some(no_borrow) }
        },
        AluOp::ShiftRight => {
            assert(vy >> 1 == vy / 2) by (bit_vector);
            assert(vy & 0x01 == vy % 2) by (bit_vector);
            AluResult { value: vy >> 1, flag: Some(vy & 0x01) }
        },
        AluOp::SubFrom => {
            let no_borrow: u8 = if vy >= vx { 1 } else { 0 };
            AluResult { value: vy.wrapping_sub(vx), flag: Some(no_borrow) }
        },
        AluOp::ShiftLeft => {
            assert(vy << 1 == (vy * 2) % 256) by (bit_vector);
            assert((vy & 0x80) >> 7 == vy / 128) by (bit_vector);
            AluResult { value: vy << 1, flag: Some((vy & 0x80) >> 7) }
        },
    }
}

/// The three decimal digits of a byte: hundreds, tens, ones.
pub open spec fn bcd_digits(value: u8) -> (int, int, int) {
    (value as int / 100, (value as int / 10) % 10, value as int % 10)
}

/// Splits a byte into its decimal digits: hundreds, tens, ones.
pub fn bcd(value: u8) -> (digits: (u8, u8, u8))
    ensures
        (digits.0 as int, digits.1 as int, digits.2 as int) == bcd_digits(value),
        value == 100 * digits.0 + 10 * digits.1 + digits.2,
        digits.0 <= 2 && digits.1 <= 9 && digits.2 <= 9,
{
    (value / 100, (value % 100) / 10, value % 10)
}

} // verus!
