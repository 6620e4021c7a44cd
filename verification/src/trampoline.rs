//! Trampoline synthesizer.
//!
//! For an export that no hook claims, the shim exposes an entry point that
//! performs an unconditional, frameless jump through the export's address
//! slot: control transfers with the argument registers and the caller's
//! stack frame untouched, so the trampoline needs no knowledge of the
//! export's signature. This module emits that instruction for the 64-bit
//! x86 instruction set: an indirect `jmp` through the memory cell whose
//! distance from the instruction's end is a signed 32-bit displacement.
use vstd::prelude::*;

use crate::bytes::le32;

verus! {

/// Length in bytes of the emitted jump instruction.
pub const JUMP_LEN: usize = 6;

/// The signed value a 32-bit displacement field encodes (two's complement).
pub open spec fn signed32(d: int) -> int {
    if d < 0x8000_0000 {
        d
    } else {
        d - 0x1_0000_0000
    }
}

/// The six instruction bytes of an indirect jump through the cell that lies
/// `signed32(d)` bytes past the instruction's end: the two-byte opcode,
/// then the displacement, least significant byte first.
pub open spec fn spec_jump(d: int) -> Seq<u8> {
    seq![
        0xff,
        0x25,
        (d % 0x100) as u8,
        (d / 0x100 % 0x100) as u8,
        (d / 0x1_0000 % 0x100) as u8,
        (d / 0x100_0000 % 0x100) as u8,
    ]
}

/// The displacement field can be read back off the instruction bytes: the
/// emitted code alone determines where the jump goes.
pub proof fn lemma_jump_encodes(d: int)
    requires
        0 <= d < 0x1_0000_0000,
    ensures
        le32(spec_jump(d), 2) == d,
{
    vstd::arithmetic::div_mod::lemma_fundamental_div_mod(d, 0x100);
    vstd::arithmetic::div_mod::lemma_fundamental_div_mod(d / 0x100, 0x100);
    vstd::arithmetic::div_mod::lemma_fundamental_div_mod(d / 0x1_0000, 0x100);
    assert(d / 0x100_0000 < 0x100) by (nonlinear_arith)
        requires
            0 <= d < 0x1_0000_0000,
    ;
    assert(d / 0x100 / 0x100 == d / 0x1_0000) by (nonlinear_arith)
        requires
            d >= 0,
    ;
    assert(d / 0x1_0000 / 0x100 == d / 0x100_0000) by (nonlinear_arith)
        requires
            d >= 0,
    ;
}

/// The raw 32-bit displacement that makes a jump placed at `tramp_addr`
/// land on `slot_addr`, when that distance fits a signed 32-bit field.
pub fn displacement(tramp_addr: u64, slot_addr: u64) -> (r: Option<u32>)
    ensures
        match r {
            Some(d) => signed32(d as int) == slot_addr - (tramp_addr + JUMP_LEN),
            None => !(-0x8000_0000 <= slot_addr - (tramp_addr + JUMP_LEN) <= 0x7fff_ffff),
        },
{
    let delta: i128 = slot_addr as i128 - tramp_addr as i128 - 6;
    if delta < -0x8000_0000 || delta > 0x7fff_ffff {
        return None;
    }
    if delta >= 0 {
        Some(delta as u32)
    } else {
        Some((delta + 0x1_0000_0000) as u32)
    }
}

/// Emits the trampoline for one export: the jump instruction that, placed
/// at `tramp_addr`, transfers control through the address slot at
/// `slot_addr`. Fails exactly when the slot lies too far from the
/// trampoline for a 32-bit displacement.
pub fn make_trampoline(tramp_addr: u64, slot_addr: u64) -> (r: Option<(u32, Vec<u8>)>)
    ensures
        match r {
            Some((d, code)) => {
                &&& code@ == spec_jump(d as int)
                &&& code@.len() == JUMP_LEN
                &&& tramp_addr + JUMP_LEN + signed32(d as int) == slot_addr
            },
            None => !(-0x8000_0000 <= slot_addr - (tramp_addr + JUMP_LEN) <= 0x7fff_ffff),
        },
{
    let d = match displacement(tramp_addr, slot_addr) {
        None => {
            return None;
        },
        Some(d) => d,
    };
    let mut code: Vec<u8> = Vec::new();
    code.push(0xff);
    code.push(0x25);
    code.push((d % 0x100) as u8);
    code.push((d / 0x100 % 0x100) as u8);
    code.push((d / 0x1_0000 % 0x100) as u8);
    code.push((d / 0x100_0000 % 0x100) as u8);
    proof {
        assert(code@ =~= spec_jump(d as int));
    }
    Some((d, code))
}

} // verus!
