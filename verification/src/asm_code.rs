//! Canned guest programs.

use vstd::prelude::*;

verus! {

/// The bytes of [`asm_mmio_rw_test`], one instruction after the other.
pub open spec fn mmio_rw_test_code() -> Seq<u8> {
    seq![
        0xba, 0xf8, 0x03, 0x00, 0x00,
        0x00, 0xd8,
        0x04, 0x30,
        0xee,
        0xec,
        0xba, 0x00, 0x00, 0x00, 0x80,
        0x67, 0xc7, 0x02, 0x78, 0x56, 0x34, 0x12,
        0xf4,
    ]
}

/// A 24-byte x86 program that writes a digit to port 0x3f8, reads the port
/// back, stores a word at 0x8000_0000 and halts.
pub fn asm_mmio_rw_test() -> (code: &'static [u8])
    ensures
        code@ == mmio_rw_test_code(),
{
    let code: &'static [u8] = &[
        0xba, 0xf8, 0x03, 0x00, 0x00, /* mov $0x3f8, %dx */
        0x00, 0xd8, /* add %bl, %al */
        0x04, 0x30, /* add $'0', %al */
        0xee, /* out %al, %dx */
        0xec, /* in %dx, %al */
        0xba, 0x00, 0x00, 0x00, 0x80, /* mov $0x80000000, %edx */
        0x67, 0xc7, 0x02, 0x78, 0x56, 0x34, 0x12, /* movl $0x12345678, (%edx) */
        0xf4, /* hlt */
    ];
    code
}

} // verus!
