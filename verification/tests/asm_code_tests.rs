use minivmm::asm_code::asm_mmio_rw_test;

#[test]
fn mmio_rw_test_program_is_24_bytes_and_ends_in_hlt() {
    let code = asm_mmio_rw_test();
    assert_eq!(code.len(), 24);
    assert_eq!(code[23], 0xf4);
}

#[test]
fn mmio_rw_test_program_has_the_expected_bytes() {
    let expected: [u8; 24] = [
        0xba, 0xf8, 0x03, 0x00, 0x00, 0x00, 0xd8, 0x04, b'0', 0xee, 0xec, 0xba, 0x00, 0x00, 0x00,
        0x80, 0x67, 0xc7, 0x02, 0x78, 0x56, 0x34, 0x12, 0xf4,
    ];
    assert_eq!(asm_mmio_rw_test(), &expected[..]);
}

#[test]
fn mmio_rw_test_program_writes_then_reads_the_port() {
    let code = asm_mmio_rw_test();
    assert_eq!(code[9], 0xee);
    assert_eq!(code[10], 0xec);
    assert_eq!(&code[0..5], &[0xba, 0xf8, 0x03, 0x00, 0x00]);
}
