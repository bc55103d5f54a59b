use minivmm::error::VmmError;
use minivmm::image::detect_and_load;
use minivmm::image::entry_of;
use minivmm::image::find_entrypoint;
use minivmm::image::probe;
use minivmm::image::LoadedImage;
use minivmm::image::ObjectKind;
use minivmm::image::MIN_OBJECT_LEN;

fn put16(bytes: &mut [u8], at: usize, value: u16) {
    bytes[at..at + 2].copy_from_slice(&value.to_le_bytes());
}

fn put32(bytes: &mut [u8], at: usize, value: u32) {
    bytes[at..at + 4].copy_from_slice(&value.to_le_bytes());
}

fn put64(bytes: &mut [u8], at: usize, value: u64) {
    bytes[at..at + 8].copy_from_slice(&value.to_le_bytes());
}

/// A 64-bit little-endian ELF header without program or section headers.
fn elf64(entry: u64) -> Vec<u8> {
    let mut bytes = vec![0u8; 64];
    bytes[0..4].copy_from_slice(&[0x7f, b'E', b'L', b'F']);
    bytes[4] = 2;
    bytes[5] = 1;
    bytes[6] = 1;
    put16(&mut bytes, 16, 2);
    put16(&mut bytes, 18, 0x3e);
    put32(&mut bytes, 20, 1);
    put64(&mut bytes, 24, entry);
    put16(&mut bytes, 52, 64);
    put16(&mut bytes, 54, 56);
    put16(&mut bytes, 58, 64);
    bytes
}

/// A PE32+ image that is nothing but its headers.
fn pe64(image_base: u64, entry_rva: u32) -> Vec<u8> {
    let pe_pointer: usize = 0x80;
    let optional: usize = pe_pointer + 4 + 20;
    let mut bytes = vec![0u8; 0x200];
    bytes[0] = b'M';
    bytes[1] = b'Z';
    put32(&mut bytes, 0x3c, pe_pointer as u32);
    bytes[pe_pointer..pe_pointer + 4].copy_from_slice(&[b'P', b'E', 0, 0]);
    put16(&mut bytes, pe_pointer + 4, 0x8664);
    put16(&mut bytes, pe_pointer + 6, 0);
    put16(&mut bytes, pe_pointer + 20, 240);
    put16(&mut bytes, pe_pointer + 22, 0x22);
    put16(&mut bytes, optional, 0x20b);
    put32(&mut bytes, optional + 16, entry_rva);
    put64(&mut bytes, optional + 24, image_base);
    put32(&mut bytes, optional + 32, 0x1000);
    put32(&mut bytes, optional + 36, 0x200);
    put32(&mut bytes, optional + 56, 0x1000);
    put32(&mut bytes, optional + 60, 0x200);
    put16(&mut bytes, optional + 68, 10);
    put32(&mut bytes, optional + 108, 16);
    bytes
}

#[test]
fn an_empty_buffer_is_an_empty_image() {
    assert_eq!(find_entrypoint(&[]), Err(VmmError::EmptyImage));
    assert_eq!(detect_and_load(&[], 0x1000, false).err(), Some(VmmError::EmptyImage));
    assert_eq!(detect_and_load(&[], 0x1000, true).err(), Some(VmmError::EmptyImage));
    assert_eq!(detect_and_load(&[], 0, true).err(), Some(VmmError::EmptyImage));
    assert_eq!(LoadedImage::flat(&[], 0x1000).err(), Some(VmmError::EmptyImage));
}

#[test]
fn a_flat_binary_starts_at_its_load_address() {
    let image = detect_and_load(&[0xf4], 0x1000, true).unwrap();
    assert_eq!(image.entrypoint(), 0x1000);
    assert_eq!(image.load_addr(), 0x1000);
    assert_eq!(image.bytes().as_slice(), &[0xf4]);
    assert_eq!(image.len(), 1);
    let direct = LoadedImage::flat(&[0xee, 0xf4], 0x7c00).unwrap();
    assert_eq!(direct.entrypoint(), 0x7c00);
    assert_eq!(direct.load_addr(), 0x7c00);
    assert_eq!(direct.bytes().as_slice(), &[0xee, 0xf4]);
}

#[test]
fn without_the_fallback_a_flat_binary_is_not_recognized() {
    assert_eq!(detect_and_load(&[0xf4], 0x1000, false).err(), Some(VmmError::UnrecognizedFormat));
    assert_eq!(find_entrypoint(&[0xf4]), Err(VmmError::UnrecognizedFormat));
    assert_eq!(find_entrypoint(&[0u8; 15]), Err(VmmError::UnrecognizedFormat));
    assert_eq!(find_entrypoint(&[0u8; 64]), Err(VmmError::UnrecognizedFormat));
}

#[test]
fn entry_points_of_parsed_objects() {
    assert_eq!(entry_of(ObjectKind::Pe { image_base: 0x40_0000, entry_rva: 0x1000 }), Some(0x40_1000));
    assert_eq!(entry_of(ObjectKind::Pe { image_base: 0, entry_rva: 0 }), Some(0));
    assert_eq!(
        entry_of(ObjectKind::Pe { image_base: u64::MAX - 1, entry_rva: 1 }),
        Some(u64::MAX)
    );
    assert_eq!(entry_of(ObjectKind::Pe { image_base: u64::MAX, entry_rva: 1 }), None);
    assert_eq!(entry_of(ObjectKind::Elf { entry: 0x40_1000 }), Some(0x40_1000));
    assert_eq!(entry_of(ObjectKind::Other), None);
    assert_eq!(entry_of(ObjectKind::Rejected), None);
}

#[test]
fn short_buffers_are_not_probed() {
    assert_eq!(MIN_OBJECT_LEN, 16);
    assert_eq!(probe(&[]), ObjectKind::Rejected);
    assert_eq!(probe(&[0x7f, b'E', b'L', b'F']), ObjectKind::Rejected);
    assert_eq!(probe(&[b'M'; 15]), ObjectKind::Rejected);
}

#[test]
fn terse_executables_are_not_containers() {
    let mut bytes = vec![0u8; 64];
    bytes[0] = b'V';
    bytes[1] = b'Z';
    assert_eq!(probe(&bytes), ObjectKind::Other);
    assert_eq!(find_entrypoint(&bytes), Err(VmmError::UnrecognizedFormat));
}

/// A 64-bit Mach-O image with a main command and a text segment that lies
/// further into the file than into memory.
fn mach_o_with_text_behind_its_address(magic: [u8; 4]) -> Vec<u8> {
    let mut bytes = vec![0u8; 32 + 72 + 24 + 64];
    bytes[0..4].copy_from_slice(&magic);
    put32(&mut bytes, 4, 0x0100_0007);
    put32(&mut bytes, 8, 3);
    put32(&mut bytes, 12, 2);
    put32(&mut bytes, 16, 2);
    put32(&mut bytes, 20, 72 + 24);
    let segment: usize = 32;
    put32(&mut bytes, segment, 0x19);
    put32(&mut bytes, segment + 4, 72);
    bytes[segment + 8..segment + 14].copy_from_slice(b"__TEXT");
    put64(&mut bytes, segment + 24, 0);
    put64(&mut bytes, segment + 32, 0x1000);
    put64(&mut bytes, segment + 40, 0x1000);
    put64(&mut bytes, segment + 48, 0);
    let main: usize = segment + 72;
    put32(&mut bytes, main, 0x8000_0028);
    put32(&mut bytes, main + 4, 24);
    put64(&mut bytes, main + 8, u64::MAX);
    bytes
}

#[test]
fn mach_o_images_are_passed_over_unread() {
    for magic in [
        [0xcf, 0xfa, 0xed, 0xfe],
        [0xce, 0xfa, 0xed, 0xfe],
        [0xfe, 0xed, 0xfa, 0xcf],
        [0xfe, 0xed, 0xfa, 0xce],
    ] {
        let bytes = mach_o_with_text_behind_its_address(magic);
        assert_eq!(probe(&bytes), ObjectKind::Other);
        assert_eq!(find_entrypoint(&bytes), Err(VmmError::UnrecognizedFormat));
        assert_eq!(
            detect_and_load(&bytes, 0x1000, false).err(),
            Some(VmmError::UnrecognizedFormat)
        );
    }
}

#[test]
fn a_mach_o_image_within_the_firmware_is_skipped() {
    let mut bytes = vec![0x11u8; 7];
    bytes.extend_from_slice(&mach_o_with_text_behind_its_address([0xcf, 0xfa, 0xed, 0xfe]));
    bytes.extend_from_slice(&elf64(0x8000));
    assert_eq!(find_entrypoint(&bytes), Ok(0x8000));
}

#[test]
fn fat_binaries_and_archives_are_passed_over_unread() {
    let mut fat = vec![0xffu8; 64];
    fat[0..4].copy_from_slice(&[0xca, 0xfe, 0xba, 0xbe]);
    assert_eq!(probe(&fat), ObjectKind::Other);
    assert_eq!(find_entrypoint(&fat), Err(VmmError::UnrecognizedFormat));
    let mut archive = vec![0xffu8; 64];
    archive[0..8].copy_from_slice(b"!<arch>\n");
    assert_eq!(probe(&archive), ObjectKind::Other);
    assert_eq!(find_entrypoint(&archive), Err(VmmError::UnrecognizedFormat));
}

#[test]
fn a_coff_stub_before_the_image_is_skipped() {
    let mut bytes = vec![0u8; 40];
    bytes[0] = 0x64;
    bytes[1] = 0x86;
    assert_eq!(probe(&bytes), ObjectKind::Other);
    assert_eq!(find_entrypoint(&bytes), Err(VmmError::UnrecognizedFormat));
    bytes.extend_from_slice(&pe64(0x40_0000, 0x1000));
    assert_eq!(find_entrypoint(&bytes), Ok(0x40_1000));
}

#[test]
fn the_parser_s_debug_records_are_compiled_out() {
    assert_eq!(log::STATIC_MAX_LEVEL, log::LevelFilter::Info);
}

#[test]
fn a_pe_image_with_a_section_at_the_top_of_its_address_space_is_read() {
    let mut bytes = pe64(0x40_0000, 0x1000);
    let pe_pointer: usize = 0x80;
    put16(&mut bytes, pe_pointer + 6, 1);
    let section: usize = pe_pointer + 4 + 20 + 240;
    bytes[section..section + 5].copy_from_slice(b".text");
    put32(&mut bytes, section + 8, 0xffff_ffff);
    put32(&mut bytes, section + 12, 0xffff_f000);
    put32(&mut bytes, section + 16, 0);
    put32(&mut bytes, section + 20, 0);
    let export_directory: usize = pe_pointer + 4 + 20 + 112;
    put32(&mut bytes, export_directory, 0x10);
    put32(&mut bytes, export_directory + 4, 0x28);
    assert_eq!(find_entrypoint(&bytes), Ok(0x40_1000));
}

#[test]
fn unknown_magic_is_no_container() {
    assert_eq!(probe(&[0x11u8; 32]), ObjectKind::Other);
    assert_eq!(entry_of(probe(&[0x11u8; 32])), None);
}

#[test]
fn an_elf_header_gives_its_entry() {
    let bytes = elf64(0x40_1000);
    assert_eq!(probe(&bytes), ObjectKind::Elf { entry: 0x40_1000 });
    assert_eq!(find_entrypoint(&bytes), Ok(0x40_1000));
    let other = elf64(0xffff_f000);
    assert_eq!(find_entrypoint(&other), Ok(0xffff_f000));
}

#[test]
fn a_truncated_elf_header_is_rejected() {
    let bytes = elf64(0x40_1000);
    assert_eq!(probe(&bytes[..32]), ObjectKind::Rejected);
    assert_eq!(find_entrypoint(&bytes[..32]), Err(VmmError::UnrecognizedFormat));
}

#[test]
fn a_pe_header_gives_base_plus_entry_offset() {
    let bytes = pe64(0x1_4000_0000, 0x1234);
    assert_eq!(probe(&bytes), ObjectKind::Pe { image_base: 0x1_4000_0000, entry_rva: 0x1234 });
    assert_eq!(find_entrypoint(&bytes), Ok(0x1_4000_1234));
}

#[test]
fn leading_bytes_before_the_container_are_skipped() {
    let mut bytes = vec![0x11u8; 37];
    bytes.extend_from_slice(&elf64(0x8000));
    assert_eq!(find_entrypoint(&bytes), Ok(0x8000));
    let image = detect_and_load(&bytes, 0x2000, false).unwrap();
    assert_eq!(image.entrypoint(), 0x8000);
    assert_eq!(image.load_addr(), 0x2000);
    assert_eq!(image.bytes().as_slice(), bytes.as_slice());
}

#[test]
fn the_first_container_wins() {
    let mut bytes = elf64(0x1111);
    bytes.extend_from_slice(&pe64(0x40_0000, 0x10));
    assert_eq!(find_entrypoint(&bytes), Ok(0x1111));
    let mut reversed = pe64(0x40_0000, 0x10);
    reversed.extend_from_slice(&elf64(0x1111));
    assert_eq!(find_entrypoint(&reversed), Ok(0x40_0010));
}

#[test]
fn a_container_is_preferred_to_the_flat_fallback() {
    let bytes = elf64(0x9000);
    let image = detect_and_load(&bytes, 0x1000, true).unwrap();
    assert_eq!(image.entrypoint(), 0x9000);
    assert_eq!(image.load_addr(), 0x1000);
}

#[test]
fn detection_is_deterministic() {
    let mut bytes = vec![0x22u8; 5];
    bytes.extend_from_slice(&pe64(0x40_0000, 0x400));
    let first = detect_and_load(&bytes, 0x1000, false).unwrap();
    let second = detect_and_load(&bytes, 0x1000, false).unwrap();
    assert_eq!(
        (first.entrypoint(), first.load_addr()),
        (second.entrypoint(), second.load_addr())
    );
    assert_eq!(first.entrypoint(), 0x40_0400);
    let flat_one = detect_and_load(&[0x90, 0xf4], 0x500, true).unwrap();
    let flat_two = detect_and_load(&[0x90, 0xf4], 0x500, true).unwrap();
    assert_eq!(
        (flat_one.entrypoint(), flat_one.load_addr()),
        (flat_two.entrypoint(), flat_two.load_addr())
    );
}
