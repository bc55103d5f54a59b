//! Image loading: finds an executable container in a firmware image and
//! settles where the image is loaded and where execution starts.

use vstd::prelude::*;
use vstd::slice::slice_subrange;
use vstd::slice::slice_to_vec;
use crate::error::VmmError;

verus! {

/// No container is looked for in fewer bytes than this.
pub const MIN_OBJECT_LEN: usize = 16;

/// What the container parser made of a buffer.
#[derive(Debug, Clone, Copy, PartialEq, Eq, Structural)]
pub enum ObjectKind {
    /// A PE image, with its preferred base and the offset of its entry point
    /// from that base.
    Pe { image_base: u64, entry_rva: u32 },
    /// An ELF image, with the entry address of its header.
    Elf { entry: u64 },
    /// Bytes that start like no container the loader can use.
    Other,
    /// Nothing the parser could read.
    Rejected,
}

/// The result of `goblin::Object::parse` on `bytes`, reduced to the kind of
/// object and the header fields the loader reads.
pub uninterp spec fn goblin_object(bytes: Seq<u8>) -> ObjectKind;

/// Whether `bytes` start with the magic of an ELF image (`0x7f`, `ELF`).
pub open spec fn has_elf_magic(bytes: Seq<u8>) -> bool {
    bytes.len() >= 4 && bytes[0] == 0x7fu8 && bytes[1] == 0x45u8 && bytes[2] == 0x4cu8 && bytes[3]
        == 0x46u8
}

/// Whether `bytes` start with the magic of a DOS header (`MZ`), with which
/// every PE image starts.
pub open spec fn has_dos_magic(bytes: Seq<u8>) -> bool {
    bytes.len() >= 2 && bytes[0] == 0x4du8 && bytes[1] == 0x5au8
}

/// What the loader makes of a buffer. Fewer than `MIN_OBJECT_LEN` bytes hold
/// no container, and none is looked for on a machine whose `usize` is
/// narrower than 64 bits. Only bytes that start with the ELF or the DOS
/// magic are put to the parser; everything else, a COFF stub, a terse
/// executable, a Mach-O image or an archive among them, is no container
/// the loader can use and is passed over unread.
pub open spec fn object_at(bytes: Seq<u8>) -> ObjectKind {
    if bytes.len() < MIN_OBJECT_LEN || usize::BITS != 64 {
        ObjectKind::Rejected
    } else if has_elf_magic(bytes) || has_dos_magic(bytes) {
        goblin_object(bytes)
    } else {
        ObjectKind::Other
    }
}

/// The entry point a parsed object stands for: image base plus entry offset
/// for PE, provided the sum is an address; the header's entry for ELF;
/// none for anything else.
pub open spec fn recognized_entry(kind: ObjectKind) -> Option<u64> {
    match kind {
        ObjectKind::Pe { image_base, entry_rva } => if image_base + entry_rva <= u64::MAX {
            Some((image_base + entry_rva) as u64)
        } else {
            None
        },
        ObjectKind::Elf { entry } => Some(entry),
        _ => None,
    }
}

/// The entry point of the container that starts at `offset`, if one does.
pub open spec fn entry_at(bytes: Seq<u8>, offset: int) -> Option<u64> {
    recognized_entry(object_at(bytes.skip(offset)))
}

/// `offset` is the first offset of `bytes` at which a container starts, and
/// `entry` is that container's entry point.
pub open spec fn first_container(bytes: Seq<u8>, offset: int, entry: u64) -> bool {
    &&& 0 <= offset < bytes.len()
    &&& entry_at(bytes, offset) == Some(entry)
    &&& forall|j: int| 0 <= j < offset ==> (#[trigger] entry_at(bytes, j)) is None
}

/// `entry` is the entry point of the first container in `bytes`.
pub open spec fn first_entry(bytes: Seq<u8>, entry: u64) -> bool {
    exists|offset: int| #[trigger] first_container(bytes, offset, entry)
}

/// No container starts at any offset of `bytes`.
pub open spec fn no_container(bytes: Seq<u8>) -> bool {
    forall|j: int| 0 <= j < bytes.len() ==> (#[trigger] entry_at(bytes, j)) is None
}

/// Calls `goblin::Object::parse` and keeps, of what it returns, the variant
/// and the entry fields of a PE or ELF object; an error of the parser is
/// `Rejected`. The contract only names the result: it is a function of the
/// bytes.
///
/// Only buffers of at least `MIN_OBJECT_LEN` bytes that start with the ELF
/// or the DOS magic are admitted, and only where `usize` has 64 bits, so
/// that of the parser's paths only those for ELF and PE are ever taken.
/// Its paths for Mach-O images, fat binaries, archives, COFF objects and
/// terse executables are never entered: the one for Mach-O subtracts two
/// fields of the image from each other without a check, and the others
/// were not read.
///
/// What is known of the two paths that are taken: the arithmetic on fields
/// of the image that was read in them is checked, or follows a test of the
/// bounds, or is done in `usize` on fields of 32 bits, which cannot wrap
/// where `usize` has 64 bits. The one unchecked sum of two 32-bit fields
/// that was found stands in the argument of a debug record, and this crate
/// builds `log` with `max_level_info`, which compiles the parser's debug
/// records out. Neither path was read to its last line.
#[verifier::external_body]
fn parse_object(bytes: &[u8]) -> (kind: ObjectKind)
    requires
        usize::BITS == 64,
        bytes@.len() >= MIN_OBJECT_LEN,
        has_elf_magic(bytes@) || has_dos_magic(bytes@),
    ensures
        kind == goblin_object(bytes@),
{
    match goblin::Object::parse(bytes) {
        Ok(goblin::Object::PE(pe)) => ObjectKind::Pe { image_base: pe.image_base, entry_rva: pe.entry },
        Ok(goblin::Object::Elf(elf)) => ObjectKind::Elf { entry: elf.entry },
        Ok(_) => ObjectKind::Other,
        Err(_) => ObjectKind::Rejected,
    }
}

/// Classifies the object that starts at the first byte of `bytes`.
pub fn probe(bytes: &[u8]) -> (kind: ObjectKind)
    ensures
        kind == object_at(bytes@),
{
    if bytes.len() < MIN_OBJECT_LEN || usize::BITS != 64 {
        ObjectKind::Rejected
    } else if (bytes[0] == 0x7f && bytes[1] == 0x45 && bytes[2] == 0x4c && bytes[3] == 0x46) || (
    bytes[0] == 0x4d && bytes[1] == 0x5a) {
        parse_object(bytes)
    } else {
        ObjectKind::Other
    }
}

/// The entry point of a parsed object, if it is a container the loader
/// supports.
pub fn entry_of(kind: ObjectKind) -> (entry: Option<u64>)
    ensures
        entry == recognized_entry(kind),
{
    match kind {
        ObjectKind::Pe { image_base, entry_rva } => image_base.checked_add(entry_rva as u64),
        ObjectKind::Elf { entry } => Some(entry),
        _ => None,
    }
}

/// Scans `firmware_code` for the first offset at which a PE or ELF container
/// starts and returns that container's entry point. Leading bytes that are
/// no container the loader can use, a COFF stub among them, are skipped. An empty buffer is
/// `EmptyImage`; a buffer without a container is `UnrecognizedFormat`.
pub fn find_entrypoint(firmware_code: &[u8]) -> (found: Result<u64, VmmError>)
    ensures
        match found {
            Ok(entry) => first_entry(firmware_code@, entry),
            Err(e) => {
                &&& no_container(firmware_code@)
                &&& e == if firmware_code@.len() == 0 {
                    VmmError::EmptyImage
                } else {
                    VmmError::UnrecognizedFormat
                }
            },
        },
{
    let len: usize = firmware_code.len();
    if len == 0 {
        return Err(VmmError::EmptyImage);
    }
    let mut i: usize = 0;
    while i < len && len - i >= MIN_OBJECT_LEN
        invariant
            0 <= i <= len,
            len == firmware_code@.len(),
            forall|j: int| 0 <= j < i ==> (#[trigger] entry_at(firmware_code@, j)) is None,
        decreases len - i,
    {
        let rest = slice_subrange(firmware_code, i, len);
        assert(rest@ =~= firmware_code@.skip(i as int));
        match entry_of(probe(rest)) {
            Some(entry) => {
                assert(first_container(firmware_code@, i as int, entry));
                return Ok(entry);
            },
            None => {},
        }
        i += 1;
    }
    assert forall|j: int| 0 <= j < len implies (#[trigger] entry_at(firmware_code@, j)) is None by {
        if j >= i {
            assert(firmware_code@.skip(j).len() < MIN_OBJECT_LEN);
        }
    }
    Err(VmmError::UnrecognizedFormat)
}

/// An image ready to be placed in guest memory.
#[derive(Debug)]
pub struct LoadedImage {
    bytes: Vec<u8>,
    entrypoint: u64,
    load_addr: u64,
}

/// Where an image starts executing: at the entry point of its first
/// container, or, for an image without one that is taken as a flat binary,
/// at its load address. An empty image and, without the fallback, an image
/// without a container are errors.
pub open spec fn detected_entry(
    bytes: Seq<u8>,
    load_addr: u64,
    flat_fallback: bool,
    entry: Result<u64, VmmError>,
) -> bool {
    match entry {
        Ok(entry) => {
            &&& bytes.len() > 0
            &&& first_entry(bytes, entry) || (no_container(bytes) && flat_fallback && entry
                == load_addr)
        },
        Err(e) => {
            &&& no_container(bytes)
            &&& e == if bytes.len() == 0 {
                VmmError::EmptyImage
            } else {
                VmmError::UnrecognizedFormat
            }
            &&& bytes.len() == 0 || !flat_fallback
        },
    }
}

impl LoadedImage {
    /// An image is never empty.
    #[verifier::type_invariant]
    spec fn inv(&self) -> bool {
        self.bytes@.len() > 0
    }

    /// The bytes to place in guest memory.
    pub closed spec fn spec_bytes(&self) -> Seq<u8> {
        self.bytes@
    }

    /// Guest address at which execution starts.
    pub closed spec fn spec_entrypoint(&self) -> u64 {
        self.entrypoint
    }

    /// Guest address at which the first byte is placed.
    pub closed spec fn spec_load_addr(&self) -> u64 {
        self.load_addr
    }

    /// A flat binary: it has no header and starts executing at its first
    /// byte, so its entry point is its load address. No bytes at all are
    /// `EmptyImage`.
    pub fn flat(bytes: &[u8], load_addr: u64) -> (image: Result<LoadedImage, VmmError>)
        ensures
            match image {
                Ok(image) => {
                    &&& image.spec_bytes() == bytes@
                    &&& image.spec_entrypoint() == load_addr
                    &&& image.spec_load_addr() == load_addr
                },
                Err(e) => e == VmmError::EmptyImage,
            },
            image is Ok <==> bytes@.len() > 0,
    {
        if bytes.len() == 0 {
            return Err(VmmError::EmptyImage);
        }
        Ok(LoadedImage { bytes: slice_to_vec(bytes), entrypoint: load_addr, load_addr })
    }

    /// The bytes to place in guest memory; there is at least one.
    pub fn bytes(&self) -> (bytes: &Vec<u8>)
        ensures
            bytes@ == self.spec_bytes(),
            bytes@.len() > 0,
    {
        proof {
            use_type_invariant(self);
        }
        &self.bytes
    }

    /// Number of bytes of the image, never zero.
    pub fn len(&self) -> (len: usize)
        ensures
            len == self.spec_bytes().len(),
            len > 0,
    {
        proof {
            use_type_invariant(self);
        }
        self.bytes.len()
    }

    /// Guest address at which execution starts.
    pub fn entrypoint(&self) -> (entry: u64)
        ensures
            entry == self.spec_entrypoint(),
    {
        self.entrypoint
    }

    /// Guest address at which the first byte is placed.
    pub fn load_addr(&self) -> (addr: u64)
        ensures
            addr == self.spec_load_addr(),
    {
        self.load_addr
    }
}

/// Reads an image from raw bytes. The buffer is scanned for the first PE or
/// ELF container, whose header gives the entry point. With `flat_fallback`
/// an image without a container is a flat binary that starts at
/// `load_addr`; without it such an image is `UnrecognizedFormat`. An empty
/// buffer is `EmptyImage`. The image keeps all of `bytes` and is to be
/// placed at `load_addr`.
pub fn detect_and_load(bytes: &[u8], load_addr: u64, flat_fallback: bool) -> (image: Result<
    LoadedImage,
    VmmError,
>)
    ensures
        match image {
            Ok(image) => {
                &&& image.spec_bytes() == bytes@
                &&& image.spec_load_addr() == load_addr
                &&& detected_entry(bytes@, load_addr, flat_fallback, Ok(image.spec_entrypoint()))
            },
            Err(e) => detected_entry(bytes@, load_addr, flat_fallback, Err(e)),
        },
{
    match find_entrypoint(bytes) {
        Ok(entrypoint) => Ok(LoadedImage { bytes: slice_to_vec(bytes), entrypoint, load_addr }),
        Err(VmmError::EmptyImage) => Err(VmmError::EmptyImage),
        Err(e) => {
            if flat_fallback {
                LoadedImage::flat(bytes, load_addr)
            } else {
                Err(e)
            }
        },
    }
}

/// Detection is a function of its input: two outcomes for the same buffer,
/// load address and fallback choice agree on success or failure, on the
/// entry point and on the error.
pub proof fn lemma_detection_is_deterministic(
    bytes: Seq<u8>,
    load_addr: u64,
    flat_fallback: bool,
    first: Result<u64, VmmError>,
    second: Result<u64, VmmError>,
)
    requires
        detected_entry(bytes, load_addr, flat_fallback, first),
        detected_entry(bytes, load_addr, flat_fallback, second),
    ensures
        first == second,
{
    match (first, second) {
        (Ok(a), Ok(b)) => {
            if first_entry(bytes, a) {
                let i = choose|offset: int| #[trigger] first_container(bytes, offset, a);
                if first_entry(bytes, b) {
                    let j = choose|offset: int| #[trigger] first_container(bytes, offset, b);
                    if i < j {
                        assert(entry_at(bytes, i) is None);
                    } else if j < i {
                        assert(entry_at(bytes, j) is None);
                    }
                } else {
                    assert(entry_at(bytes, i) is None);
                }
            } else {
                if first_entry(bytes, b) {
                    let j = choose|offset: int| #[trigger] first_container(bytes, offset, b);
                    assert(entry_at(bytes, j) is None);
                }
            }
        },
        (Ok(a), Err(_)) => {
            if first_entry(bytes, a) {
                let i = choose|offset: int| #[trigger] first_container(bytes, offset, a);
                assert(entry_at(bytes, i) is None);
            }
        },
        (Err(_), Ok(b)) => {
            if first_entry(bytes, b) {
                let j = choose|offset: int| #[trigger] first_container(bytes, offset, b);
                assert(entry_at(bytes, j) is None);
            }
        },
        (Err(_), Err(_)) => {},
    }
}

/// An empty buffer is never an image, and a buffer too short for a header
/// holds no container.
pub proof fn lemma_short_buffers(bytes: Seq<u8>, load_addr: u64, flat_fallback: bool)
    ensures
        bytes.len() < MIN_OBJECT_LEN ==> no_container(bytes),
        bytes.len() == 0 ==> detected_entry(
            bytes,
            load_addr,
            flat_fallback,
            Err(VmmError::EmptyImage),
        ),
        0 < bytes.len() < MIN_OBJECT_LEN ==> detected_entry(
            bytes,
            load_addr,
            flat_fallback,
            if flat_fallback {
                Ok(load_addr)
            } else {
                Err(VmmError::UnrecognizedFormat)
            },
        ),
{
    if bytes.len() < MIN_OBJECT_LEN {
        assert forall|j: int| 0 <= j < bytes.len() implies (#[trigger] entry_at(bytes, j)) is None by {
            assert(bytes.skip(j).len() < MIN_OBJECT_LEN);
        }
    }
}

} // verus!
