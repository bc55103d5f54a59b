//! Diagnostics on guest memory: finds the guest code to show in a crash
//! report and has it disassembled.

use vstd::prelude::*;
use capstone::arch::BuildsCapstone;
use capstone::arch::BuildsCapstoneSyntax;
use crate::ram::Ram;

verus! {

/// A run of guest memory that may be read for a diagnostic.
#[derive(Debug, Clone, Copy, PartialEq, Eq, Structural)]
pub struct CodeWindow {
    /// Guest-physical address of the first byte.
    pub guest_addr: u64,
    /// Host address of the first byte.
    pub host_addr: u64,
    /// Number of readable bytes.
    pub len: usize,
}

/// The bytes to disassemble around the instruction pointer: up to `count`
/// bytes that start at `rip` and end no later than the region that backs
/// `rip`. `None` where `rip` points outside guest memory.
pub fn code_window(ram: &Ram, rip: u64, count: usize) -> (window: Option<CodeWindow>)
    ensures
        match window {
            Some(window) => {
                &&& window.guest_addr == rip
                &&& window.len <= count
                &&& ram.is_window(rip, count, (window.host_addr, window.len))
            },
            None => !ram.backs(rip),
        },
{
    match ram.window_at(rip, count) {
        Some((host_addr, len)) => {
            proof {
                let i = choose|i: int|
                    0 <= i < ram.spec_regions().len() && (#[trigger] ram.spec_regions()[i]).contains(
                        rip,
                    ) && ram.spec_regions()[i].window(rip, count) == (host_addr, len);
                assert(len <= count);
            }
            Some(CodeWindow { guest_addr: rip, host_addr, len })
        },
        None => None,
    }
}

/// A window never leaves guest memory: it starts where its address
/// translates to and lies within one region.
pub proof fn lemma_window_is_backed(ram: Ram, guest_addr: u64, count: usize, window: (u64, usize))
    requires
        ram.wf(),
        ram.is_window(guest_addr, count, window),
    ensures
        ram.spec_to_host_addr(guest_addr) == Some(window.0),
        window.1 <= count,
        ram.backs_range(guest_addr, window.1),
        count > 0 ==> window.1 > 0,
{
    let i = choose|i: int|
        0 <= i < ram.spec_regions().len() && (#[trigger] ram.spec_regions()[i]).contains(guest_addr)
            && ram.spec_regions()[i].window(guest_addr, count) == window;
    assert(ram.spec_regions()[i].contains_range(guest_addr, window.1));
}

/// The listing that capstone gives for `code`, taken to lie at address
/// `addr`: one line for each instruction of 64-bit x86 code, in Intel
/// syntax, with bytes that are no instruction listed as data. A line is the
/// instruction as capstone prints it, then its bytes.
pub uninterp spec fn x86_64_listing(code: Seq<u8>, addr: u64) -> Seq<Seq<char>>;

/// The text of each line.
pub open spec fn text_of(lines: Seq<String>) -> Seq<Seq<char>> {
    lines.map_values(|line: String| line@)
}

/// The lines of a disassembly of `code`: none for no code, capstone's
/// listing otherwise.
pub open spec fn spec_listing(code: Seq<u8>, addr: u64) -> Seq<Seq<char>> {
    if code.len() == 0 {
        Seq::empty()
    } else {
        x86_64_listing(code, addr)
    }
}

/// Builds a capstone disassembler for 64-bit x86 code in Intel syntax
/// (`Capstone::new` up to `build`), has it list data among the code
/// (`Capstone::set_skipdata`), calls `Capstone::disasm_all` on `code` at
/// address `addr` and turns each instruction into a line of text: the
/// instruction as capstone prints it, then its bytes. `None` where any of
/// the three calls reports an error, which depends on the machine. The
/// contract names the lines that come back: with the settings fixed here
/// they are a function of `code` and `addr`. It promises no success.
#[verifier::external_body]
fn capstone_listing(code: &[u8], addr: u64) -> (listing: Option<Vec<String>>)
    ensures
        listing matches Some(lines) ==> text_of(lines@) == x86_64_listing(code@, addr),
{
    let mut cs = capstone::Capstone::new()
        .x86()
        .mode(capstone::arch::x86::ArchMode::Mode64)
        .syntax(capstone::arch::x86::ArchSyntax::Intel)
        .detail(true)
        .build()
        .ok()?;
    cs.set_skipdata(true).ok()?;
    let insns = cs.disasm_all(code, addr).ok()?;
    Some(insns.iter().map(|i| format!("{} {:x?}", i, i.bytes())).collect())
}

/// Disassembles `code`, taken to lie at guest address `addr`, into one line
/// of text for each instruction. No code gives no lines, without a
/// disassembler being asked. For other code the lines are capstone's
/// listing of exactly this code at this address, or there is no answer:
/// a disassembler that cannot be set up or fails is no failure of its own,
/// the diagnostic is left out.
pub fn disassemble(code: &[u8], addr: u64) -> (listing: Option<Vec<String>>)
    ensures
        code@.len() == 0 ==> listing is Some,
        listing matches Some(lines) ==> text_of(lines@) == spec_listing(code@, addr),
{
    if code.len() == 0 {
        let lines: Vec<String> = Vec::new();
        assert(text_of(lines@) =~= Seq::<Seq<char>>::empty());
        return Some(lines);
    }
    capstone_listing(code, addr)
}

} // verus!
