//! The serial console: guest output is gathered into lines that end in a NUL
//! byte, guest input is handed over one byte at a time.

use vstd::prelude::*;
use crate::error::VmmError;

verus! {

/// The byte a guest reads when nothing is waiting on the input.
pub const NO_INPUT: u8 = 0;

/// What one read of a single byte from the input source gave.
#[derive(Debug, Clone, Copy, PartialEq, Eq, Structural)]
pub enum ReadOutcome {
    /// A byte arrived.
    Byte(u8),
    /// The source is open but holds nothing now.
    NoInput,
    /// The source is closed or the read failed.
    Failed,
}

impl ReadOutcome {
    /// What a read into a one-byte buffer amounts to. `count` is the number
    /// of bytes the read gave, or nothing where it failed; `byte` is the
    /// buffer after the read. A read of no bytes means that no input is
    /// waiting.
    pub open spec fn spec_of_read(count: Option<usize>, byte: u8) -> ReadOutcome {
        match count {
            None => ReadOutcome::Failed,
            Some(n) => if n == 0 {
                ReadOutcome::NoInput
            } else {
                ReadOutcome::Byte(byte)
            },
        }
    }

    /// Classifies a read into a one-byte buffer.
    pub fn of_read(count: Option<usize>, byte: u8) -> (outcome: ReadOutcome)
        ensures
            outcome == ReadOutcome::spec_of_read(count, byte),
    {
        match count {
            None => ReadOutcome::Failed,
            Some(n) => if n == 0 {
                ReadOutcome::NoInput
            } else {
                ReadOutcome::Byte(byte)
            },
        }
    }
}

/// One step of the line buffer: `chunk` is appended to `buffer`; a buffer
/// that then holds a NUL byte leaves as a line and the buffer starts anew.
/// The result is the new buffer and the line that left, if any.
pub open spec fn feed(buffer: Seq<u8>, chunk: Seq<u8>) -> (Seq<u8>, Option<Seq<u8>>) {
    let joined = buffer + chunk;
    if joined.contains(0u8) {
        (Seq::empty(), Some(joined))
    } else {
        (joined, None)
    }
}

/// `feed` over a run of chunks: the buffer at the end and the lines that
/// left on the way, oldest first.
pub open spec fn feed_all(buffer: Seq<u8>, chunks: Seq<Seq<u8>>) -> (Seq<u8>, Seq<Seq<u8>>)
    decreases chunks.len(),
{
    if chunks.len() == 0 {
        (buffer, Seq::empty())
    } else {
        let before = feed_all(buffer, chunks.drop_last());
        let step = feed(before.0, chunks.last());
        match step.1 {
            Some(line) => (step.0, before.1.push(line)),
            None => (step.0, before.1),
        }
    }
}

/// All chunks laid end to end.
pub open spec fn joined(chunks: Seq<Seq<u8>>) -> Seq<u8>
    decreases chunks.len(),
{
    if chunks.len() == 0 {
        Seq::empty()
    } else {
        joined(chunks.drop_last()) + chunks.last()
    }
}

/// A serial port of the guest.
#[derive(Debug)]
pub struct SerialPort {
    port: u32,
    line_buffer: Vec<u8>,
}

impl SerialPort {
    /// A line is flushed as soon as its NUL arrives, so none is ever kept.
    #[verifier::type_invariant]
    spec fn holds_no_terminator(&self) -> bool {
        !self.line_buffer@.contains(0u8)
    }

    /// The I/O port the device answers on.
    pub closed spec fn spec_port(&self) -> u32 {
        self.port
    }

    /// The bytes written by the guest since the last flush.
    pub closed spec fn buffered(&self) -> Seq<u8> {
        self.line_buffer@
    }

    /// A port with an empty line buffer.
    pub fn new(port: u32) -> (serial: SerialPort)
        ensures
            serial.spec_port() == port,
            serial.buffered() == Seq::<u8>::empty(),
    {
        SerialPort { port, line_buffer: Vec::new() }
    }

    /// The I/O port the device answers on.
    pub fn port(&self) -> (port: u32)
        ensures
            port == self.spec_port(),
    {
        self.port
    }

    /// How many bytes wait for their terminator. None of them is a NUL.
    pub fn pending(&self) -> (n: usize)
        ensures
            n == self.buffered().len(),
            !self.buffered().contains(0u8),
    {
        proof {
            use_type_invariant(self);
        }
        self.line_buffer.len()
    }

    /// The guest wrote `data` to the port. The bytes join the line buffer;
    /// if the buffer then holds a NUL byte, all of it is returned as one line
    /// for the output sink and the buffer is emptied.
    pub fn data_out(&mut self, data: &[u8]) -> (line: Option<Vec<u8>>)
        ensures
            final(self).spec_port() == old(self).spec_port(),
            final(self).buffered() == feed(old(self).buffered(), data@).0,
            match line {
                Some(bytes) => feed(old(self).buffered(), data@).1 == Some(bytes@),
                None => feed(old(self).buffered(), data@).1 is None,
            },
    {
        proof {
            use_type_invariant(&*self);
        }
        let ghost before = self.line_buffer@;
        let mut line: Vec<u8> = Vec::new();
        core::mem::swap(&mut self.line_buffer, &mut line);
        line.extend_from_slice(data);
        assert(line@ =~= before + data@);
        if has_terminator(data) {
            proof {
                let k = choose|k: int| 0 <= k < data@.len() && data@[k] == 0u8;
                assert(line@[before.len() + k] == 0u8);
            }
            Some(line)
        } else {
            proof {
                assert forall|j: int| 0 <= j < line@.len() implies line@[j] != 0u8 by {
                    if j < before.len() {
                        assert(before.contains(line@[j]));
                    } else {
                        assert(data@.contains(line@[j]));
                    }
                }
            }
            core::mem::swap(&mut self.line_buffer, &mut line);
            None
        }
    }

    /// The guest reads the port. `read` is what one read of a single byte
    /// from the input source gave: the byte itself, `NO_INPUT` where nothing
    /// was waiting, an error where the source is closed or failed.
    pub fn data_in(&self, read: ReadOutcome) -> (byte: Result<u8, VmmError>)
        ensures
            byte == spec_data_in(read),
    {
        match read {
            ReadOutcome::Byte(b) => Ok(b),
            ReadOutcome::NoInput => Ok(NO_INPUT),
            ReadOutcome::Failed => Err(VmmError::SerialInput),
        }
    }
}

/// What the guest reads for each outcome of the read on the input source.
pub open spec fn spec_data_in(read: ReadOutcome) -> Result<u8, VmmError> {
    match read {
        ReadOutcome::Byte(b) => Ok(b),
        ReadOutcome::NoInput => Ok(NO_INPUT),
        ReadOutcome::Failed => Err(VmmError::SerialInput),
    }
}

/// Whether `data` holds the line terminator.
pub fn has_terminator(data: &[u8]) -> (found: bool)
    ensures
        found == data@.contains(0u8),
{
    let mut i: usize = 0;
    while i < data.len()
        invariant
            0 <= i <= data@.len(),
            forall|j: int| 0 <= j < i ==> data@[j] != 0u8,
        decreases data@.len() - i,
    {
        if data[i] == 0 {
            return true;
        }
        i += 1;
    }
    false
}

/// Bytes without a NUL never leave the buffer: whatever the number of
/// writes, nothing is flushed and the buffer holds them all in order.
pub proof fn lemma_no_terminator_never_flushes(buffer: Seq<u8>, chunks: Seq<Seq<u8>>)
    requires
        !buffer.contains(0u8),
        forall|i: int| 0 <= i < chunks.len() ==> !(#[trigger] chunks[i]).contains(0u8),
    ensures
        feed_all(buffer, chunks).1.len() == 0,
        feed_all(buffer, chunks).0 == buffer + joined(chunks),
        !feed_all(buffer, chunks).0.contains(0u8),
    decreases chunks.len(),
{
    if chunks.len() == 0 {
        assert(buffer + joined(chunks) =~= buffer);
    } else {
        let head = chunks.drop_last();
        assert forall|i: int| 0 <= i < head.len() implies !(#[trigger] head[i]).contains(0u8) by {
            assert(head[i] == chunks[i]);
        }
        lemma_no_terminator_never_flushes(buffer, head);
        let before = feed_all(buffer, head).0;
        let all = before + chunks.last();
        assert forall|j: int| 0 <= j < all.len() implies all[j] != 0u8 by {
            if j < before.len() {
                assert(before.contains(all[j]));
            } else {
                assert(chunks.last().contains(all[j]));
            }
        }
        assert(all =~= buffer + joined(chunks));
    }
}

/// A line written in pieces leaves in one piece: when only the last of
/// several writes brings a NUL, exactly one line is flushed, it holds every
/// byte written since the buffer was last empty, and the buffer is empty again.
pub proof fn lemma_terminator_flushes_once(buffer: Seq<u8>, chunks: Seq<Seq<u8>>)
    requires
        chunks.len() > 0,
        !buffer.contains(0u8),
        forall|i: int| 0 <= i < chunks.len() - 1 ==> !(#[trigger] chunks[i]).contains(0u8),
        chunks.last().contains(0u8),
    ensures
        feed_all(buffer, chunks).1 == seq![buffer + joined(chunks)],
        feed_all(buffer, chunks).0 == Seq::<u8>::empty(),
{
    let head = chunks.drop_last();
    assert forall|i: int| 0 <= i < head.len() implies !(#[trigger] head[i]).contains(0u8) by {
        assert(head[i] == chunks[i]);
    }
    lemma_no_terminator_never_flushes(buffer, head);
    let before = feed_all(buffer, head).0;
    let all = before + chunks.last();
    let k = choose|k: int| 0 <= k < chunks.last().len() && chunks.last()[k] == 0u8;
    assert(all[before.len() + k] == 0u8);
    assert(all =~= buffer + joined(chunks));
    assert(feed_all(buffer, chunks).1 =~= seq![buffer + joined(chunks)]);
}

} // verus!
