//! The virtual machine and its reaction to VM exits. The caller runs the
//! vCPU, hands each exit to `Vm::run` and carries out what comes back.

use vstd::prelude::*;
use vstd::string::StringExecFns;
use crate::error::VmmError;
use crate::hex::push_hex;
use crate::hex::spec_hex;
use crate::mem_inspection::code_window;
use crate::mem_inspection::disassemble;
use crate::mem_inspection::spec_listing;
use crate::mem_inspection::text_of;
use crate::mem_inspection::CodeWindow;
use crate::ram::Ram;
use crate::serial::feed;
use crate::serial::spec_data_in;
use crate::serial::ReadOutcome;
use crate::serial::SerialPort;
use crate::serial::NO_INPUT;
use crate::vcpu::Segment;
use crate::vcpu::VcpuState;

verus! {

/// How many bytes of code a crash report shows.
pub const CRASH_CODE_BYTES: usize = 0x20;

/// Why the vCPU gave control back to the monitor.
#[derive(Debug)]
pub enum ExitEvent {
    /// The guest reads `width` bytes from an I/O port.
    IoIn { port: u16, width: usize },
    /// The guest wrote `data` to an I/O port.
    IoOut { port: u16, data: Vec<u8> },
    /// The guest reads `width` bytes of memory-mapped I/O.
    MmioRead { addr: u64, width: usize },
    /// The guest wrote `data` to memory-mapped I/O.
    MmioWrite { addr: u64, data: Vec<u8> },
    /// The guest halted.
    Hlt,
    /// The guest shut down or triple-faulted.
    Shutdown,
    /// The hypervisor ran into a fault it cannot recover from.
    InternalError,
    /// The run was interrupted.
    Interrupt,
    /// The guest raised an exception nobody handles.
    Exception,
    /// Any other exit, with the hypervisor's reason code.
    Unhandled(u32),
}

/// A condition after which the guest's state cannot be trusted.
#[derive(Debug, Clone, Copy, PartialEq, Eq, Structural)]
pub enum Fatal {
    /// The run call itself failed.
    RunFailed,
    /// The hypervisor reported an internal error.
    InternalError,
    /// The guest raised an exception nobody handles.
    Exception,
    /// An exit for which there is no handler.
    UnsupportedExit,
}

/// What the dispatch table says of an exit.
#[derive(Debug, Clone, Copy, PartialEq, Eq, Structural)]
pub enum ExitClass {
    /// The exit was served; the vCPU runs on.
    Continue,
    /// The guest is done.
    Stop,
    /// The run ends with a crash report.
    Fatal(Fatal),
}

/// What the caller does after an exit.
#[derive(Debug)]
pub struct ExitResponse {
    /// `Ok(true)`: run the vCPU again. `Ok(false)`: stop. `Err`: the run
    /// failed and the virtual machine is to be torn down.
    pub verdict: Result<bool, VmmError>,
    /// The bytes the guest reads, for an I/O read; empty otherwise.
    pub reply: Vec<u8>,
    /// A finished line of serial output for the sink.
    pub line: Option<Vec<u8>>,
    /// The crash to report before the verdict is passed on.
    pub crash: Option<Fatal>,
    /// Set where the guest read the serial port and the input source had
    /// failed: the guest was given `NO_INPUT` and runs on.
    pub input_error: Option<VmmError>,
}

/// A crash report: the failure, the registers as far as they could be read,
/// the place of the code at the instruction pointer and, where it could be
/// had, the disassembly of that code.
#[derive(Debug)]
pub struct CrashReport {
    pub message: String,
    pub state: Option<VcpuState>,
    pub code: Option<CodeWindow>,
    pub listing: Option<Vec<String>>,
}

/// The report's line for one segment register.
pub open spec fn spec_segment_line(name: Seq<char>, segment: Segment) -> Seq<char> {
    name + " base="@ + spec_hex(segment.base as int, 16) + " selector="@ + spec_hex(
        segment.selector as int,
        4,
    ) + " limit="@ + spec_hex(segment.limit as int, 8)
}

/// The report's line for the instruction pointer and the flags.
pub open spec fn spec_register_line(state: VcpuState) -> Seq<char> {
    "rip="@ + spec_hex(state.rip as int, 16) + " rflags="@ + spec_hex(state.rflags as int, 16)
}

/// The report's line for the code at the instruction pointer.
pub open spec fn spec_code_line(code: Option<CodeWindow>) -> Seq<char> {
    match code {
        Some(window) => "code: guest="@ + spec_hex(window.guest_addr as int, 16) + " host="@
            + spec_hex(window.host_addr as int, 16) + " bytes="@ + spec_hex(window.len as int, 16),
        None => "code: unavailable"@,
    }
}

/// The text of a crash report, line by line: the failure, the registers
/// with one line for each segment, and the place of the code.
pub open spec fn spec_report_lines(
    message: Seq<char>,
    state: Option<VcpuState>,
    code: Option<CodeWindow>,
) -> Seq<Seq<char>> {
    match state {
        Some(state) => seq![
            message,
            spec_register_line(state),
            spec_segment_line("cs"@, state.cs),
            spec_segment_line("ds"@, state.ds),
            spec_segment_line("es"@, state.es),
            spec_segment_line("fs"@, state.fs),
            spec_segment_line("gs"@, state.gs),
            spec_segment_line("ss"@, state.ss),
            spec_code_line(code),
        ],
        None => seq![message, "registers: unavailable"@, spec_code_line(code)],
    }
}

/// The report's line for one segment register.
pub fn segment_line(name: &str, segment: &Segment) -> (line: String)
    ensures
        line@ == spec_segment_line(name@, *segment),
{
    let mut line = name.to_owned();
    line.append(" base=");
    push_hex(&mut line, segment.base, 16);
    line.append(" selector=");
    push_hex(&mut line, segment.selector as u64, 4);
    line.append(" limit=");
    push_hex(&mut line, segment.limit as u64, 8);
    line
}

/// The report's line for the instruction pointer and the flags.
pub fn register_line(state: &VcpuState) -> (line: String)
    ensures
        line@ == spec_register_line(*state),
{
    let mut line = "rip=".to_owned();
    push_hex(&mut line, state.rip, 16);
    line.append(" rflags=");
    push_hex(&mut line, state.rflags, 16);
    line
}

/// The report's line for the code at the instruction pointer.
pub fn code_line(code: &Option<CodeWindow>) -> (line: String)
    ensures
        line@ == spec_code_line(*code),
{
    match code {
        Some(window) => {
            let mut line = "code: guest=".to_owned();
            push_hex(&mut line, window.guest_addr, 16);
            line.append(" host=");
            push_hex(&mut line, window.host_addr, 16);
            line.append(" bytes=");
            push_hex(&mut line, window.len as u64, 16);
            line
        },
        None => "code: unavailable".to_owned(),
    }
}

/// How many lines of disassembly a report carries.
pub open spec fn spec_listing_len(listing: Option<Vec<String>>) -> nat {
    match listing {
        Some(listing) => listing@.len(),
        None => 0,
    }
}

impl CrashReport {
    /// The report as text, one string for each line: the lines for the
    /// failure, the registers and the place of the code, then the
    /// disassembly, if there is one.
    pub fn lines(&self) -> (lines: Vec<String>)
        ensures
            lines@.len() == spec_report_lines(self.message@, self.state, self.code).len()
                + spec_listing_len(self.listing),
            forall|i: int|
                0 <= i < spec_report_lines(self.message@, self.state, self.code).len() ==> (
                #[trigger] lines@[i])@ == spec_report_lines(self.message@, self.state, self.code)[i],
            self.listing matches Some(listing) ==> forall|j: int|
                0 <= j < listing@.len() ==> (#[trigger] lines@[spec_report_lines(
                    self.message@,
                    self.state,
                    self.code,
                ).len() + j])@ == listing@[j]@,
    {
        let mut lines: Vec<String> = Vec::new();
        lines.push(self.message.clone());
        match &self.state {
            Some(state) => {
                lines.push(register_line(state));
                lines.push(segment_line("cs", &state.cs));
                lines.push(segment_line("ds", &state.ds));
                lines.push(segment_line("es", &state.es));
                lines.push(segment_line("fs", &state.fs));
                lines.push(segment_line("gs", &state.gs));
                lines.push(segment_line("ss", &state.ss));
            },
            None => {
                lines.push("registers: unavailable".to_owned());
            },
        }
        lines.push(code_line(&self.code));
        let ghost head = spec_report_lines(self.message@, self.state, self.code);
        assert(lines@.len() == head.len());
        assert(forall|i: int| 0 <= i < head.len() ==> (#[trigger] lines@[i])@ == head[i]);
        match &self.listing {
            Some(listing) => {
                let mut j: usize = 0;
                while j < listing.len()
                    invariant
                        0 <= j <= listing@.len(),
                        lines@.len() == head.len() + j,
                        forall|i: int| 0 <= i < head.len() ==> (#[trigger] lines@[i])@ == head[i],
                        forall|k: int|
                            0 <= k < j ==> (#[trigger] lines@[head.len() + k])@ == listing@[k]@,
                    decreases listing@.len() - j,
                {
                    lines.push(listing[j].clone());
                    j += 1;
                }
            },
            None => {},
        }
        lines
    }
}

/// The dispatch table.
pub open spec fn spec_classify(event: ExitEvent) -> ExitClass {
    match event {
        ExitEvent::IoIn { .. } => ExitClass::Continue,
        ExitEvent::IoOut { .. } => ExitClass::Continue,
        ExitEvent::MmioRead { .. } => ExitClass::Continue,
        ExitEvent::MmioWrite { .. } => ExitClass::Continue,
        ExitEvent::Hlt => ExitClass::Stop,
        ExitEvent::Shutdown => ExitClass::Stop,
        ExitEvent::InternalError => ExitClass::Fatal(Fatal::InternalError),
        ExitEvent::Exception => ExitClass::Fatal(Fatal::Exception),
        ExitEvent::Interrupt => ExitClass::Fatal(Fatal::UnsupportedExit),
        ExitEvent::Unhandled(_) => ExitClass::Fatal(Fatal::UnsupportedExit),
    }
}

/// The fatal condition that a run step amounts to, if any.
pub open spec fn spec_fatal(step: Result<ExitEvent, i32>) -> Option<Fatal> {
    match step {
        Err(_) => Some(Fatal::RunFailed),
        Ok(event) => match spec_classify(event) {
            ExitClass::Fatal(fatal) => Some(fatal),
            _ => None,
        },
    }
}

/// What the caller is told after a run step of a live virtual machine.
pub open spec fn spec_verdict(step: Result<ExitEvent, i32>) -> Result<bool, VmmError> {
    match step {
        Err(_) => Fatal::RunFailed.spec_verdict(),
        Ok(event) => match spec_classify(event) {
            ExitClass::Continue => Ok(true),
            ExitClass::Stop => Ok(false),
            ExitClass::Fatal(fatal) => fatal.spec_verdict(),
        },
    }
}

/// The bytes the guest reads after a run step: for an I/O read, `width`
/// copies of the serial input byte if the port is the serial port `port`
/// (`NO_INPUT` where the input gave none) and `width` zeros if it is not;
/// nothing for any other step.
pub open spec fn spec_reply(port: u32, step: Result<ExitEvent, i32>, input: ReadOutcome) -> Seq<u8> {
    match step {
        Ok(ExitEvent::IoIn { port: p, width }) => Seq::new(
            width as nat,
            |i: int|
                if p as u32 == port {
                    match spec_data_in(input) {
                        Ok(byte) => byte,
                        Err(_) => NO_INPUT,
                    }
                } else {
                    0u8
                },
        ),
        _ => Seq::empty(),
    }
}

/// The failure of the serial input that a run step ran into: the guest read
/// the serial port `port` and the read of the input source had failed.
pub open spec fn spec_input_error(port: u32, step: Result<ExitEvent, i32>, input: ReadOutcome) -> Option<
    VmmError,
> {
    match step {
        Ok(ExitEvent::IoIn { port: p, .. }) => if p as u32 == port {
            match spec_data_in(input) {
                Ok(_) => None,
                Err(e) => Some(e),
            }
        } else {
            None
        },
        _ => None,
    }
}

/// The bytes a run step writes to the serial port `port`, if it writes any.
pub open spec fn spec_serial_write(port: u32, step: Result<ExitEvent, i32>) -> Option<Seq<u8>> {
    match step {
        Ok(ExitEvent::IoOut { port: p, data }) => if p as u32 == port {
            Some(data@)
        } else {
            None
        },
        _ => None,
    }
}

impl Fatal {
    /// What the caller is told after the crash report: an internal error
    /// stops the run; the others are errors.
    pub open spec fn spec_verdict(self) -> Result<bool, VmmError> {
        match self {
            Fatal::RunFailed => Err(VmmError::VcpuRun),
            Fatal::InternalError => Ok(false),
            Fatal::Exception => Err(VmmError::VcpuExit),
            Fatal::UnsupportedExit => Err(VmmError::UnsupportedExit),
        }
    }

    /// The failure message of the crash report.
    pub open spec fn spec_message(self) -> Seq<char> {
        match self {
            Fatal::RunFailed => "Run Error"@,
            Fatal::InternalError => "Internal Error"@,
            Fatal::Exception => "Exception"@,
            Fatal::UnsupportedExit => "Unsupported Exit"@,
        }
    }

    /// What the caller is told after the crash report.
    pub fn verdict(&self) -> (verdict: Result<bool, VmmError>)
        ensures
            verdict == self.spec_verdict(),
    {
        match self {
            Fatal::RunFailed => Err(VmmError::VcpuRun),
            Fatal::InternalError => Ok(false),
            Fatal::Exception => Err(VmmError::VcpuExit),
            Fatal::UnsupportedExit => Err(VmmError::UnsupportedExit),
        }
    }

    /// The failure message of the crash report.
    pub fn message(&self) -> (text: &'static str)
        ensures
            text@ == self.spec_message(),
    {
        match self {
            Fatal::RunFailed => "Run Error",
            Fatal::InternalError => "Internal Error",
            Fatal::Exception => "Exception",
            Fatal::UnsupportedExit => "Unsupported Exit",
        }
    }
}

impl ExitEvent {
    /// Looks the exit up in the dispatch table.
    pub fn classify(&self) -> (class: ExitClass)
        ensures
            class == spec_classify(*self),
    {
        match self {
            ExitEvent::IoIn { .. } => ExitClass::Continue,
            ExitEvent::IoOut { .. } => ExitClass::Continue,
            ExitEvent::MmioRead { .. } => ExitClass::Continue,
            ExitEvent::MmioWrite { .. } => ExitClass::Continue,
            ExitEvent::Hlt => ExitClass::Stop,
            ExitEvent::Shutdown => ExitClass::Stop,
            ExitEvent::InternalError => ExitClass::Fatal(Fatal::InternalError),
            ExitEvent::Exception => ExitClass::Fatal(Fatal::Exception),
            ExitEvent::Interrupt => ExitClass::Fatal(Fatal::UnsupportedExit),
            ExitEvent::Unhandled(_) => ExitClass::Fatal(Fatal::UnsupportedExit),
        }
    }
}

/// Every exit falls in exactly one row of the dispatch table: I/O and
/// memory-mapped I/O continue, halt and shutdown stop, and an internal
/// error, an exception, an interrupt and any other exit are fatal, each
/// with its own reason.
pub proof fn lemma_classification_is_complete(event: ExitEvent)
    ensures
        spec_classify(event) == ExitClass::Continue <==> (event is IoIn || event is IoOut
            || event is MmioRead || event is MmioWrite),
        spec_classify(event) == ExitClass::Stop <==> (event is Hlt || event is Shutdown),
        spec_classify(event) == ExitClass::Fatal(Fatal::InternalError) <==> event is InternalError,
        spec_classify(event) == ExitClass::Fatal(Fatal::Exception) <==> event is Exception,
        spec_classify(event) == ExitClass::Fatal(Fatal::UnsupportedExit) <==> (event is Interrupt
            || event is Unhandled),
        spec_classify(event) != ExitClass::Fatal(Fatal::RunFailed),
        spec_verdict(Ok(event)) == Ok::<bool, VmmError>(true) <==> spec_classify(event)
            == ExitClass::Continue,
        spec_fatal(Ok(event)) is Some <==> spec_classify(event) is Fatal,
{
}

/// Every fatal condition is reported before the run ends, and a run that
/// goes on has nothing to report: a step has a crash to report exactly when
/// it is fatal, an internal error then stops the run and any other fatal
/// step fails it.
pub proof fn lemma_fatal_steps_are_reported(step: Result<ExitEvent, i32>)
    ensures
        step == Ok::<ExitEvent, i32>(ExitEvent::InternalError) ==> spec_fatal(step) == Some(
            Fatal::InternalError,
        ) && spec_verdict(step) == Ok::<bool, VmmError>(false),
        spec_verdict(step) is Err ==> spec_fatal(step) is Some,
        spec_verdict(step) == Ok::<bool, VmmError>(true) ==> spec_fatal(step) is None,
        spec_fatal(step) matches Some(fatal) ==> spec_verdict(step) == fatal.spec_verdict(),
{
}

/// A virtual machine: its memory, its serial port and whether it may run.
#[derive(Debug)]
pub struct Vm {
    slot: u32,
    ram: Ram,
    serial: SerialPort,
    alive: bool,
}

impl Vm {
    /// The hypervisor slot of the virtual machine's RAM.
    pub closed spec fn spec_slot(&self) -> u32 {
        self.slot
    }

    /// The guest's memory.
    pub closed spec fn spec_ram(&self) -> Ram {
        self.ram
    }

    /// The guest's serial port.
    pub closed spec fn spec_serial(&self) -> SerialPort {
        self.serial
    }

    /// Whether the vCPU may be run. It may until an exit stops the run or
    /// fails it.
    pub closed spec fn spec_alive(&self) -> bool {
        self.alive
    }

    /// A virtual machine that is ready to run.
    pub fn new(slot: u32, ram: Ram, serial: SerialPort) -> (vm: Vm)
        ensures
            vm.spec_slot() == slot,
            vm.spec_ram() == ram,
            vm.spec_serial() == serial,
            vm.spec_alive(),
    {
        Vm { slot, ram, serial, alive: true }
    }

    /// The hypervisor slot of the virtual machine's RAM.
    pub fn slot(&self) -> (slot: u32)
        ensures
            slot == self.spec_slot(),
    {
        self.slot
    }

    /// The guest's memory.
    pub fn ram(&self) -> (ram: &Ram)
        ensures
            *ram == self.spec_ram(),
    {
        &self.ram
    }

    /// The guest's serial port.
    pub fn serial(&self) -> (serial: &SerialPort)
        ensures
            *serial == self.spec_serial(),
    {
        &self.serial
    }

    /// Whether the vCPU may be run.
    pub fn is_alive(&self) -> (alive: bool)
        ensures
            alive == self.spec_alive(),
    {
        self.alive
    }

    /// Says whether the vCPU may be run once more: `VcpuResume` once the run
    /// has stopped or failed.
    pub fn check_alive(&self) -> (alive: Result<(), VmmError>)
        ensures
            alive == if self.spec_alive() {
                Ok::<(), VmmError>(())
            } else {
                Err(VmmError::VcpuResume)
            },
    {
        if self.alive {
            Ok(())
        } else {
            Err(VmmError::VcpuResume)
        }
    }

    /// Whether `run` reads the serial input for this exit: it does for an
    /// I/O read on the serial port of a live virtual machine.
    pub fn wants_input(&self, event: &ExitEvent) -> (wanted: bool)
        ensures
            wanted == match *event {
                ExitEvent::IoIn { port, .. } => self.spec_alive() && port as u32
                    == self.spec_serial().spec_port(),
                _ => false,
            },
    {
        match event {
            ExitEvent::IoIn { port, .. } => self.alive && *port as u32 == self.serial.port(),
            _ => false,
        }
    }

    /// Handles the outcome of one run step of the vCPU. `step` is the exit
    /// the hypervisor reported, or the error code of a run call that failed.
    /// `input` is what a read of one byte from the serial input gave; it is
    /// looked at only for an I/O read on the serial port.
    ///
    /// An I/O read is answered with the input byte on the serial port and
    /// with zeros elsewhere. An I/O write to the serial port goes to the
    /// line buffer and may finish a line; writes to other ports and
    /// memory-mapped I/O are ignored. Halt and shutdown stop the run. Every
    /// fatal step asks for a crash report; an internal error then stops the
    /// run, the others fail it. Once the run has stopped or failed the
    /// virtual machine cannot be resumed: every further call is
    /// `VcpuResume` and changes nothing.
    pub fn run(&mut self, step: Result<ExitEvent, i32>, input: ReadOutcome) -> (response:
        ExitResponse)
        ensures
            final(self).spec_slot() == old(self).spec_slot(),
            final(self).spec_ram() == old(self).spec_ram(),
            final(self).spec_serial().spec_port() == old(self).spec_serial().spec_port(),
            final(self).spec_alive() == (old(self).spec_alive() && spec_verdict(step) == Ok::<
                bool,
                VmmError,
            >(true)),
            !old(self).spec_alive() ==> {
                &&& response.verdict == Err::<bool, VmmError>(VmmError::VcpuResume)
                &&& response.reply@ == Seq::<u8>::empty()
                &&& response.line is None
                &&& response.crash is None
                &&& response.input_error is None
                &&& final(self).spec_serial().buffered() == old(self).spec_serial().buffered()
            },
            old(self).spec_alive() ==> {
                &&& response.verdict == spec_verdict(step)
                &&& response.crash == spec_fatal(step)
                &&& response.reply@ == spec_reply(old(self).spec_serial().spec_port(), step, input)
                &&& response.input_error == spec_input_error(
                    old(self).spec_serial().spec_port(),
                    step,
                    input,
                )
                &&& match spec_serial_write(old(self).spec_serial().spec_port(), step) {
                    Some(data) => {
                        &&& final(self).spec_serial().buffered() == feed(
                            old(self).spec_serial().buffered(),
                            data,
                        ).0
                        &&& match response.line {
                            Some(line) => feed(old(self).spec_serial().buffered(), data).1 == Some(line@),
                            None => feed(old(self).spec_serial().buffered(), data).1 is None,
                        }
                    },
                    None => {
                        &&& final(self).spec_serial().buffered() == old(self).spec_serial().buffered()
                        &&& response.line is None
                    },
                }
            },
    {
        if !self.alive {
            return ExitResponse {
                verdict: Err(VmmError::VcpuResume),
                reply: Vec::new(),
                line: None,
                crash: None,
                input_error: None,
            };
        }
        let event = match step {
            Ok(event) => event,
            Err(_) => {
                self.alive = false;
                return ExitResponse {
                    verdict: Fatal::RunFailed.verdict(),
                    reply: Vec::new(),
                    line: None,
                    crash: Some(Fatal::RunFailed),
                    input_error: None,
                };
            },
        };
        let class = event.classify();
        let mut reply: Vec<u8> = Vec::new();
        let mut line: Option<Vec<u8>> = None;
        let mut input_error: Option<VmmError> = None;
        match event {
            ExitEvent::IoIn { port, width } => {
                let byte: u8 = if port as u32 == self.serial.port() {
                    match self.serial.data_in(input) {
                        Ok(byte) => byte,
                        Err(e) => {
                            input_error = Some(e);
                            NO_INPUT
                        },
                    }
                } else {
                    0
                };
                reply = filled(byte, width);
            },
            ExitEvent::IoOut { port, data } => {
                if port as u32 == self.serial.port() {
                    line = self.serial.data_out(data.as_slice());
                }
            },
            _ => {},
        }
        match class {
            ExitClass::Continue => ExitResponse {
                verdict: Ok(true),
                reply,
                line,
                crash: None,
                input_error,
            },
            ExitClass::Stop => {
                self.alive = false;
                ExitResponse { verdict: Ok(false), reply, line, crash: None, input_error }
            },
            ExitClass::Fatal(fatal) => {
                self.alive = false;
                ExitResponse { verdict: fatal.verdict(), reply, line, crash: Some(fatal), input_error }
            },
        }
    }

    /// Where the code at the instruction pointer of `state` lies: up to
    /// `count` bytes within guest memory, or nothing where the instruction
    /// pointer is outside of it.
    pub fn code_at_rip(&self, state: &VcpuState, count: usize) -> (window: Option<CodeWindow>)
        ensures
            match window {
                Some(window) => {
                    &&& window.guest_addr == state.rip
                    &&& window.len <= count
                    &&& self.spec_ram().is_window(state.rip, count, (window.host_addr, window.len))
                },
                None => !self.spec_ram().backs(state.rip),
            },
    {
        code_window(&self.ram, state.rip, count)
    }

    /// Puts a crash report together. `e` says what failed; `state` holds the
    /// registers, or nothing where they could not be read; `memory` holds
    /// the guest's bytes at the code window of `state`, or nothing where
    /// they could not be read. The report never fails: without registers it
    /// carries the message alone, with an instruction pointer outside guest
    /// memory it names no code, and without the bytes of the whole window,
    /// or where the disassembler fails, it has no disassembly. A disassembly
    /// that is there is that of `memory`, taken to lie at the instruction
    /// pointer.
    pub fn crash_report(&self, e: &str, state: Option<VcpuState>, memory: Option<&[u8]>) -> (report:
        CrashReport)
        ensures
            report.message@ == "vCPU run failed "@ + e@,
            report.state == state,
            match state {
                Some(state) => match report.code {
                    Some(window) => {
                        &&& window.guest_addr == state.rip
                        &&& window.len <= CRASH_CODE_BYTES
                        &&& self.spec_ram().is_window(
                            state.rip,
                            CRASH_CODE_BYTES,
                            (window.host_addr, window.len),
                        )
                    },
                    None => !self.spec_ram().backs(state.rip),
                },
                None => report.code is None,
            },
            report.listing matches Some(lines) ==> (report.code matches Some(window)
                && memory matches Some(bytes) && bytes@.len() == window.len && text_of(lines@)
                == spec_listing(bytes@, window.guest_addr)),
    {
        let message = "vCPU run failed ".to_owned().concat(e);
        let code = match &state {
            Some(state) => self.code_at_rip(state, CRASH_CODE_BYTES),
            None => None,
        };
        let listing = match (&code, memory) {
            (Some(window), Some(bytes)) => {
                if bytes.len() == window.len {
                    disassemble(bytes, window.guest_addr)
                } else {
                    None
                }
            },
            _ => None,
        };
        CrashReport { message, state, code, listing }
    }
}

/// `width` copies of `byte`.
pub fn filled(byte: u8, width: usize) -> (bytes: Vec<u8>)
    ensures
        bytes@ == Seq::new(width as nat, |i: int| byte),
{
    let mut bytes: Vec<u8> = Vec::new();
    let mut i: usize = 0;
    while i < width
        invariant
            0 <= i <= width,
            bytes@ == Seq::new(i as nat, |k: int| byte),
        decreases width - i,
    {
        bytes.push(byte);
        assert(bytes@ =~= Seq::new((i + 1) as nat, |k: int| byte));
        i += 1;
    }
    bytes
}

} // verus!
