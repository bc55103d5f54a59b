use minivmm::error::VmmError;
use minivmm::mem_inspection::code_window;
use minivmm::mem_inspection::CodeWindow;
use minivmm::ram::create_ram;
use minivmm::serial::ReadOutcome;
use minivmm::serial::SerialPort;
use minivmm::vcpu::Segment;
use minivmm::vcpu::VcpuState;
use minivmm::vm::filled;
use minivmm::vm::ExitClass;
use minivmm::vm::ExitEvent;
use minivmm::vm::Fatal;
use minivmm::vm::Vm;
use minivmm::vm::CRASH_CODE_BYTES;
use minivmm::vm_builder::VmBuilder;
use minivmm::vm_builder::DEFAULT_LOAD_ADDR;
use minivmm::vm_builder::DEFAULT_SERIAL_PORT;

const HOST: u64 = 0x7f00_0000_0000;
const SERIAL: u16 = 0x3f8;

fn machine(code: &[u8]) -> Vm {
    let (vm, _plan) = VmBuilder::new(SerialPort::new(SERIAL as u32))
        .ram(0x10000, Some(HOST))
        .unwrap()
        .load_asm(code)
        .unwrap()
        .build()
        .unwrap();
    vm
}

fn state_at(rip: u64) -> VcpuState {
    let flat = Segment { base: 0, selector: 0, limit: 0xffff_ffff };
    VcpuState { rip, rflags: 2, cs: flat, ds: flat, es: flat, fs: flat, gs: flat, ss: flat }
}

#[test]
fn dispatch_table() {
    assert_eq!(ExitEvent::IoIn { port: 1, width: 1 }.classify(), ExitClass::Continue);
    assert_eq!(ExitEvent::IoOut { port: 1, data: vec![1] }.classify(), ExitClass::Continue);
    assert_eq!(ExitEvent::MmioRead { addr: 1, width: 4 }.classify(), ExitClass::Continue);
    assert_eq!(ExitEvent::MmioWrite { addr: 1, data: vec![1] }.classify(), ExitClass::Continue);
    assert_eq!(ExitEvent::Hlt.classify(), ExitClass::Stop);
    assert_eq!(ExitEvent::Shutdown.classify(), ExitClass::Stop);
    assert_eq!(ExitEvent::InternalError.classify(), ExitClass::Fatal(Fatal::InternalError));
    assert_eq!(ExitEvent::Exception.classify(), ExitClass::Fatal(Fatal::Exception));
    assert_eq!(ExitEvent::Interrupt.classify(), ExitClass::Fatal(Fatal::UnsupportedExit));
    assert_eq!(ExitEvent::Unhandled(17).classify(), ExitClass::Fatal(Fatal::UnsupportedExit));
}

#[test]
fn fatal_verdicts_and_messages() {
    assert_eq!(Fatal::RunFailed.verdict(), Err(VmmError::VcpuRun));
    assert_eq!(Fatal::InternalError.verdict(), Ok(false));
    assert_eq!(Fatal::Exception.verdict(), Err(VmmError::VcpuExit));
    assert_eq!(Fatal::UnsupportedExit.verdict(), Err(VmmError::UnsupportedExit));
    assert_eq!(Fatal::InternalError.message(), "Internal Error");
    assert_eq!(Fatal::RunFailed.message(), "Run Error");
    assert_eq!(Fatal::Exception.message(), "Exception");
    assert_eq!(Fatal::UnsupportedExit.message(), "Unsupported Exit");
}

#[test]
fn a_halting_guest_stops_after_one_step() {
    let (mut vm, plan) = VmBuilder::new(SerialPort::new(SERIAL as u32))
        .ram(0x10000, Some(HOST))
        .unwrap()
        .load_asm(&[0xf4])
        .unwrap()
        .build()
        .unwrap();
    assert_eq!(vm.ram().mem_size(), 0x10000);
    assert_eq!(plan.image.load_addr(), DEFAULT_LOAD_ADDR);
    assert_eq!(plan.image.entrypoint(), plan.image.load_addr());
    assert_eq!(plan.host_addr, HOST + DEFAULT_LOAD_ADDR);
    let state = state_at(0xfff0).boot(plan.image.entrypoint());
    assert_eq!(state.rip, plan.image.load_addr());
    assert!(vm.is_alive());
    let response = vm.run(Ok(ExitEvent::Hlt), ReadOutcome::NoInput);
    assert_eq!(response.verdict, Ok(false));
    assert_eq!(response.crash, None);
    assert_eq!(response.line, None);
    assert!(response.reply.is_empty());
    assert!(!vm.is_alive());
}

#[test]
fn a_serial_write_without_nul_is_not_flushed_before_the_halt() {
    let mut vm = machine(&[0xee, 0xf4]);
    let first = vm.run(Ok(ExitEvent::IoOut { port: SERIAL, data: vec![b'A'] }), ReadOutcome::NoInput);
    assert_eq!(first.verdict, Ok(true));
    assert_eq!(first.line, None);
    assert_eq!(first.crash, None);
    assert_eq!(vm.serial().pending(), 1);
    let second = vm.run(Ok(ExitEvent::Hlt), ReadOutcome::NoInput);
    assert_eq!(second.verdict, Ok(false));
    assert_eq!(second.line, None);
    assert_eq!(vm.serial().pending(), 1);
}

#[test]
fn serial_output_is_flushed_at_the_nul() {
    let mut vm = machine(&[0xf4]);
    for byte in *b"hello" {
        let response = vm.run(Ok(ExitEvent::IoOut { port: SERIAL, data: vec![byte] }), ReadOutcome::NoInput);
        assert_eq!(response.verdict, Ok(true));
        assert_eq!(response.line, None);
    }
    let response = vm.run(Ok(ExitEvent::IoOut { port: SERIAL, data: vec![0] }), ReadOutcome::NoInput);
    assert_eq!(response.verdict, Ok(true));
    assert_eq!(response.line, Some(b"hello\0".to_vec()));
    assert_eq!(vm.serial().pending(), 0);
}

#[test]
fn writes_to_other_ports_are_ignored() {
    let mut vm = machine(&[0xf4]);
    let response = vm.run(Ok(ExitEvent::IoOut { port: 0x80, data: vec![b'A', 0] }), ReadOutcome::NoInput);
    assert_eq!(response.verdict, Ok(true));
    assert_eq!(response.line, None);
    assert_eq!(vm.serial().pending(), 0);
    assert!(vm.is_alive());
}

#[test]
fn serial_reads_are_filled_with_the_input_byte() {
    let mut vm = machine(&[0xf4]);
    let event = ExitEvent::IoIn { port: SERIAL, width: 1 };
    assert!(vm.wants_input(&event));
    let response = vm.run(Ok(event), ReadOutcome::Byte(b'A'));
    assert_eq!(response.verdict, Ok(true));
    assert_eq!(response.reply, vec![b'A']);
    assert_eq!(response.input_error, None);
    let wide = vm.run(Ok(ExitEvent::IoIn { port: SERIAL, width: 4 }), ReadOutcome::Byte(7));
    assert_eq!(wide.reply, vec![7, 7, 7, 7]);
}

#[test]
fn serial_reads_without_input_get_the_sentinel() {
    let mut vm = machine(&[0xf4]);
    let response = vm.run(Ok(ExitEvent::IoIn { port: SERIAL, width: 2 }), ReadOutcome::NoInput);
    assert_eq!(response.verdict, Ok(true));
    assert_eq!(response.reply, vec![0, 0]);
    assert_eq!(response.input_error, None);
}

#[test]
fn a_failed_input_source_is_reported_and_the_guest_runs_on() {
    let mut vm = machine(&[0xf4]);
    let response = vm.run(Ok(ExitEvent::IoIn { port: SERIAL, width: 1 }), ReadOutcome::Failed);
    assert_eq!(response.verdict, Ok(true));
    assert_eq!(response.reply, vec![0]);
    assert_eq!(response.input_error, Some(VmmError::SerialInput));
    assert!(vm.is_alive());
}

#[test]
fn reads_from_other_ports_are_zero_filled() {
    let mut vm = machine(&[0xf4]);
    let event = ExitEvent::IoIn { port: 0x60, width: 4 };
    assert!(!vm.wants_input(&event));
    let response = vm.run(Ok(event), ReadOutcome::Byte(b'A'));
    assert_eq!(response.verdict, Ok(true));
    assert_eq!(response.reply, vec![0, 0, 0, 0]);
    assert_eq!(response.input_error, None);
    let failed = vm.run(Ok(ExitEvent::IoIn { port: 0x60, width: 1 }), ReadOutcome::Failed);
    assert_eq!(failed.input_error, None);
}

#[test]
fn memory_mapped_io_is_a_no_op() {
    let mut vm = machine(&[0xf4]);
    let read = vm.run(Ok(ExitEvent::MmioRead { addr: 0x8000_0000, width: 4 }), ReadOutcome::NoInput);
    assert_eq!(read.verdict, Ok(true));
    assert!(read.reply.is_empty());
    let write = vm.run(
        Ok(ExitEvent::MmioWrite { addr: 0x8000_0000, data: vec![0x78, 0x56, 0x34, 0x12] }),
        ReadOutcome::NoInput,
    );
    assert_eq!(write.verdict, Ok(true));
    assert_eq!(write.line, None);
    assert_eq!(write.crash, None);
    assert!(vm.is_alive());
}

#[test]
fn shutdown_stops_the_run() {
    let mut vm = machine(&[0xf4]);
    let response = vm.run(Ok(ExitEvent::Shutdown), ReadOutcome::NoInput);
    assert_eq!(response.verdict, Ok(false));
    assert_eq!(response.crash, None);
    assert!(!vm.is_alive());
}

#[test]
fn an_internal_error_is_reported_once_and_stops_the_run() {
    let mut vm = machine(&[0xf4]);
    let response = vm.run(Ok(ExitEvent::InternalError), ReadOutcome::NoInput);
    assert_eq!(response.crash, Some(Fatal::InternalError));
    assert_eq!(response.verdict, Ok(false));
    assert!(!vm.is_alive());
    let report = vm.crash_report(Fatal::InternalError.message(), None, None);
    assert_eq!(report.message, "vCPU run failed Internal Error");
    assert_eq!(report.state, None);
    assert_eq!(report.code, None);
    assert_eq!(report.listing, None);
    let again = vm.run(Ok(ExitEvent::InternalError), ReadOutcome::NoInput);
    assert_eq!(again.crash, None);
    assert_eq!(again.verdict, Err(VmmError::VcpuResume));
}

#[test]
fn an_exception_is_reported_and_fails_the_run() {
    let mut vm = machine(&[0xf4]);
    let response = vm.run(Ok(ExitEvent::Exception), ReadOutcome::NoInput);
    assert_eq!(response.crash, Some(Fatal::Exception));
    assert_eq!(response.verdict, Err(VmmError::VcpuExit));
    assert!(!vm.is_alive());
}

#[test]
fn unsupported_exits_fail_the_run() {
    let mut vm = machine(&[0xf4]);
    let response = vm.run(Ok(ExitEvent::Interrupt), ReadOutcome::NoInput);
    assert_eq!(response.crash, Some(Fatal::UnsupportedExit));
    assert_eq!(response.verdict, Err(VmmError::UnsupportedExit));
    let mut other = machine(&[0xf4]);
    let response = other.run(Ok(ExitEvent::Unhandled(24)), ReadOutcome::NoInput);
    assert_eq!(response.crash, Some(Fatal::UnsupportedExit));
    assert_eq!(response.verdict, Err(VmmError::UnsupportedExit));
    assert!(!other.is_alive());
}

#[test]
fn a_failed_run_call_is_fatal() {
    let mut vm = machine(&[0xf4]);
    let response = vm.run(Err(4), ReadOutcome::NoInput);
    assert_eq!(response.crash, Some(Fatal::RunFailed));
    assert_eq!(response.verdict, Err(VmmError::VcpuRun));
    assert!(!vm.is_alive());
}

#[test]
fn a_stopped_machine_cannot_be_resumed() {
    let mut vm = machine(&[0xf4]);
    vm.run(Ok(ExitEvent::IoOut { port: SERIAL, data: vec![b'x'] }), ReadOutcome::NoInput);
    assert_eq!(vm.run(Ok(ExitEvent::Hlt), ReadOutcome::NoInput).verdict, Ok(false));
    let event = ExitEvent::IoIn { port: SERIAL, width: 1 };
    assert!(!vm.wants_input(&event));
    let response = vm.run(Ok(event), ReadOutcome::Byte(1));
    assert_eq!(response.verdict, Err(VmmError::VcpuResume));
    assert!(response.reply.is_empty());
    assert_eq!(response.line, None);
    assert_eq!(response.crash, None);
    let write = vm.run(Ok(ExitEvent::IoOut { port: SERIAL, data: vec![0] }), ReadOutcome::NoInput);
    assert_eq!(write.verdict, Err(VmmError::VcpuResume));
    assert_eq!(write.line, None);
    assert_eq!(vm.serial().pending(), 1);
    assert!(!vm.is_alive());
}

#[test]
fn crash_report_carries_registers_and_code_window() {
    let vm = machine(&[0xf4]);
    let state = state_at(0x1000);
    let report = vm.crash_report("Internal Error", Some(state), None);
    assert_eq!(report.message, "vCPU run failed Internal Error");
    assert_eq!(report.state, Some(state));
    assert_eq!(
        report.code,
        Some(CodeWindow { guest_addr: 0x1000, host_addr: HOST + 0x1000, len: CRASH_CODE_BYTES })
    );
}

#[test]
fn crash_report_survives_a_wild_instruction_pointer() {
    let vm = machine(&[0xf4]);
    let report = vm.crash_report("Exception", Some(state_at(0xffff_fff0)), None);
    assert_eq!(report.message, "vCPU run failed Exception");
    assert_eq!(report.code, None);
    let near_end = vm.crash_report("Exception", Some(state_at(0xfff8)), None);
    assert_eq!(
        near_end.code,
        Some(CodeWindow { guest_addr: 0xfff8, host_addr: HOST + 0xfff8, len: 8 })
    );
}

#[test]
fn code_windows() {
    let ram = create_ram(0x1000).unwrap().build(Some(HOST)).unwrap();
    assert_eq!(CRASH_CODE_BYTES, 0x20);
    assert_eq!(
        code_window(&ram, 0x10, 0x20),
        Some(CodeWindow { guest_addr: 0x10, host_addr: HOST + 0x10, len: 0x20 })
    );
    assert_eq!(
        code_window(&ram, 0xff0, 0x20),
        Some(CodeWindow { guest_addr: 0xff0, host_addr: HOST + 0xff0, len: 0x10 })
    );
    assert_eq!(code_window(&ram, 0x1000, 0x20), None);
    let vm = machine(&[0xf4]);
    assert_eq!(
        vm.code_at_rip(&state_at(0x2000), 4),
        Some(CodeWindow { guest_addr: 0x2000, host_addr: HOST + 0x2000, len: 4 })
    );
}

#[test]
fn filled_replies() {
    assert_eq!(filled(9, 0), Vec::<u8>::new());
    assert_eq!(filled(9, 3), vec![9, 9, 9]);
}

#[test]
fn builder_defaults() {
    assert_eq!(DEFAULT_LOAD_ADDR, 0x1000);
    assert_eq!(DEFAULT_SERIAL_PORT, 0x38f);
    let vm = Vm::new(
        2,
        create_ram(0x1000).unwrap().build(Some(HOST)).unwrap(),
        SerialPort::new(DEFAULT_SERIAL_PORT),
    );
    assert_eq!(vm.slot(), 2);
    assert_eq!(vm.serial().port(), 0x38f);
    assert!(vm.is_alive());
}

#[test]
fn building_without_an_image_is_an_empty_image() {
    let built = VmBuilder::new(SerialPort::new(1)).ram(0x10000, Some(HOST)).unwrap().build();
    assert_eq!(built.err(), Some(VmmError::EmptyImage));
    let bare = VmBuilder::new(SerialPort::new(1)).build();
    assert_eq!(bare.err(), Some(VmmError::EmptyImage));
}

#[test]
fn building_without_ram_fails() {
    let built = VmBuilder::new(SerialPort::new(1)).load_asm(&[0xf4]).unwrap().build();
    assert_eq!(built.err(), Some(VmmError::VmCreate));
}

#[test]
fn loading_no_code_is_an_empty_image() {
    assert_eq!(VmBuilder::new(SerialPort::new(1)).load_asm(&[]).err(), Some(VmmError::EmptyImage));
    assert_eq!(VmBuilder::new(SerialPort::new(1)).load(&[]).err(), Some(VmmError::EmptyImage));
}

#[test]
fn loading_an_image_without_a_container_is_refused() {
    assert_eq!(
        VmBuilder::new(SerialPort::new(1)).load(&[0xf4; 40]).err(),
        Some(VmmError::UnrecognizedFormat)
    );
}

#[test]
fn an_image_that_does_not_fit_is_out_of_range() {
    let too_long = VmBuilder::new(SerialPort::new(1))
        .ram(0x2000, Some(HOST))
        .unwrap()
        .load_asm(&[0x90; 0x1001])
        .unwrap()
        .build();
    assert_eq!(too_long.err(), Some(VmmError::OutOfRange));
    let fits = VmBuilder::new(SerialPort::new(1))
        .ram(0x2000, Some(HOST))
        .unwrap()
        .load_asm(&[0x90; 0x1000])
        .unwrap()
        .build();
    assert!(fits.is_ok());
    let outside = VmBuilder::new(SerialPort::new(1))
        .ram(0x2000, Some(HOST))
        .unwrap()
        .load_at(0x2000)
        .load_asm(&[0xf4])
        .unwrap()
        .build();
    assert_eq!(outside.err(), Some(VmmError::OutOfRange));
}

#[test]
fn the_load_address_can_be_chosen() {
    let (vm, plan) = VmBuilder::new(SerialPort::new(1))
        .load_at(0x7c00)
        .ram(0x10000, Some(HOST))
        .unwrap()
        .load_asm(&[0xeb, 0xfe])
        .unwrap()
        .build()
        .unwrap();
    assert_eq!(plan.image.load_addr(), 0x7c00);
    assert_eq!(plan.image.entrypoint(), 0x7c00);
    assert_eq!(plan.host_addr, HOST + 0x7c00);
    assert_eq!(vm.ram().to_host_addr(plan.image.entrypoint()), Ok(plan.host_addr));
    assert_eq!(vm.slot(), 0);
}

#[test]
fn ram_setup_errors_reach_the_builder() {
    assert_eq!(
        VmBuilder::new(SerialPort::new(1)).ram(0, Some(HOST)).err(),
        Some(VmmError::Allocation)
    );
    assert_eq!(VmBuilder::new(SerialPort::new(1)).ram(0x1000, None).err(), Some(VmmError::Allocation));
    let rounded = VmBuilder::new(SerialPort::new(1))
        .ram(0x1001, Some(HOST))
        .unwrap()
        .load_asm(&[0xf4])
        .unwrap()
        .build()
        .unwrap();
    assert_eq!(rounded.0.ram().mem_size(), 0x1010);
    assert_eq!(rounded.0.ram().tss_addr(), None);
    assert_eq!(rounded.0.ram().guest_phys_addr(), 0);
}

/// A 64-bit little-endian ELF header without program or section headers.
fn elf_header(entry: u64) -> Vec<u8> {
    let mut bytes = vec![0u8; 64];
    bytes[0..4].copy_from_slice(&[0x7f, b'E', b'L', b'F']);
    bytes[4] = 2;
    bytes[5] = 1;
    bytes[6] = 1;
    bytes[16] = 2;
    bytes[18] = 0x3e;
    bytes[20] = 1;
    bytes[24..32].copy_from_slice(&entry.to_le_bytes());
    bytes[52] = 64;
    bytes[54] = 56;
    bytes[58] = 64;
    bytes
}

#[test]
fn an_image_that_fits_is_built_wherever_its_entry_point_lies() {
    let image = elf_header(0x40_0000);
    let (vm, plan) = VmBuilder::new(SerialPort::new(1))
        .ram(0x10000, Some(HOST))
        .unwrap()
        .load(&image)
        .unwrap()
        .build()
        .unwrap();
    assert_eq!(plan.image.entrypoint(), 0x40_0000);
    assert_eq!(plan.image.load_addr(), DEFAULT_LOAD_ADDR);
    assert_eq!(plan.image.bytes().as_slice(), image.as_slice());
    assert_eq!(plan.host_addr, HOST + DEFAULT_LOAD_ADDR);
    assert_eq!(vm.ram().to_host_addr(0x40_0000), Err(VmmError::OutOfRange));
    assert_eq!(vm.ram().load_addr(), HOST);
    assert_eq!(vm.ram().mem_size(), 0x10000);
    assert_eq!(vm.serial().port(), 1);
    assert!(vm.is_alive());
}

#[test]
fn check_alive_follows_the_run() {
    let mut vm = machine(&[0xf4]);
    assert_eq!(vm.check_alive(), Ok(()));
    vm.run(Ok(ExitEvent::IoOut { port: SERIAL, data: vec![b'x'] }), ReadOutcome::NoInput);
    assert_eq!(vm.check_alive(), Ok(()));
    vm.run(Ok(ExitEvent::Hlt), ReadOutcome::NoInput);
    assert_eq!(vm.check_alive(), Err(VmmError::VcpuResume));
}
