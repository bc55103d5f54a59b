//! Puts a virtual machine together: RAM, image and serial port are
//! collected first and checked in one place, so that no half-built machine
//! ever exists.

use vstd::prelude::*;
use crate::error::VmmError;
use crate::image::detect_and_load;
use crate::image::detected_entry;
use crate::image::LoadedImage;
use crate::ram::align_up;
use crate::ram::create_ram;
use crate::ram::host_ok;
use crate::ram::planned_regions;
use crate::ram::Ram;
use crate::serial::SerialPort;
use crate::vm::Vm;

verus! {

/// Guest address at which an image is placed unless the caller says
/// otherwise.
pub const DEFAULT_LOAD_ADDR: u64 = 0x1000;

/// The I/O port of the serial console.
pub const DEFAULT_SERIAL_PORT: u32 = 0x38f;

/// What is left to do once the virtual machine is built: copy the image to
/// `host_addr` and start the vCPU at the image's entry point.
#[derive(Debug)]
pub struct BootPlan {
    /// Host address of the image's load address.
    pub host_addr: u64,
    /// The image to copy.
    pub image: LoadedImage,
}

/// Collects the parts of a virtual machine.
#[derive(Debug)]
pub struct VmBuilder {
    slot: u32,
    image: Option<LoadedImage>,
    ram: Option<Ram>,
    serial: SerialPort,
    load_addr: u64,
}

/// Why a virtual machine cannot be built from these parts, if it cannot:
/// there is no image, there is no RAM, or no region of the RAM backs the
/// whole image at its load address.
pub open spec fn spec_build_error(image: Option<LoadedImage>, ram: Option<Ram>) -> Option<VmmError> {
    match image {
        None => Some(VmmError::EmptyImage),
        Some(image) => match ram {
            None => Some(VmmError::VmCreate),
            Some(ram) => if ram.spec_to_host_range(
                image.spec_load_addr(),
                image.spec_bytes().len() as usize,
            ) is None {
                Some(VmmError::OutOfRange)
            } else {
                None
            },
        },
    }
}

impl VmBuilder {
    /// The hypervisor slot of the RAM.
    pub closed spec fn spec_slot(&self) -> u32 {
        self.slot
    }

    /// The image to run, once one is loaded.
    pub closed spec fn spec_image(&self) -> Option<LoadedImage> {
        self.image
    }

    /// The RAM, once it is set up.
    pub closed spec fn spec_ram(&self) -> Option<Ram> {
        self.ram
    }

    /// The serial port.
    pub closed spec fn spec_serial(&self) -> SerialPort {
        self.serial
    }

    /// Guest address at which the next image is placed.
    pub closed spec fn spec_load_addr(&self) -> u64 {
        self.load_addr
    }

    /// A builder without RAM and image, for a machine in slot 0 whose images
    /// go to `DEFAULT_LOAD_ADDR`.
    pub fn new(serial: SerialPort) -> (builder: VmBuilder)
        ensures
            builder.spec_slot() == 0,
            builder.spec_image() is None,
            builder.spec_ram() is None,
            builder.spec_serial() == serial,
            builder.spec_load_addr() == DEFAULT_LOAD_ADDR,
    {
        VmBuilder { slot: 0, image: None, ram: None, serial, load_addr: DEFAULT_LOAD_ADDR }
    }

    /// Sets the guest address at which images loaded from now on are placed.
    pub fn load_at(self, load_addr: u64) -> (builder: VmBuilder)
        ensures
            builder.spec_slot() == self.spec_slot(),
            builder.spec_image() == self.spec_image(),
            builder.spec_ram() == self.spec_ram(),
            builder.spec_serial() == self.spec_serial(),
            builder.spec_load_addr() == load_addr,
    {
        VmBuilder {
            slot: self.slot,
            image: self.image,
            ram: self.ram,
            serial: self.serial,
            load_addr,
        }
    }

    /// Gives the machine RAM of at least `mem_size` bytes, rounded up to a
    /// multiple of 16, as one region at guest-physical address 0.
    /// `userspace_addr` is the host allocation of that rounded size, `None`
    /// where it failed. A request for no memory, a size that cannot be
    /// rounded, and a failed, null or wrapping allocation are `Allocation`.
    pub fn ram(self, mem_size: usize, userspace_addr: Option<u64>) -> (builder: Result<
        VmBuilder,
        VmmError,
    >)
        ensures
            match builder {
                Ok(builder) => {
                    &&& builder.spec_slot() == self.spec_slot()
                    &&& builder.spec_image() == self.spec_image()
                    &&& builder.spec_serial() == self.spec_serial()
                    &&& builder.spec_load_addr() == self.spec_load_addr()
                    &&& userspace_addr matches Some(load_addr)
                    &&& builder.spec_ram() matches Some(ram)
                    &&& ram.wf()
                    &&& ram.spec_load_addr() == load_addr
                    &&& ram.spec_mem_size() == align_up(mem_size as int)
                    &&& ram.spec_guest_phys_addr() == 0
                    &&& ram.spec_tss_addr() == None::<u64>
                    &&& ram.spec_regions() == planned_regions(
                        load_addr,
                        ram.spec_mem_size(),
                        Seq::empty(),
                    )
                },
                Err(e) => e == VmmError::Allocation,
            },
            builder is Ok <==> mem_size > 0 && align_up(mem_size as int) <= usize::MAX && host_ok(
                userspace_addr,
                align_up(mem_size as int) as usize,
            ),
    {
        let ram_builder = match create_ram(mem_size) {
            Ok(ram_builder) => ram_builder,
            Err(e) => { return Err(e); },
        };
        match ram_builder.build(userspace_addr) {
            Ok(ram) => Ok(
                VmBuilder {
                    slot: self.slot,
                    image: self.image,
                    ram: Some(ram),
                    serial: self.serial,
                    load_addr: self.load_addr,
                },
            ),
            Err(e) => Err(e),
        }
    }

    /// Loads raw machine code: a flat binary that is placed at the load
    /// address and starts at its first byte. No code at all is `EmptyImage`.
    pub fn load_asm(self, asm_code: &[u8]) -> (builder: Result<VmBuilder, VmmError>)
        ensures
            match builder {
                Ok(builder) => {
                    &&& builder.spec_slot() == self.spec_slot()
                    &&& builder.spec_ram() == self.spec_ram()
                    &&& builder.spec_serial() == self.spec_serial()
                    &&& builder.spec_load_addr() == self.spec_load_addr()
                    &&& builder.spec_image() matches Some(image)
                    &&& image.spec_bytes() == asm_code@
                    &&& image.spec_load_addr() == self.spec_load_addr()
                    &&& image.spec_entrypoint() == self.spec_load_addr()
                },
                Err(e) => e == VmmError::EmptyImage,
            },
            builder is Ok <==> asm_code@.len() > 0,
    {
        match LoadedImage::flat(asm_code, self.load_addr) {
            Ok(image) => Ok(
                VmBuilder {
                    slot: self.slot,
                    image: Some(image),
                    ram: self.ram,
                    serial: self.serial,
                    load_addr: self.load_addr,
                },
            ),
            Err(e) => Err(e),
        }
    }

    /// Loads a firmware image: the bytes of the image file. The image must
    /// hold a PE or ELF container, whose header gives the entry point; it is
    /// placed at the load address. An empty image is `EmptyImage`, one
    /// without a container `UnrecognizedFormat`.
    pub fn load(self, image: &[u8]) -> (builder: Result<VmBuilder, VmmError>)
        ensures
            match builder {
                Ok(builder) => {
                    &&& builder.spec_slot() == self.spec_slot()
                    &&& builder.spec_ram() == self.spec_ram()
                    &&& builder.spec_serial() == self.spec_serial()
                    &&& builder.spec_load_addr() == self.spec_load_addr()
                    &&& builder.spec_image() matches Some(loaded)
                    &&& loaded.spec_bytes() == image@
                    &&& loaded.spec_load_addr() == self.spec_load_addr()
                    &&& detected_entry(
                        image@,
                        self.spec_load_addr(),
                        false,
                        Ok(loaded.spec_entrypoint()),
                    )
                },
                Err(e) => detected_entry(image@, self.spec_load_addr(), false, Err(e)),
            },
    {
        match detect_and_load(image, self.load_addr, false) {
            Ok(loaded) => Ok(
                VmBuilder {
                    slot: self.slot,
                    image: Some(loaded),
                    ram: self.ram,
                    serial: self.serial,
                    load_addr: self.load_addr,
                },
            ),
            Err(e) => Err(e),
        }
    }

    /// Builds the virtual machine, or says why it cannot be built. Without
    /// an image the error is `EmptyImage`, without RAM `VmCreate`; an image
    /// that does not fit in one region of the RAM at its load address is
    /// `OutOfRange`. Every other machine is built, also one whose entry
    /// point lies outside the RAM: where the guest starts is the image's
    /// affair. The machine comes with the plan for its start: where on the
    /// host the image goes.
    pub fn build(self) -> (built: Result<(Vm, BootPlan), VmmError>)
        ensures
            match built {
                Ok((vm, plan)) => {
                    &&& spec_build_error(self.spec_image(), self.spec_ram()) is None
                    &&& vm.spec_slot() == self.spec_slot()
                    &&& Some(vm.spec_ram()) == self.spec_ram()
                    &&& vm.spec_serial() == self.spec_serial()
                    &&& vm.spec_alive()
                    &&& Some(plan.image) == self.spec_image()
                    &&& Some(plan.host_addr) == vm.spec_ram().spec_to_host_range(
                        plan.image.spec_load_addr(),
                        plan.image.spec_bytes().len() as usize,
                    )
                },
                Err(e) => spec_build_error(self.spec_image(), self.spec_ram()) == Some(e),
            },
    {
        let image = match self.image {
            Some(image) => image,
            None => { return Err(VmmError::EmptyImage); },
        };
        let ram = match self.ram {
            Some(ram) => ram,
            None => { return Err(VmmError::VmCreate); },
        };
        let host_addr: u64 = match ram.to_host_range(image.load_addr(), image.len()) {
            Ok(host_addr) => host_addr,
            Err(e) => { return Err(e); },
        };
        Ok((Vm::new(self.slot, ram, self.serial), BootPlan { host_addr, image }))
    }
}

} // verus!
