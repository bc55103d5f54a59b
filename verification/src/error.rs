//! The failures the monitor reports.

use vstd::prelude::*;

verus! {

/// What can go wrong while a virtual machine is built or driven.
#[derive(Clone, Copy, Debug, PartialEq, Eq, Structural)]
pub enum VmmError {
    /// The virtual machine could not be put together.
    VmCreate,
    /// The vCPU's start-up registers could not be set.
    VcpuConfigure,
    /// The guest raised an exception nobody handles.
    VcpuExit,
    /// The virtual machine has stopped and cannot be resumed.
    VcpuResume,
    /// Host memory could not be had, or a region is not acceptable.
    Allocation,
    /// No executable container was found in the image.
    UnrecognizedFormat,
    /// The image holds no bytes.
    EmptyImage,
    /// A guest address that no region backs.
    OutOfRange,
    /// The hypervisor's run call itself failed.
    VcpuRun,
    /// A VM exit for which there is no handler.
    UnsupportedExit,
    /// The serial input source is closed or broken.
    SerialInput,
}

impl VmmError {
    /// The text shown to the user for each failure.
    pub open spec fn spec_message(self) -> Seq<char> {
        match self {
            VmmError::VmCreate => "Error while creating the Vm"@,
            VmmError::VcpuConfigure => "Error while configuring Vm's vCpu"@,
            VmmError::VcpuExit => "Error while exiting vCpu"@,
            VmmError::VcpuResume => "Error while resuming vCpu"@,
            VmmError::Allocation => "Error while allocating guest memory"@,
            VmmError::UnrecognizedFormat => "No executable container found in the image"@,
            VmmError::EmptyImage => "The image is empty"@,
            VmmError::OutOfRange => "Guest address out of range"@,
            VmmError::VcpuRun => "Error while running vCpu"@,
            VmmError::UnsupportedExit => "Unsupported vCpu exit"@,
            VmmError::SerialInput => "Error while reading the serial input"@,
        }
    }

    /// The message for this failure.
    pub fn message(&self) -> (text: &'static str)
        ensures
            text@ == self.spec_message(),
    {
        match self {
            VmmError::VmCreate => "Error while creating the Vm",
            VmmError::VcpuConfigure => "Error while configuring Vm's vCpu",
            VmmError::VcpuExit => "Error while exiting vCpu",
            VmmError::VcpuResume => "Error while resuming vCpu",
            VmmError::Allocation => "Error while allocating guest memory",
            VmmError::UnrecognizedFormat => "No executable container found in the image",
            VmmError::EmptyImage => "The image is empty",
            VmmError::OutOfRange => "Guest address out of range",
            VmmError::VcpuRun => "Error while running vCpu",
            VmmError::UnsupportedExit => "Unsupported vCpu exit",
            VmmError::SerialInput => "Error while reading the serial input",
        }
    }
}

} // verus!
