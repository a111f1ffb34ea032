//! The core debug registers of an ARMv7-M processor, as words read or
//! written through an access port.
use vstd::prelude::*;
use crate::registers::Register;
use crate::render::{brief_text, spec_brief_text};

verus! {

/// A value of the Debug Halting Control and Status Register.
#[derive(Copy, Clone, Eq, PartialEq, Ord, PartialOrd, Hash, Debug)]
pub struct Dhcsr(pub u32);

/// A value of the Debug Exception and Monitor Control Register.
#[derive(Copy, Clone, Eq, PartialEq, Ord, PartialOrd, Hash, Debug)]
pub struct Demcr(pub u32);

/// A value of the Application Interrupt and Reset Control Register.
#[derive(Copy, Clone, Eq, PartialEq, Ord, PartialOrd, Hash, Debug)]
pub struct Aircr(pub u32);

impl Dhcsr {
    pub const ADDRESS: u32 = 0xE000_EDF0;

    /// The register's short summary: its name, then the reset, halt and
    /// debug-enable bits.
    pub fn min_print(&self) -> (text: String)
        ensures
            text@ == spec_brief_text(Register::Dhcsr, self.0),
    {
        brief_text(Register::Dhcsr, self.0)
    }
}

impl Demcr {
    pub const ADDRESS: u32 = 0xE000_EDFC;

    /// The register's short summary: its name, then the trace enable and
    /// the two vector-catch bits that matter at reset.
    pub fn min_print(&self) -> (text: String)
        ensures
            text@ == spec_brief_text(Register::Demcr, self.0),
    {
        brief_text(Register::Demcr, self.0)
    }
}

impl Aircr {
    pub const ADDRESS: u32 = 0xE000_ED0C;

    /// The register's short summary: its name, then the three reset bits.
    pub fn min_print(&self) -> (text: String)
        ensures
            text@ == spec_brief_text(Register::Aircr, self.0),
    {
        brief_text(Register::Aircr, self.0)
    }
}

} // verus!
