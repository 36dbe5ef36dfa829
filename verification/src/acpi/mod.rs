//! ACPI: the layout of the RSDP, the system description tables and the HPET table.
pub mod hpet;
pub mod table;

use vstd::prelude::*;

verus! {

/// Why the ACPI tables could not be set up.
#[derive(Debug, PartialEq, Eq, Structural)]
pub enum AcpiError {
    NoAcpiTables,
    InvalidChecksum,
    InvalidSdt,
    InvalidRsdp,
}

impl AcpiError {
    /// The human-readable text of the error.
    pub fn message(&self) -> (m: &'static str)
        ensures
            m == match self {
                AcpiError::NoAcpiTables => "No acpi tables",
                AcpiError::InvalidChecksum => "Invalid Checksum",
                AcpiError::InvalidSdt => "Invalid SDT",
                AcpiError::InvalidRsdp => "Invalid Rsdp",
            },
    {
        match self {
            AcpiError::NoAcpiTables => "No acpi tables",
            AcpiError::InvalidChecksum => "Invalid Checksum",
            AcpiError::InvalidSdt => "Invalid SDT",
            AcpiError::InvalidRsdp => "Invalid Rsdp",
        }
    }
}

} // verus!
