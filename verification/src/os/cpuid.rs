//! Vendor, family, stepping and model name of the processor, from CPUID registers.
use vstd::prelude::*;
use crate::arch::cpuid::{
    amd_id, amd_old_id, intel_id, is_utf8, same_bytes, utf8_valid, vendor_bytes, vendor_id_bytes,
};

verus! {

/// The processor vendors the kernel tells apart.
#[derive(Debug, PartialEq, Eq, Structural)]
pub enum Vendor {
    Intel,
    Amd,
    Unknown,
}

/// What the kernel shows about the processor.
#[derive(Debug)]
pub struct CpuInfo {
    pub vendor: Vendor,
    pub model: &'static str,
    pub family: u32,
    pub stepping: u32,
}

/// The vendor named by an identification string: `GenuineIntel` is Intel,
/// `AuthenticAMD` and `AMDisbetter!` are AMD.
pub open spec fn vendor_named(id: Seq<u8>) -> Vendor {
    if id == intel_id() {
        Vendor::Intel
    } else if id == amd_id() || id == amd_old_id() {
        Vendor::Amd
    } else {
        Vendor::Unknown
    }
}

fn vendor_of_id(id: &[u8]) -> (v: Vendor)
    ensures
        v == vendor_named(id@),
{
    let intel: [u8; 12] = [71, 101, 110, 117, 105, 110, 101, 73, 110, 116, 101, 108];
    let amd: [u8; 12] = [65, 117, 116, 104, 101, 110, 116, 105, 99, 65, 77, 68];
    let amd_old: [u8; 12] = [65, 77, 68, 105, 115, 98, 101, 116, 116, 101, 114, 33];
    assert(intel@ =~= intel_id());
    assert(amd@ =~= amd_id());
    assert(amd_old@ =~= amd_old_id());
    if same_bytes(id, &intel) {
        Vendor::Intel
    } else if same_bytes(id, &amd) {
        Vendor::Amd
    } else if same_bytes(id, &amd_old) {
        Vendor::Amd
    } else {
        Vendor::Unknown
    }
}

/// The vendor that the leaf-0 registers EBX, EDX, ECX name. The string they spell
/// must be valid UTF-8 (on other bytes the identification fails).
pub fn get_vendor(ebx: u32, edx: u32, ecx: u32) -> (v: Vendor)
    requires
        utf8_valid(vendor_bytes(ebx, edx, ecx)),
    ensures
        v == vendor_named(vendor_bytes(ebx, edx, ecx)),
{
    let id = vendor_id_bytes(ebx, edx, ecx);
    vendor_of_id(id.as_slice())
}

/// The base family: bits 8..12 of EAX of leaf 1.
pub open spec fn base_family(eax: u32) -> int {
    ((eax / 0x100) % 16) as int
}

/// The extended family: bits 20..28 of EAX of leaf 1.
pub open spec fn extended_family(eax: u32) -> int {
    ((eax / 0x10_0000) % 256) as int
}

/// The family: the base family, plus the extended family when the base is 15.
pub open spec fn family_of(eax: u32) -> int {
    if base_family(eax) == 15 {
        base_family(eax) + extended_family(eax)
    } else {
        base_family(eax)
    }
}

fn family_fields(eax: u32) -> (r: (u32, u32))
    ensures
        r.0 == base_family(eax),
        r.1 == extended_family(eax),
{
    let family = (eax >> 8) & 0x0f;
    let extended_family = (eax >> 20) & 0xff;
    assert(((eax >> 8) & 0x0f) == (eax / 0x100) % 16) by (bit_vector);
    assert(((eax >> 20) & 0xff) == (eax / 0x10_0000) % 256) by (bit_vector);
    (family, extended_family)
}

/// The processor family given EAX of leaf 1.
pub fn get_cpu_family(eax: u32) -> (f: u32)
    ensures
        f == family_of(eax),
{
    let (family, extended_family) = family_fields(eax);
    if family == 15 {
        family + extended_family
    } else {
        family
    }
}

/// The stepping given EAX of leaf 1: its low four bits.
pub fn get_cpu_stepping(eax: u32) -> (s: u32)
    ensures
        s == eax % 16,
{
    let s = eax & 0xf;
    assert((eax & 0xf) == eax % 16) by (bit_vector);
    s
}

/// The model name the kernel shows for a vendor and a family.
pub open spec fn model_name(vendor: Vendor, family: int) -> &'static str {
    match vendor {
        Vendor::Intel => if family == 6 {
            "Intel Core i3"
        } else if family == 0x0F {
            "Intel Core i7"
        } else {
            "???"
        },
        Vendor::Amd => if family == 23 {
            "Amd ryzen"
        } else {
            "???"
        },
        Vendor::Unknown => "Unknown Vendor",
    }
}

/// The model name given EAX of leaf 1 and the vendor of leaf 0. Only the family
/// decides it; the model number is not consulted.
pub fn get_cpu_model(eax: u32, vendor: &Vendor) -> (m: &'static str)
    ensures
        m == model_name(*vendor, family_of(eax)),
{
    let family = get_cpu_family(eax);
    match vendor {
        Vendor::Intel => if family == 6 {
            "Intel Core i3"
        } else if family == 0x0F {
            "Intel Core i7"
        } else {
            "???"
        },
        Vendor::Amd => if family == 23 {
            "Amd ryzen"
        } else {
            "???"
        },
        Vendor::Unknown => "Unknown Vendor",
    }
}

impl CpuInfo {
    /// The processor described by the leaf-0 registers EBX, EDX, ECX and EAX of
    /// leaf 1.
    pub fn new(ebx: u32, edx: u32, ecx: u32, leaf1_eax: u32) -> (c: Self)
        requires
            utf8_valid(vendor_bytes(ebx, edx, ecx)),
        ensures
            c.vendor == vendor_named(vendor_bytes(ebx, edx, ecx)),
            c.family == family_of(leaf1_eax),
            c.stepping == leaf1_eax % 16,
            c.model == model_name(c.vendor, family_of(leaf1_eax)),
    {
        let vendor = get_vendor(ebx, edx, ecx);
        let family = get_cpu_family(leaf1_eax);
        let stepping = get_cpu_stepping(leaf1_eax);
        let model = get_cpu_model(leaf1_eax, &vendor);
        CpuInfo { vendor, family, stepping, model }
    }

    /// As `new`, or `None` when the identification string is not UTF-8.
    pub fn try_new(ebx: u32, edx: u32, ecx: u32, leaf1_eax: u32) -> (c: Option<Self>)
        ensures
            c is None <==> !utf8_valid(vendor_bytes(ebx, edx, ecx)),
            c is Some ==> c->0.vendor == vendor_named(vendor_bytes(ebx, edx, ecx)),
            c is Some ==> c->0.family == family_of(leaf1_eax),
            c is Some ==> c->0.stepping == leaf1_eax % 16,
            c is Some ==> c->0.model == model_name(c->0.vendor, family_of(leaf1_eax)),
    {
        let id = vendor_id_bytes(ebx, edx, ecx);
        if is_utf8(id.as_slice()) {
            Some(CpuInfo::new(ebx, edx, ecx, leaf1_eax))
        } else {
            None
        }
    }
}

} // verus!

verus! {

/// Whether the processor has model-specific registers: the MSR bit of EDX of leaf 1.
pub fn has_msr(leaf1_edx: u32) -> (r: bool)
    ensures
        r == (leaf1_edx & 0x20 != 0),
{
    crate::arch::cpuid::check_feature(crate::arch::cpuid::CpuFeature::Msr, leaf1_edx)
}

} // verus!
