//! CPU identification from the registers that the `cpuid` instruction returns.
use vstd::prelude::*;
use vstd::string::StringSliceAdditionalSpecFns;

verus! {

/// CPUID feature flags, each one bit of a feature register.
pub enum CpuFeature {
    /// Bit 21 of ECX of leaf 1.
    X2Apic,
    /// Bit 4 of EDX of leaf 1.
    Tsc,
    /// Bit 5 of EDX of leaf 1.
    Msr,
}

impl CpuFeature {
    /// The bit of the feature register that stands for this feature.
    pub open spec fn spec_mask(&self) -> u32 {
        match self {
            CpuFeature::X2Apic => 0x0020_0000,
            CpuFeature::Tsc => 0x10,
            CpuFeature::Msr => 0x20,
        }
    }

    /// The bit of the feature register that stands for this feature.
    pub fn mask(&self) -> (m: u32)
        ensures
            m == self.spec_mask(),
    {
        match self {
            CpuFeature::X2Apic => 0x0020_0000,
            CpuFeature::Tsc => 0x10,
            CpuFeature::Msr => 0x20,
        }
    }
}

/// Whether the bit of `feature` is set in the feature register `bit`.
pub fn check_feature(feature: CpuFeature, bit: u32) -> (r: bool)
    ensures
        r == (bit & feature.spec_mask() != 0),
{
    let f = feature.mask();
    (bit & f) != 0
}

/// The vendor that the identification string of leaf 0 names.
#[derive(Debug, PartialEq, Eq, Structural)]
pub enum CpuVendor {
    Intel,
    Amd,
    AmdOld,
    Qemu,
    Kvm,
    Vmware,
    VirtualBox,
    Xen,
    HyperV,
    Unknown,
}

/// Whether `bytes` decode as UTF-8 text (`core::str::from_utf8` accepts them).
pub uninterp spec fn utf8_valid(bytes: Seq<u8>) -> bool;

/// Whether `core::str::from_utf8` accepts `bytes`. Claimed: the answer is
/// `utf8_valid(bytes)`, and bytes that are all ASCII are accepted. Which other
/// sequences are valid UTF-8 is left to the name.
#[verifier::external_body]
pub(crate) fn is_utf8(bytes: &[u8]) -> (ok: bool)
    ensures
        ok == utf8_valid(bytes@),
        (forall|i: int| 0 <= i < bytes@.len() ==> #[trigger] bytes@[i] < 128) ==> ok,
{
    core::str::from_utf8(bytes).is_ok()
}

/// The twelve bytes of the identification string: EBX, EDX, ECX, each in memory
/// (little-endian) byte order.
pub open spec fn vendor_bytes(ebx: u32, edx: u32, ecx: u32) -> Seq<u8> {
    seq![
        ebx as u8, (ebx >> 8) as u8, (ebx >> 16) as u8, (ebx >> 24) as u8,
        edx as u8, (edx >> 8) as u8, (edx >> 16) as u8, (edx >> 24) as u8,
        ecx as u8, (ecx >> 8) as u8, (ecx >> 16) as u8, (ecx >> 24) as u8,
    ]
}

/// `GenuineIntel`.
pub open spec fn intel_id() -> Seq<u8> {
    seq![71u8, 101, 110, 117, 105, 110, 101, 73, 110, 116, 101, 108]
}
/// `AuthenticAMD`.
pub open spec fn amd_id() -> Seq<u8> {
    seq![65u8, 117, 116, 104, 101, 110, 116, 105, 99, 65, 77, 68]
}
/// `AMDisbetter!`.
pub open spec fn amd_old_id() -> Seq<u8> {
    seq![65u8, 77, 68, 105, 115, 98, 101, 116, 116, 101, 114, 33]
}
/// `TCGTCGTCGTCG`.
pub open spec fn qemu_id() -> Seq<u8> {
    seq![84u8, 67, 71, 84, 67, 71, 84, 67, 71, 84, 67, 71]
}
/// ` KVMKVMKVM  `.
pub open spec fn kvm_id() -> Seq<u8> {
    seq![32u8, 75, 86, 77, 75, 86, 77, 75, 86, 77, 32, 32]
}
/// `VMwareVMware`.
pub open spec fn vmware_id() -> Seq<u8> {
    seq![86u8, 77, 119, 97, 114, 101, 86, 77, 119, 97, 114, 101]
}
/// `VBoxVBoxVBox`.
pub open spec fn virtualbox_id() -> Seq<u8> {
    seq![86u8, 66, 111, 120, 86, 66, 111, 120, 86, 66, 111, 120]
}
/// `XenVMMXenVMM`.
pub open spec fn xen_id() -> Seq<u8> {
    seq![88u8, 101, 110, 86, 77, 77, 88, 101, 110, 86, 77, 77]
}
/// `Microsoft Hv`.
pub open spec fn hyperv_id() -> Seq<u8> {
    seq![77u8, 105, 99, 114, 111, 115, 111, 102, 116, 32, 72, 118]
}

/// The vendor named by an identification string.
pub open spec fn vendor_of(id: Seq<u8>) -> CpuVendor {
    if id == intel_id() {
        CpuVendor::Intel
    } else if id == amd_id() {
        CpuVendor::Amd
    } else if id == amd_old_id() {
        CpuVendor::AmdOld
    } else if id == qemu_id() {
        CpuVendor::Qemu
    } else if id == kvm_id() {
        CpuVendor::Kvm
    } else if id == vmware_id() {
        CpuVendor::Vmware
    } else if id == virtualbox_id() {
        CpuVendor::VirtualBox
    } else if id == xen_id() {
        CpuVendor::Xen
    } else if id == hyperv_id() {
        CpuVendor::HyperV
    } else {
        CpuVendor::Unknown
    }
}

/// The identification string in EBX, EDX, ECX of leaf 0, as bytes.
pub fn vendor_id_bytes(ebx: u32, edx: u32, ecx: u32) -> (v: Vec<u8>)
    ensures
        v@ == vendor_bytes(ebx, edx, ecx),
{
    let v: Vec<u8> = vec![
        ebx as u8, (ebx >> 8) as u8, (ebx >> 16) as u8, (ebx >> 24) as u8,
        edx as u8, (edx >> 8) as u8, (edx >> 16) as u8, (edx >> 24) as u8,
        ecx as u8, (ecx >> 8) as u8, (ecx >> 16) as u8, (ecx >> 24) as u8,
    ];
    assert(v@ =~= vendor_bytes(ebx, edx, ecx));
    v
}

/// Whether `a` and `b` hold the same bytes.
pub fn same_bytes(a: &[u8], b: &[u8]) -> (r: bool)
    ensures
        r == (a@ == b@),
{
    if a.len() != b.len() {
        return false;
    }
    let mut i: usize = 0;
    while i < a.len()
        invariant
            a@.len() == b@.len(),
            i <= a@.len(),
            forall|k: int| 0 <= k < i ==> a@[k] == b@[k],
        decreases a@.len() - i,
    {
        if a[i] != b[i] {
            return false;
        }
        i = i + 1;
    }
    assert(a@ =~= b@);
    true
}

/// The vendor named by the identification string `id`, for twelve bytes of text.
pub fn vendor_from_id(id: &[u8]) -> (v: CpuVendor)
    ensures
        v == vendor_of(id@),
{
    let intel: [u8; 12] = [71, 101, 110, 117, 105, 110, 101, 73, 110, 116, 101, 108];
    let amd: [u8; 12] = [65, 117, 116, 104, 101, 110, 116, 105, 99, 65, 77, 68];
    let amd_old: [u8; 12] = [65, 77, 68, 105, 115, 98, 101, 116, 116, 101, 114, 33];
    let qemu: [u8; 12] = [84, 67, 71, 84, 67, 71, 84, 67, 71, 84, 67, 71];
    let kvm: [u8; 12] = [32, 75, 86, 77, 75, 86, 77, 75, 86, 77, 32, 32];
    let vmware: [u8; 12] = [86, 77, 119, 97, 114, 101, 86, 77, 119, 97, 114, 101];
    let vbox: [u8; 12] = [86, 66, 111, 120, 86, 66, 111, 120, 86, 66, 111, 120];
    let xen: [u8; 12] = [88, 101, 110, 86, 77, 77, 88, 101, 110, 86, 77, 77];
    let hyperv: [u8; 12] = [77, 105, 99, 114, 111, 115, 111, 102, 116, 32, 72, 118];
    assert(intel@ =~= intel_id());
    assert(amd@ =~= amd_id());
    assert(amd_old@ =~= amd_old_id());
    assert(qemu@ =~= qemu_id());
    assert(kvm@ =~= kvm_id());
    assert(vmware@ =~= vmware_id());
    assert(vbox@ =~= virtualbox_id());
    assert(xen@ =~= xen_id());
    assert(hyperv@ =~= hyperv_id());
    if same_bytes(id, &intel) {
        CpuVendor::Intel
    } else if same_bytes(id, &amd) {
        CpuVendor::Amd
    } else if same_bytes(id, &amd_old) {
        CpuVendor::AmdOld
    } else if same_bytes(id, &qemu) {
        CpuVendor::Qemu
    } else if same_bytes(id, &kvm) {
        CpuVendor::Kvm
    } else if same_bytes(id, &vmware) {
        CpuVendor::Vmware
    } else if same_bytes(id, &vbox) {
        CpuVendor::VirtualBox
    } else if same_bytes(id, &xen) {
        CpuVendor::Xen
    } else if same_bytes(id, &hyperv) {
        CpuVendor::HyperV
    } else {
        CpuVendor::Unknown
    }
}

impl CpuVendor {
    /// The vendor an identification string names.
    pub fn from(value: &str) -> (v: Self)
        ensures
            v == vendor_of(value.spec_bytes()),
    {
        vendor_from_id(value.as_bytes())
    }
}

/// The vendor that the leaf-0 registers EBX, EDX, ECX name. The string they spell
/// must be valid UTF-8 (on other bytes the identification fails).
pub fn get_vendor(ebx: u32, edx: u32, ecx: u32) -> (v: CpuVendor)
    requires
        utf8_valid(vendor_bytes(ebx, edx, ecx)),
    ensures
        v == vendor_of(vendor_bytes(ebx, edx, ecx)),
{
    let id = vendor_id_bytes(ebx, edx, ecx);
    vendor_from_id(id.as_slice())
}

/// The vendor that the leaf-0 registers name, or `None` when the bytes they spell
/// are not UTF-8.
pub fn try_get_vendor(ebx: u32, edx: u32, ecx: u32) -> (v: Option<CpuVendor>)
    ensures
        v is None <==> !utf8_valid(vendor_bytes(ebx, edx, ecx)),
        v is Some ==> v->0 == vendor_of(vendor_bytes(ebx, edx, ecx)),
{
    let id = vendor_id_bytes(ebx, edx, ecx);
    if is_utf8(id.as_slice()) {
        Some(vendor_from_id(id.as_slice()))
    } else {
        None
    }
}

/// What the kernel records about the processor.
#[derive(Debug)]
pub struct CpuInfo {
    pub vendor: CpuVendor,
    pub x2apic_supported: bool,
}

impl CpuInfo {
    /// The processor described by the leaf-0 registers EBX, EDX, ECX and the ECX
    /// register of leaf 1.
    pub fn new(ebx: u32, edx: u32, ecx: u32, leaf1_ecx: u32) -> (c: Self)
        requires
            utf8_valid(vendor_bytes(ebx, edx, ecx)),
        ensures
            c.vendor == vendor_of(vendor_bytes(ebx, edx, ecx)),
            c.x2apic_supported == (leaf1_ecx & 0x0020_0000 != 0),
    {
        CpuInfo {
            vendor: get_vendor(ebx, edx, ecx),
            x2apic_supported: check_feature(CpuFeature::X2Apic, leaf1_ecx),
        }
    }

    /// As `new`, or `None` when the identification string is not UTF-8.
    pub fn try_new(ebx: u32, edx: u32, ecx: u32, leaf1_ecx: u32) -> (c: Option<Self>)
        ensures
            c is None <==> !utf8_valid(vendor_bytes(ebx, edx, ecx)),
            c is Some ==> c->0.vendor == vendor_of(vendor_bytes(ebx, edx, ecx)),
            c is Some ==> c->0.x2apic_supported == (leaf1_ecx & 0x0020_0000 != 0),
    {
        let id = vendor_id_bytes(ebx, edx, ecx);
        if is_utf8(id.as_slice()) {
            Some(CpuInfo::new(ebx, edx, ecx, leaf1_ecx))
        } else {
            None
        }
    }
}

} // verus!
