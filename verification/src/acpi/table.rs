//! The RSDP, the generic table header, the FADT and the walk over the RSDT entries.
use vstd::prelude::*;
use crate::acpi::AcpiError;

verus! {

/// The ACPI revision an RSDP announces.
#[derive(Debug, PartialEq, Eq, Structural)]
pub enum AcpiVersion {
    V1,
    V2,
}

/// The root system description pointer.
#[derive(Debug)]
pub struct RsdpHeader {
    pub signature: [u8; 8],
    pub checksum: u8,
    pub oem_id: [u8; 6],
    pub revision: u8,
    pub rsdt_adddress: u32,
    pub len: u32,
    pub xsdt_address: u64,
    pub extended_checksum: u8,
    pub reserved: [u8; 3],
}

/// The header that every system description table starts with.
#[derive(Debug, Clone, Copy)]
pub struct SdtHeader {
    pub signature: [u8; 4],
    pub len: u32,
    pub revision: u8,
    pub checksum: u8,
    pub oem_id: [u8; 6],
    pub oem_table_id: [u8; 8],
    pub oem_revision: u32,
    pub creator_id: [u8; 4],
    pub creator_revision: u32,
}

/// A register address in the ACPI generic address format.
#[derive(Debug, Clone, Copy)]
pub struct GenericAddress {
    pub address_space: u8,
    pub bit_width: u8,
    pub bit_offset: u8,
    pub access_size: u8,
    pub address: u64,
}

/// The fixed ACPI description table.
#[derive(Debug)]
pub struct FadtHeader {
    pub sdt: SdtHeader,
    pub firmware_ctrl: u32,
    pub dsdt: u32,
    pub reserved: u8,
    pub prefered_power_management_profile: u8,
    pub sci_interrupt: u16,
    pub smi_interrupt: u32,
    pub acpi_enable: u8,
    pub acpi_disable: u8,
    pub s4bios_req: u8,
    pub pstate_control: u8,
    pub pm1a_event_block: u32,
    pub pm1b_event_block: u32,
    pub pm1a_control_block: u32,
    pub pm1b_control_block: u32,
    pub pm2_control_block: u32,
    pub pmtimer_block: u32,
    pub gpe0_block: u32,
    pub gpe1_block: u32,
    pub pm1_event_length: u8,
    pub pm2_control_length: u8,
    pub pm_timer_length: u8,
    pub gpe0_length: u8,
    pub gpe1_length: u8,
    pub gpe1_base: u8,
    pub cstate_control: u8,
    pub worst_c2_latency: u16,
    pub worst_c3_latency: u16,
    pub flush_size: u16,
    pub flush_stride: u16,
    pub duty_offset: u8,
    pub duty_width: u8,
    pub day_alarm: u8,
    pub month_alarm: u8,
    pub century: u8,
    pub boot_architecture_flags: u16,
    pub reserved2: u8,
    pub flags: u32,
    pub reset_reg: GenericAddress,
    pub x_firmware_control: u64,
    pub s_dsdt: u64,
    pub x_pm1a_event_block: GenericAddress,
    pub x_pm1b_event_block: GenericAddress,
    pub x_pm1a_control_block: GenericAddress,
    pub x_pm1b_control_block: GenericAddress,
    pub x_pm2_control_block: GenericAddress,
    pub x_pmtimer_block: GenericAddress,
    pub x_gpe_0_block: GenericAddress,
    pub x_gpe_1_block: GenericAddress,
}

/// `RSD PTR `.
pub open spec fn rsdp_signature() -> Seq<u8> {
    seq![82u8, 83, 68, 32, 80, 84, 82, 32]
}

/// `RSDT`.
pub open spec fn rsdt_signature() -> Seq<u8> {
    seq![82u8, 83, 68, 84]
}

/// `FACP`.
pub open spec fn fadt_signature() -> Seq<u8> {
    seq![70u8, 65, 67, 80]
}

/// `HPET`.
pub open spec fn hpet_signature() -> Seq<u8> {
    seq![72u8, 80, 69, 84]
}

/// Whether the four bytes of `sig` are `a b c d`.
pub fn signature4_is(sig: &[u8; 4], a: u8, b: u8, c: u8, d: u8) -> (r: bool)
    ensures
        r == (sig@ == seq![a, b, c, d]),
{
    let r = sig[0] == a && sig[1] == b && sig[2] == c && sig[3] == d;
    assert(r ==> sig@ =~= seq![a, b, c, d]);
    r
}

/// The kind of table a signature announces, as far as the kernel cares.
#[derive(Debug, PartialEq, Eq, Structural)]
pub enum TableKind {
    Fadt,
    Hpet,
    Other,
}

/// The kind of table that `signature` announces: `FACP` or `HPET`, anything else
/// is skipped.
pub fn table_kind(signature: &[u8; 4]) -> (k: TableKind)
    ensures
        k == if signature@ == fadt_signature() {
            TableKind::Fadt
        } else if signature@ == hpet_signature() {
            TableKind::Hpet
        } else {
            TableKind::Other
        },
{
    if signature4_is(signature, 70, 65, 67, 80) {
        TableKind::Fadt
    } else if signature4_is(signature, 72, 80, 69, 84) {
        TableKind::Hpet
    } else {
        TableKind::Other
    }
}

impl SdtHeader {
    /// Whether this is the header of an RSDT.
    pub fn check_signature(&self) -> (ok: bool)
        ensures
            ok == (self.signature@ == rsdt_signature()),
    {
        signature4_is(&self.signature, 82, 83, 68, 84)
    }
}

impl FadtHeader {
    /// Whether this is a FADT.
    pub fn check_signature(&self) -> (ok: bool)
        ensures
            ok == (self.sdt.signature@ == fadt_signature()),
    {
        signature4_is(&self.sdt.signature, 70, 65, 67, 80)
    }
}

/// The address of the page that holds `addr`.
pub open spec fn page_of(addr: int) -> int {
    addr / 4096 * 4096
}

/// `addr` rounded down to its 4 KiB page.
pub fn page_align_down(addr: u64) -> (r: u64)
    ensures
        r == page_of(addr as int),
{
    let r = addr & !0xfffu64;
    assert((addr & !0xfffu64) == addr / 4096 * 4096) by (bit_vector);
    r
}

/// The page, in the higher-half direct map at `offset`, that holds the physical
/// address `phys`; the addition wraps.
pub fn higher_half_page(phys: u64, offset: u64) -> (r: u64)
    ensures
        r == page_of((phys + offset) % 0x1_0000_0000_0000_0000),
{
    let v = phys.wrapping_add(offset);
    page_align_down(v)
}

impl RsdpHeader {
    /// Whether this is an RSDP.
    pub fn check_signature(&self) -> (ok: bool)
        ensures
            ok == (self.signature@ == rsdp_signature()),
    {
        let s = &self.signature;
        let ok = s[0] == 82 && s[1] == 83 && s[2] == 68 && s[3] == 32 && s[4] == 80 && s[5] == 84
            && s[6] == 82 && s[7] == 32;
        assert(ok ==> s@ =~= rsdp_signature());
        ok
    }

    /// Revisions 0 and 1 are ACPI 1, later ones ACPI 2.
    pub fn get_version(&self) -> (v: AcpiVersion)
        ensures
            v == if self.revision <= 1 {
                AcpiVersion::V1
            } else {
                AcpiVersion::V2
            },
    {
        match self.revision {
            0 | 1 => AcpiVersion::V1,
            _ => AcpiVersion::V2,
        }
    }

    /// The page in the direct map at `offset` that holds the RSDT.
    pub fn get_rsdt_address(&self, offset: u64) -> (r: u64)
        ensures
            r == page_of((self.rsdt_adddress + offset) % 0x1_0000_0000_0000_0000),
    {
        higher_half_page(self.rsdt_adddress as u64, offset)
    }
}

/// The size of the RSDT header, after which its entries follow.
pub const SDT_HEADER_SIZE: u32 = 36;

/// The RSDP and the RSDT that it points to.
pub struct AcpiTables {
    pub rsdp: RsdpHeader,
    pub rsdt: SdtHeader,
}

impl AcpiTables {
    /// The tables made of an RSDP and the RSDT it points to.
    pub fn new(rsdp: RsdpHeader, rsdt: SdtHeader) -> (t: Self)
        ensures
            t.rsdp == rsdp,
            t.rsdt == rsdt,
    {
        AcpiTables { rsdp, rsdt }
    }

    /// Bytes per RSDT entry: 4 for revision 0, 8 otherwise.
    pub fn entry_size(&self) -> (s: u64)
        ensures
            s == if self.rsdp.revision == 0 {
                4u64
            } else {
                8u64
            },
    {
        if self.rsdp.revision == 0 {
            4
        } else {
            8
        }
    }

    /// The number of entries the RSDT holds.
    pub fn entry_count(&self) -> (n: u64)
        requires
            self.rsdt.len >= SDT_HEADER_SIZE,
        ensures
            n == (self.rsdt.len - SDT_HEADER_SIZE) / (if self.rsdp.revision == 0 {
                4int
            } else {
                8int
            }),
    {
        ((self.rsdt.len - SDT_HEADER_SIZE) as u64) / self.entry_size()
    }

    /// The physical addresses of the RSDT entries, in order: right after the
    /// header, one entry size apart.
    pub fn get_tables(&self) -> (entries: Vec<u64>)
        requires
            self.rsdt.len >= SDT_HEADER_SIZE,
        ensures
            entries@.len() == (self.rsdt.len - SDT_HEADER_SIZE) / (if self.rsdp.revision == 0 {
                4int
            } else {
                8int
            }),
            forall|i: int|
                0 <= i < entries@.len() ==> #[trigger] entries@[i] == self.rsdp.rsdt_adddress
                    + SDT_HEADER_SIZE + i * (if self.rsdp.revision == 0 {
                    4int
                } else {
                    8int
                }),
    {
        let size = self.entry_size();
        let count = self.entry_count();
        let base = self.rsdp.rsdt_adddress as u64 + SDT_HEADER_SIZE as u64;
        let mut entries: Vec<u64> = Vec::new();
        let mut i: u64 = 0;
        while i < count
            invariant
                size == (if self.rsdp.revision == 0 {
                    4int
                } else {
                    8int
                }),
                count == (self.rsdt.len - SDT_HEADER_SIZE) / (size as int),
                base == self.rsdp.rsdt_adddress + SDT_HEADER_SIZE,
                i <= count,
                entries@.len() == i,
                forall|k: int| 0 <= k < i ==> #[trigger] entries@[k] == base + k * size,
            decreases count - i,
        {
            assert(i * size <= count * size) by (nonlinear_arith)
                requires
                    i <= count,
            ;
            assert(count * size <= 0x1_0000_0000) by (nonlinear_arith)
                requires
                    count == (self.rsdt.len - SDT_HEADER_SIZE) / (size as int),
                    size == 4 || size == 8,
                    self.rsdt.len <= 0xffff_ffff,
            ;
            entries.push(base + i * size);
            i = i + 1;
        }
        entries
    }
}

/// The power-management profile known after looking at one more table of
/// kind `kind`: the profile of a FADT, `fadt_profile`, replaces the one known so
/// far; other tables leave it.
pub fn acpi_profile_step(profile: u8, kind: TableKind, fadt_profile: u8) -> (p: u8)
    ensures
        p == if kind == TableKind::Fadt {
            fadt_profile
        } else {
            profile
        },
{
    match kind {
        TableKind::Fadt => fadt_profile,
        _ => profile,
    }
}

/// The physical address of the RSDP the boot loader gave, or `NoAcpiTables`
/// when it gave none.
pub fn rsdp_present(rsdp: Option<u64>) -> (r: Result<u64, AcpiError>)
    ensures
        r is Err <==> rsdp is None,
        r is Err ==> r->Err_0 == AcpiError::NoAcpiTables,
        r is Ok ==> r->Ok_0 == rsdp->0,
{
    match rsdp {
        Some(a) => Ok(a),
        None => Err(AcpiError::NoAcpiTables),
    }
}

} // verus!
