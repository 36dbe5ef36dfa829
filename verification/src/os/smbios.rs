//! SMBIOS 3 entry point and structure-table layout.
use vstd::prelude::*;

verus! {

/// The 64-bit SMBIOS entry point.
#[derive(Debug, Copy, Clone)]
pub struct SmbiosEntry {
    pub anchor: [u8; 5],
    pub checksum: u8,
    pub entry_length: u8,
    pub major_version: u8,
    pub minor_version: u8,
    pub docrev: u8,
    pub entry_revision: u8,
    pub reserved: u8,
    pub max_structure_size: u32,
    pub table_address: u64,
}

/// The header every SMBIOS structure starts with.
#[derive(Debug, Clone, Copy)]
pub struct SmbiosHeader {
    pub smbios_type: u8,
    pub length: u8,
    pub handle: u16,
}

/// The processor-information structure (type 4).
#[derive(Debug, Clone, Copy)]
pub struct SmbiosCpuInfo {
    pub type_: u8,
    pub length: u8,
    pub handle: u16,
    pub socket_designation: u8,
    pub processor_type: u8,
    pub processor_family: u8,
    pub processor_manufacturer: u8,
    pub processor_id_low: u32,
    pub processor_id_high: u32,
    pub processor_version: u8,
    pub voltage: u8,
    pub external_clock: u16,
    pub max_speed: u16,
    pub current_speed: u16,
    pub status: u8,
    pub processor_upgrade: u8,
}

/// Why the SMBIOS tables could not be read.
#[derive(Debug)]
pub enum SmbiosError {
    NoSmbiosEntry,
    InvalidSmbiosEntry,
}

/// The structure type of processor information.
pub const SMBIOS_PROCESSOR_INFO: u8 = 4;

/// How far the string area of a structure is searched for its end.
pub const MAX_STRING_SEARCH: usize = 2048;

/// Whether the anchor is the SMBIOS 3 anchor `_SM3_`.
pub fn is_smbios3_anchor(anchor: &[u8; 5]) -> (r: bool)
    ensures
        r == (anchor@ == seq![95u8, 83, 77, 51, 95]),
{
    let r = anchor[0] == 95 && anchor[1] == 83 && anchor[2] == 77 && anchor[3] == 51 && anchor[4]
        == 95;
    assert(r ==> anchor@ =~= seq![95u8, 83, 77, 51, 95]);
    r
}

/// Whether the string area has two zero bytes at `i` and `i + 1`.
pub open spec fn double_nul_at(strings: Seq<u8>, i: int) -> bool {
    strings[i] == 0 && strings[i + 1] == 0
}

/// Whether `strings` holds every byte the search for the end of the strings reads:
/// all 2048 it may look at, or enough to reach a pair of zero bytes that lies
/// within the search.
pub open spec fn string_area_readable(strings: Seq<u8>) -> bool {
    ||| strings.len() >= MAX_STRING_SEARCH
    ||| exists|k: int|
        0 <= k < MAX_STRING_SEARCH - 1 && k + 1 < strings.len() && #[trigger] double_nul_at(
            strings,
            k,
        )
}

/// Where the search for the end of the strings, from position `i` on, stops: the
/// first `k >= i` with two zero bytes at `k` and `k + 1`, or
/// `MAX_STRING_SEARCH - 1` when there is none before it.
pub open spec fn strings_end_from(strings: Seq<u8>, i: int) -> int
    decreases MAX_STRING_SEARCH - 1 - i,
{
    if i >= MAX_STRING_SEARCH - 1 {
        MAX_STRING_SEARCH - 1
    } else if double_nul_at(strings, i) {
        i
    } else {
        strings_end_from(strings, i + 1)
    }
}

/// The whole length of a structure with header `hd` whose string area is
/// `strings`: the formatted length, the strings up to the first pair of zero
/// bytes, and that pair.
pub open spec fn structure_len(hd: SmbiosHeader, strings: Seq<u8>) -> int {
    hd.length + strings_end_from(strings, 0) + 2
}

/// The whole length of a structure with header `hd` whose string area is
/// `strings`: the formatted length, then the strings up to the first pair of zero
/// bytes, which count too. The search gives up after 2047 positions.
pub fn smbios_header_len(hd: &SmbiosHeader, strings: &[u8]) -> (len: usize)
    requires
        string_area_readable(strings@),
    ensures
        len == structure_len(*hd, strings@),
{
    let mut i: usize = 0;
    let max_search: usize = MAX_STRING_SEARCH;
    while i < max_search - 1
        invariant
            i <= max_search - 1,
            max_search == MAX_STRING_SEARCH,
            string_area_readable(strings@),
            forall|k: int| 0 <= k < i ==> !double_nul_at(strings@, k),
            strings_end_from(strings@, 0) == strings_end_from(strings@, i as int),
        ensures
            strings_end_from(strings@, 0) == i,
        decreases max_search - i,
    {
        proof {
            if strings@.len() < MAX_STRING_SEARCH {
                let k = choose|k: int|
                    0 <= k < MAX_STRING_SEARCH - 1 && k + 1 < strings@.len()
                        && #[trigger] double_nul_at(strings@, k);
                assert(i <= k);
            }
        }
        if strings[i] == 0 && strings[i + 1] == 0 {
            break;
        }
        i = i + 1;
    }
    hd.length as usize + i + 2
}

/// What the walk over the structure table does at a structure.
pub enum SmbiosStep {
    /// The structure is the processor information: the walk stops there.
    Found,
    /// The next structure starts at this address.
    Next(u64),
}

/// One step of the walk over the structure table: at the structure at `table`
/// with header `hd` and string area `strings`, stop when it holds the processor
/// information, else move past it. `None` when the address of the next structure
/// does not fit in 64 bits.
pub fn smbios_step(table: u64, hd: &SmbiosHeader, strings: &[u8]) -> (r: Option<SmbiosStep>)
    requires
        hd.smbios_type != SMBIOS_PROCESSOR_INFO ==> string_area_readable(strings@),
    ensures
        hd.smbios_type == SMBIOS_PROCESSOR_INFO ==> r == Some(SmbiosStep::Found),
        hd.smbios_type != SMBIOS_PROCESSOR_INFO ==> r == if table + structure_len(*hd, strings@)
            <= u64::MAX {
            Some(SmbiosStep::Next((table + structure_len(*hd, strings@)) as u64))
        } else {
            None
        },
{
    if hd.smbios_type == SMBIOS_PROCESSOR_INFO {
        return Some(SmbiosStep::Found);
    }
    let len = smbios_header_len(hd, strings) as u64;
    match table.checked_add(len) {
        Some(next) => Some(SmbiosStep::Next(next)),
        None => None,
    }
}

} // verus!
