//! PCI configuration space: addressing and the decoding of a device header.
use vstd::prelude::*;

verus! {

pub const CONFIG_ADDRESS: u16 = 0xCF8;
pub const CONFIG_DATA: u16 = 0xCFC;

/// The PCI class code and subclass of a USB xHCI controller (0x0C03).
pub const XHCI_CLASS: u16 = 3075;

/// A device slot on a bus.
#[derive(Clone, Copy)]
pub struct PciInfo {
    pub bus: u8,
    pub device: u8,
}

/// What the kernel records about a PCI device.
#[derive(Debug)]
pub struct PciDevice {
    pub device: u8,
    pub bus: u8,
    pub device_id: u16,
    pub vendor_id: u16,
    pub class: u16,
    pub header_type: u8,
    pub bars: [u32; 6],
    pub supported_fns: [bool; 8],
    pub interrupt_line: u8,
    pub interrupt_pin: u8,
}

/// The configuration dwords of function 0 of a device that `check_device` reads,
/// and the identification dword of each of its eight functions.
pub struct PciConfig {
    /// Offset 0x00: device id (high half) and vendor id (low half).
    pub id: u32,
    /// Offset 0x08: class code and subclass in the high half.
    pub class: u32,
    /// Offset 0x0C: header type in bits 16..24.
    pub header: u32,
    /// Offsets 0x10 to 0x24: the base address registers.
    pub bars: [u32; 6],
    /// Offset 0x3C: interrupt line (bits 0..8) and pin (bits 8..16).
    pub last_row: u32,
    /// Offset 0x00 of functions 0 to 7.
    pub function_ids: [u32; 8],
}

/// The value written to the address port to read `offset` of function `func` of
/// the device `info`: enable bit, bus, device, function and dword-aligned offset,
/// each shifted into place and or-ed together.
pub fn pci_config_address(info: PciInfo, func: u8, offset: u8) -> (a: u32)
    ensures
        a == ((info.bus as u32) << 16u32) | ((info.device as u32) << 11u32) | ((func as u32)
            << 8u32) | ((offset as u32) & 0xfcu32) | 0x8000_0000u32,
        info.device < 32 && func < 8 ==> a == 0x8000_0000 + info.bus * 0x1_0000 + info.device
            * 0x800 + func * 0x100 + (offset / 4) * 4,
{
    let bus = info.bus as u32;
    let device = info.device as u32;
    let func = func as u32;
    let offset = offset as u32;
    let a = (bus << 16) | (device << 11) | (func << 8) | (offset & 0xfc) | 0x8000_0000;
    if device < 32 && func < 8 {
        assert(a == 0x8000_0000 + bus * 0x1_0000 + device * 0x800 + func * 0x100 + (offset / 4) * 4)
            by (bit_vector)
            requires
                a == (bus << 16) | (device << 11) | (func << 8) | (offset & 0xfc) | 0x8000_0000,
                bus < 256,
                device < 32,
                func < 8,
                offset < 256,
        ;
    }
    a
}

/// The device id (high half) and vendor id (low half) of an identification dword.
pub fn get_ids(id_word: u32) -> (ids: (u16, u16))
    ensures
        ids.0 == id_word / 0x1_0000,
        ids.1 == id_word % 0x1_0000,
{
    let dev_id = ((id_word >> 16) & 0xFFFF) as u16;
    let vnd_id = (id_word & 0xFFFF) as u16;
    assert(((id_word >> 16) & 0xFFFF) == id_word / 0x1_0000 && (id_word & 0xFFFF) == id_word
        % 0x1_0000) by (bit_vector);
    (dev_id, vnd_id)
}

/// The two ids put back together give the identification dword.
pub proof fn lemma_ids_recombine(id_word: u32)
    ensures
        (id_word / 0x1_0000) * 0x1_0000 + id_word % 0x1_0000 == id_word,
{
}

/// Whether a function answers: its vendor id is not 0xFFFF.
pub fn check_func(id_word: u32) -> (ok: bool)
    ensures
        ok == (id_word % 0x1_0000 != 0xFFFF),
{
    get_ids(id_word).1 != 0xFFFF
}

/// The header type: bits 16..24 of the dword at offset 0x0C.
pub fn get_header_type(header_word: u32) -> (t: u8)
    ensures
        t == (header_word / 0x1_0000) % 0x100,
{
    let t = ((header_word >> 16) & 0xFF) as u8;
    assert(((header_word >> 16) & 0xFF) == (header_word / 0x1_0000) % 0x100) by (bit_vector);
    t
}

/// Whether a header type marks a multi-function device (bit 7).
pub fn is_multi_function(header_type: u8) -> (r: bool)
    ensures
        r == (header_type >= 0x80),
{
    let r = (header_type & 0x80) != 0;
    assert(((header_type & 0x80u8) != 0) == (header_type >= 0x80)) by (bit_vector);
    r
}

/// Whether function `f` is recorded as supported: function 0 always, the others
/// when the header marks a multi-function device and their vendor id is not 0xFFFF.
pub open spec fn function_supported(config: PciConfig, f: int) -> bool {
    f == 0 || ((config.header / 0x1_0000) % 0x100 >= 0x80 && config.function_ids[f] % 0x1_0000
        != 0xFFFF)
}

/// Only a multi-function device (bit 7 of the header type set) has functions
/// beyond 0: on any other device every other function is unsupported, whatever
/// its vendor id reads. On a multi-function device a function is supported
/// exactly when its vendor id is not 0xFFFF. Function 0 is always supported.
pub proof fn lemma_functions_need_multi_function(config: PciConfig, f: int)
    requires
        0 <= f < 8,
    ensures
        function_supported(config, 0),
        f != 0 && (config.header / 0x1_0000) % 0x100 < 0x80 ==> !function_supported(config, f),
        f != 0 && (config.header / 0x1_0000) % 0x100 >= 0x80 ==> (function_supported(config, f)
            <==> config.function_ids[f] % 0x1_0000 != 0xFFFF),
{
}

/// The device that answers at `device` on `bus` with configuration `config`, or
/// `None` when its vendor id is 0xFFFF (no device).
pub fn check_device(bus: u8, device: u8, config: &PciConfig) -> (d: Option<PciDevice>)
    requires
        device < 32,
    ensures
        d is None <==> config.id % 0x1_0000 == 0xFFFF,
        d is Some ==> ({
            let dev = d->0;
            &&& dev.bus == bus
            &&& dev.device == device
            &&& dev.device_id == config.id / 0x1_0000
            &&& dev.vendor_id == config.id % 0x1_0000
            &&& dev.class == config.class / 0x1_0000
            &&& dev.header_type == (config.header / 0x1_0000) % 0x100
            &&& dev.bars@ == config.bars@
            &&& forall|f: int| 0 <= f < 8 ==> dev.supported_fns@[f] == function_supported(*config, f)
            &&& dev.interrupt_line == config.last_row % 0x100
            &&& dev.interrupt_pin == (config.last_row / 0x100) % 0x100
        }),
        d is Some ==> d->0.supported_fns@[0],
        d is Some && (config.header / 0x1_0000) % 0x100 < 0x80 ==> d->0.supported_fns@ == seq![
            true,
            false,
            false,
            false,
            false,
            false,
            false,
            false,
        ],
        d is Some && (config.header / 0x1_0000) % 0x100 >= 0x80 ==> forall|f: int|
            1 <= f < 8 ==> d->0.supported_fns@[f] == (config.function_ids[f] % 0x1_0000 != 0xFFFF),
{
    let (device_id, vendor_id) = get_ids(config.id);
    if vendor_id == 0xFFFF {
        return None;
    }
    let class_word = config.class;
    let class = (class_word >> 16) & 0x0000FFFF;
    assert(((class_word >> 16) & 0x0000FFFF) == class_word / 0x1_0000) by (bit_vector);
    let header_type = get_header_type(config.header);
    let mut supported_fns = [true, false, false, false, false, false, false, false];
    if is_multi_function(header_type) {
        let mut function: usize = 0;
        while function < 8
            invariant
                function <= 8,
                header_type == (config.header / 0x1_0000) % 0x100,
                header_type >= 0x80,
                vendor_id != 0xFFFF,
                forall|f: int|
                    0 <= f < function ==> supported_fns@[f] == function_supported(*config, f),
                forall|f: int| function <= f < 8 ==> supported_fns@[f] == (f == 0),
            decreases 8 - function,
        {
            if vendor_id != 0xFFFF && check_func(config.function_ids[function]) {
                supported_fns[function] = true;
            }
            function = function + 1;
        }
    }
    proof {
        if header_type < 0x80 {
            assert(supported_fns@ =~= seq![true, false, false, false, false, false, false, false]);
            assert(supported_fns@[0]);
        } else {
            assert(supported_fns@[0] == function_supported(*config, 0));
            assert forall|f: int| 1 <= f < 8 implies supported_fns@[f] == (config.function_ids[f]
                % 0x1_0000 != 0xFFFF) by {
                assert(supported_fns@[f] == function_supported(*config, f));
            }
        }
    }
    let last_row = config.last_row;
    let interrupt_line = (last_row & 0xFF) as u8;
    let interrupt_pin = ((last_row >> 8) & 0xFF) as u8;
    assert((last_row & 0xFF) == last_row % 0x100 && ((last_row >> 8) & 0xFF) == (last_row / 0x100)
        % 0x100) by (bit_vector);
    Some(
        PciDevice {
            device,
            bus,
            device_id,
            vendor_id,
            class: class as u16,
            header_type,
            bars: config.bars,
            supported_fns,
            interrupt_line,
            interrupt_pin,
        },
    )
}

/// Whether the device is a USB xHCI controller.
pub fn is_xhci(dev: &PciDevice) -> (r: bool)
    ensures
        r == (dev.class == XHCI_CLASS),
{
    dev.class == XHCI_CLASS
}

} // verus!
