//! The drivers of the supported devices, and how each finds its device.
//!
//! To probe is to decide, from what the platform and the bus report, whether there is a device and
//! how it is to be brought up. Bringing it up is left to the caller, and so is reading the bus.
use vstd::prelude::*;

verus! {

/// Where the platform keeps the devices that no bus reports.
#[derive(Debug, Clone, Copy, PartialEq, Eq, Structural)]
pub struct DeviceConfig {
    /// The physical address of the initial RAM disk.
    pub initrd_start: usize,
    /// Its size in bytes.
    pub initrd_size: usize,
    /// The physical address of the SD/MMC controller.
    pub sdmmc_paddr: usize,
    /// Whether the other devices are found on a PCI bus.
    pub pci_bus: bool,
}

/// The bus, device and function number of a PCI function.
#[derive(Debug, Clone, Copy, PartialEq, Eq, Structural)]
pub struct DeviceFunction {
    pub bus: u8,
    pub device: u8,
    pub function: u8,
}

/// What a PCI function says of itself.
#[derive(Debug, Clone, Copy, PartialEq, Eq, Structural)]
pub struct DeviceFunctionInfo {
    pub vendor_id: u16,
    pub device_id: u16,
}

/// What a base address register of a PCI function describes.
#[allow(inconsistent_fields)]
#[derive(Debug, Clone, Copy, PartialEq, Eq, Structural)]
pub enum BarInfo {
    /// A memory region.
    Memory { address: u64, size: u64 },
    /// A region of I/O ports.
    IO { address: u32, size: u32 },
}

/// A block device to bring up.
#[derive(Debug, Clone, Copy, PartialEq, Eq, Structural)]
pub enum BlockPlan {
    /// A RAM disk over physical memory.
    RamDisk { start: usize, size: usize },
    /// The partition named `root` of the disk behind an SD/MMC controller.
    SdMmcGptRoot { paddr: usize },
    /// The SD card of a BCM2835.
    BcmSdhci,
}

/// A network device to bring up.
#[derive(Debug, Clone, Copy, PartialEq, Eq, Structural)]
pub enum NetPlan {
    /// An Intel 82599, whose registers are at this physical address.
    Ixgbe { address: usize, size: usize },
    /// The network controller of a Phytium Pi, with its registers mapped here.
    FXmac { mapped_regs: usize },
    /// An RTL8125, whose registers are at this physical address.
    Realtek { base: u64 },
}

/// A device to bring up.
#[derive(Debug, Clone, Copy, PartialEq, Eq, Structural)]
pub enum DevicePlan {
    Block(BlockPlan),
    Net(NetPlan),
}

impl DevicePlan {
    /// Whether the probe has to stop the system if the device cannot be brought up. Otherwise it
    /// reports that there is no device.
    pub fn failure_is_fatal(&self) -> (r: bool)
        ensures
            r == (self matches DevicePlan::Net(NetPlan::Ixgbe { .. })),
    {
        match self {
            DevicePlan::Net(NetPlan::Ixgbe { .. }) => true,
            _ => false,
        }
    }
}

/// How a driver looks for its device. A driver finds nothing in the ways that it does not define.
pub trait DriverProbe {
    /// Looks for a device that is known without asking a bus.
    fn probe_global(_config: &DeviceConfig) -> (r: Option<DevicePlan>)
        default_ensures
            r is None,
    {
        None
    }

    /// Looks at a device that is described by its memory-mapped registers.
    fn probe_mmio(_mmio_base: usize, _mmio_size: usize) -> (r: Option<DevicePlan>)
        default_ensures
            r is None,
    {
        None
    }

    /// Tells which base address register of a PCI function the driver has to see, if the function is
    /// one that it drives.
    fn pci_bar(_dev_info: &DeviceFunctionInfo) -> (r: Option<u8>)
        default_ensures
            r is None,
    {
        None
    }

    /// Looks at a PCI function, given the base address register that the driver asked for.
    fn probe_pci(_bdf: DeviceFunction, _dev_info: &DeviceFunctionInfo, _bar: &BarInfo) -> (r: Option<
        DevicePlan,
    >)
        default_ensures
            r is None,
    {
        None
    }
}

/// The RAM disk that the boot loader left in memory.
pub struct RamDiskDriver;

impl DriverProbe for RamDiskDriver {
    fn probe_global(config: &DeviceConfig) -> (r: Option<DevicePlan>)
        ensures
            r == Some(
                DevicePlan::Block(
                    BlockPlan::RamDisk { start: config.initrd_start, size: config.initrd_size },
                ),
            ),
    {
        Some(
            DevicePlan::Block(
                BlockPlan::RamDisk { start: config.initrd_start, size: config.initrd_size },
            ),
        )
    }
}

/// The root partition of a disk behind an SD/MMC controller.
pub struct SdMmcGptDriver;

impl DriverProbe for SdMmcGptDriver {
    fn probe_global(config: &DeviceConfig) -> (r: Option<DevicePlan>)
        ensures
            r == Some(
                DevicePlan::Block(BlockPlan::SdMmcGptRoot { paddr: config.sdmmc_paddr }),
            ),
    {
        Some(DevicePlan::Block(BlockPlan::SdMmcGptRoot { paddr: config.sdmmc_paddr }))
    }
}

impl SdMmcGptDriver {
    /// Tells the root partition from the others, by its name.
    pub fn is_root_partition(name: &str) -> (r: bool)
        ensures
            r == (name@ == "root"@),
    {
        proof {
            reveal_strlit("root");
        }
        let r: bool = name.unicode_len() == 4 && name.get_char(0) == 'r' && name.get_char(1) == 'o'
            && name.get_char(2) == 'o' && name.get_char(3) == 't';
        assert(r ==> name@ =~= "root"@);
        r
    }
}

/// The SD card of a BCM2835.
pub struct BcmSdhciDriver;

impl DriverProbe for BcmSdhciDriver {
    fn probe_global(_config: &DeviceConfig) -> (r: Option<DevicePlan>)
        ensures
            r == Some(DevicePlan::Block(BlockPlan::BcmSdhci)),
    {
        Some(DevicePlan::Block(BlockPlan::BcmSdhci))
    }
}

/// Intel's PCI vendor number.
pub const INTEL_VEND: u16 = 0x8086;

/// The PCI device number of the 82599, a 10 Gb network controller.
pub const INTEL_82599: u16 = 0x10FB;

/// Intel's 82599.
pub struct IxgbeDriver;

/// Whether the function is an Intel 82599.
pub open spec fn is_82599(dev_info: DeviceFunctionInfo) -> bool {
    dev_info.vendor_id == INTEL_VEND && dev_info.device_id == INTEL_82599
}

impl DriverProbe for IxgbeDriver {
    fn pci_bar(dev_info: &DeviceFunctionInfo) -> (r: Option<u8>)
        ensures
            r == (if is_82599(*dev_info) {
                Some(0u8)
            } else {
                None
            }),
    {
        if dev_info.vendor_id == INTEL_VEND && dev_info.device_id == INTEL_82599 {
            Some(0)
        } else {
            None
        }
    }

    fn probe_pci(_bdf: DeviceFunction, dev_info: &DeviceFunctionInfo, bar: &BarInfo) -> (r: Option<
        DevicePlan,
    >)
        ensures
            r == (match *bar {
                BarInfo::Memory { address, size } if is_82599(*dev_info) => Some(
                    DevicePlan::Net(
                        NetPlan::Ixgbe { address: address as usize, size: size as usize },
                    ),
                ),
                _ => None,
            }),
    {
        if dev_info.vendor_id == INTEL_VEND && dev_info.device_id == INTEL_82599 {
            match *bar {
                BarInfo::Memory { address, size } => {
                    return Some(
                        DevicePlan::Net(
                            NetPlan::Ixgbe { address: address as usize, size: size as usize },
                        ),
                    );
                },
                BarInfo::IO { .. } => { return None; },
            }
        }
        None
    }
}

/// The network controller of a Phytium Pi.
pub struct FXmacDriver;

impl DriverProbe for FXmacDriver {
    fn probe_global(_config: &DeviceConfig) -> (r: Option<DevicePlan>)
        ensures
            r == Some(DevicePlan::Net(NetPlan::FXmac { mapped_regs: 0 })),
    {
        Some(DevicePlan::Net(NetPlan::FXmac { mapped_regs: 0 }))
    }
}

impl FXmacDriver {
    /// Answers a driver's request for coherent DMA pages: the virtual and the physical address of
    /// the pages that were allocated, or two zeros where there were none to be had.
    pub fn dma_alloc_coherent(allocated: Option<(usize, usize)>) -> (r: (usize, usize))
        ensures
            r == (match allocated {
                Some(addrs) => addrs,
                None => (0, 0),
            }),
    {
        match allocated {
            Some(addrs) => addrs,
            None => (0, 0),
        }
    }
}

/// Where the RTL8125 of an RK3588 board has its registers.
pub const REALTEK_BASE: u64 = 0x9_c010_0000;

/// The RTL8125 of an RK3588 board, which is found where no PCI bus is searched.
pub struct RealtekDriver;

impl DriverProbe for RealtekDriver {
    fn probe_global(config: &DeviceConfig) -> (r: Option<DevicePlan>)
        ensures
            r == (if config.pci_bus {
                None
            } else {
                Some(DevicePlan::Net(NetPlan::Realtek { base: REALTEK_BASE }))
            }),
    {
        if config.pci_bus {
            None
        } else {
            Some(DevicePlan::Net(NetPlan::Realtek { base: REALTEK_BASE }))
        }
    }
}

} // verus!
