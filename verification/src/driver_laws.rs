//! What the probes of the drivers answer, told in the numbers that go in and come out.
use vstd::prelude::*;

use crate::drivers::{
    BarInfo, BcmSdhciDriver, BlockPlan, DeviceConfig, DeviceFunction, DeviceFunctionInfo,
    DevicePlan, DriverProbe, FXmacDriver, IxgbeDriver, NetPlan, RamDiskDriver, RealtekDriver,
    SdMmcGptDriver,
};

verus! {

/// The RAM disk is the configured piece of memory, whatever it is.
pub proof fn law_ram_disk_is_the_configured_memory(config: &DeviceConfig, r: Option<DevicePlan>)
    requires
        call_ensures(<RamDiskDriver as DriverProbe>::probe_global, (config,), r),
    ensures
        r matches Some(DevicePlan::Block(BlockPlan::RamDisk { start, size })) && start
            == config.initrd_start && size == config.initrd_size,
{
}

/// The root partition is looked for behind the configured controller, wherever it is.
pub proof fn law_root_partition_is_behind_the_configured_controller(
    config: &DeviceConfig,
    r: Option<DevicePlan>,
)
    requires
        call_ensures(<SdMmcGptDriver as DriverProbe>::probe_global, (config,), r),
    ensures
        r matches Some(DevicePlan::Block(BlockPlan::SdMmcGptRoot { paddr })) && paddr
            == config.sdmmc_paddr,
{
}

/// The partition whose name has the four letters of `root`, and no other letter, is the root
/// partition.
pub proof fn law_root_partition_has_four_letters(name: &str, r: bool)
    requires
        call_ensures(SdMmcGptDriver::is_root_partition, (name,), r),
    ensures
        r <==> {
            &&& name@.len() == 4
            &&& name@[0] == 'r'
            &&& name@[1] == 'o'
            &&& name@[2] == 'o'
            &&& name@[3] == 't'
        },
{
    reveal_strlit("root");
    if name@.len() == 4 && name@[0] == 'r' && name@[1] == 'o' && name@[2] == 'o' && name@[3]
        == 't' {
        assert(name@ =~= "root"@);
    }
}

/// The SD card of a BCM2835 is always looked for.
pub proof fn law_sd_card_is_looked_for(config: &DeviceConfig, r: Option<DevicePlan>)
    requires
        call_ensures(<BcmSdhciDriver as DriverProbe>::probe_global, (config,), r),
    ensures
        r matches Some(DevicePlan::Block(BlockPlan::BcmSdhci)),
{
}

/// The network controller of a Phytium Pi is always looked for, with its registers mapped at zero.
pub proof fn law_fxmac_is_looked_for(config: &DeviceConfig, r: Option<DevicePlan>)
    requires
        call_ensures(<FXmacDriver as DriverProbe>::probe_global, (config,), r),
    ensures
        r matches Some(DevicePlan::Net(NetPlan::FXmac { mapped_regs })) && mapped_regs == 0,
{
}

/// The RTL8125 is looked for at its one address exactly where no PCI bus is searched.
pub proof fn law_rtl8125_is_looked_for_without_a_pci_bus(
    config: &DeviceConfig,
    r: Option<DevicePlan>,
)
    requires
        call_ensures(<RealtekDriver as DriverProbe>::probe_global, (config,), r),
    ensures
        config.pci_bus ==> r is None,
        !config.pci_bus ==> (r matches Some(DevicePlan::Net(NetPlan::Realtek { base })) && base
            == 0x9_c010_0000),
{
}

/// The driver of the 82599 asks for the first base address register, of every function with
/// Intel's vendor number and the 82599's device number, and of no other.
pub proof fn law_82599_is_known_by_its_numbers(dev_info: &DeviceFunctionInfo, r: Option<u8>)
    requires
        call_ensures(<IxgbeDriver as DriverProbe>::pci_bar, (dev_info,), r),
    ensures
        r is Some <==> dev_info.vendor_id == 0x8086 && dev_info.device_id == 0x10fb,
        r matches Some(index) ==> index == 0,
{
}

/// An 82599 is taken exactly if its registers are in memory, and then with the address and the size
/// that the base address register gives, as far as an address can hold them. Where it sits on the
/// bus does not matter.
pub proof fn law_82599_is_taken_with_its_registers(
    bdf: DeviceFunction,
    dev_info: &DeviceFunctionInfo,
    bar: &BarInfo,
    r: Option<DevicePlan>,
)
    requires
        call_ensures(<IxgbeDriver as DriverProbe>::probe_pci, (bdf, dev_info, bar), r),
    ensures
        r is Some <==> dev_info.vendor_id == 0x8086 && dev_info.device_id == 0x10fb && *bar
            is Memory,
        r is Some ==> (r matches Some(DevicePlan::Net(NetPlan::Ixgbe { address, size })) && {
            &&& (*bar)->Memory_address <= usize::MAX ==> address == (*bar)->Memory_address
            &&& (*bar)->Memory_size <= usize::MAX ==> size == (*bar)->Memory_size
        }),
{
}

/// A driver finds nothing in the ways that it does not define.
pub proof fn law_undefined_ways_find_nothing(
    config: &DeviceConfig,
    bdf: DeviceFunction,
    dev_info: &DeviceFunctionInfo,
    bar: &BarInfo,
    base: usize,
    size: usize,
    plan: Option<DevicePlan>,
    index: Option<u8>,
)
    ensures
        call_ensures(<IxgbeDriver as DriverProbe>::probe_global, (config,), plan) ==> plan is None,
        call_ensures(<IxgbeDriver as DriverProbe>::probe_mmio, (base, size), plan) ==> plan is None,
        call_ensures(<RamDiskDriver as DriverProbe>::probe_mmio, (base, size), plan) ==> plan is None,
        call_ensures(<RamDiskDriver as DriverProbe>::pci_bar, (dev_info,), index) ==> index is None,
        call_ensures(<RamDiskDriver as DriverProbe>::probe_pci, (bdf, dev_info, bar), plan) ==> plan
            is None,
        call_ensures(<SdMmcGptDriver as DriverProbe>::probe_mmio, (base, size), plan) ==> plan is None,
        call_ensures(<SdMmcGptDriver as DriverProbe>::pci_bar, (dev_info,), index) ==> index is None,
        call_ensures(<SdMmcGptDriver as DriverProbe>::probe_pci, (bdf, dev_info, bar), plan) ==> plan
            is None,
        call_ensures(<BcmSdhciDriver as DriverProbe>::probe_mmio, (base, size), plan) ==> plan is None,
        call_ensures(<BcmSdhciDriver as DriverProbe>::pci_bar, (dev_info,), index) ==> index is None,
        call_ensures(<BcmSdhciDriver as DriverProbe>::probe_pci, (bdf, dev_info, bar), plan) ==> plan
            is None,
        call_ensures(<FXmacDriver as DriverProbe>::probe_mmio, (base, size), plan) ==> plan is None,
        call_ensures(<FXmacDriver as DriverProbe>::pci_bar, (dev_info,), index) ==> index is None,
        call_ensures(<FXmacDriver as DriverProbe>::probe_pci, (bdf, dev_info, bar), plan) ==> plan
            is None,
        call_ensures(<RealtekDriver as DriverProbe>::probe_mmio, (base, size), plan) ==> plan is None,
        call_ensures(<RealtekDriver as DriverProbe>::pci_bar, (dev_info,), index) ==> index is None,
        call_ensures(<RealtekDriver as DriverProbe>::probe_pci, (bdf, dev_info, bar), plan) ==> plan
            is None,
{
}

/// Of all devices, an 82599 alone has to come up once it was found.
pub proof fn law_82599_alone_must_come_up(plan: &DevicePlan, r: bool)
    requires
        call_ensures(DevicePlan::failure_is_fatal, (plan,), r),
    ensures
        *plan is Block ==> !r,
        *plan matches DevicePlan::Net(device) ==> (r <==> device is Ixgbe),
{
}

/// Coherent pages are answered with the two addresses that they were allocated at, and want of them
/// with two zeros.
pub proof fn law_coherent_pages_are_those_that_were_allocated(
    allocated: Option<(usize, usize)>,
    r: (usize, usize),
)
    requires
        call_ensures(FXmacDriver::dma_alloc_coherent, (allocated,), r),
    ensures
        allocated matches Some(addrs) ==> r.0 == addrs.0 && r.1 == addrs.1,
        allocated is None ==> r.0 == 0 && r.1 == 0,
{
}

} // verus!
