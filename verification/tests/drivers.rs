use axraw::drivers::{
    BarInfo, BcmSdhciDriver, BlockPlan, DeviceConfig, DeviceFunction, DeviceFunctionInfo,
    DevicePlan, DriverProbe, FXmacDriver, IxgbeDriver, NetPlan, RamDiskDriver, RealtekDriver,
    SdMmcGptDriver, INTEL_82599, INTEL_VEND,
};

const CONFIG: DeviceConfig = DeviceConfig {
    initrd_start: 0x4000_0000,
    initrd_size: 0x10_0000,
    sdmmc_paddr: 0xfe2c_0000,
    pci_bus: false,
};
const BDF: DeviceFunction = DeviceFunction { bus: 0, device: 3, function: 0 };
const NIC: DeviceFunctionInfo = DeviceFunctionInfo { vendor_id: 0x8086, device_id: 0x10fb };

struct Silent;

impl DriverProbe for Silent {}

#[test]
fn a_driver_finds_nothing_in_ways_it_does_not_define() {
    let bar = BarInfo::Memory { address: 0, size: 0 };
    assert_eq!(Silent::probe_global(&CONFIG), None);
    assert_eq!(Silent::probe_mmio(0x1000, 0x200), None);
    assert_eq!(Silent::pci_bar(&NIC), None);
    assert_eq!(Silent::probe_pci(BDF, &NIC, &bar), None);
    assert_eq!(IxgbeDriver::probe_global(&CONFIG), None);
    assert_eq!(RamDiskDriver::pci_bar(&NIC), None);
}

#[test]
fn devices_without_a_bus_are_found_by_configuration() {
    assert_eq!(
        RamDiskDriver::probe_global(&CONFIG),
        Some(DevicePlan::Block(BlockPlan::RamDisk { start: 0x4000_0000, size: 0x10_0000 }))
    );
    assert_eq!(
        SdMmcGptDriver::probe_global(&CONFIG),
        Some(DevicePlan::Block(BlockPlan::SdMmcGptRoot { paddr: 0xfe2c_0000 }))
    );
    assert_eq!(
        BcmSdhciDriver::probe_global(&CONFIG),
        Some(DevicePlan::Block(BlockPlan::BcmSdhci))
    );
    assert_eq!(
        FXmacDriver::probe_global(&CONFIG),
        Some(DevicePlan::Net(NetPlan::FXmac { mapped_regs: 0 }))
    );
    assert_eq!(
        RealtekDriver::probe_global(&CONFIG),
        Some(DevicePlan::Net(NetPlan::Realtek { base: 0x9c0100000 }))
    );
}

#[test]
fn the_rtl8125_is_not_looked_for_beside_a_pci_bus() {
    assert_eq!(RealtekDriver::probe_global(&DeviceConfig { pci_bus: true, ..CONFIG }), None);
}

#[test]
fn the_root_partition_is_known_by_its_name() {
    assert!(SdMmcGptDriver::is_root_partition("root"));
    assert!(!SdMmcGptDriver::is_root_partition(""));
    assert!(!SdMmcGptDriver::is_root_partition("roo"));
    assert!(!SdMmcGptDriver::is_root_partition("Root"));
    assert!(!SdMmcGptDriver::is_root_partition("rootfs"));
}

#[test]
fn the_82599_is_taken_by_its_numbers() {
    assert_eq!(IxgbeDriver::pci_bar(&NIC), Some(0));
    let other = DeviceFunctionInfo { vendor_id: 0x8086, device_id: 0x100e };
    assert_eq!(IxgbeDriver::pci_bar(&other), None);
    let other = DeviceFunctionInfo { vendor_id: 0x1af4, device_id: 0x10fb };
    assert_eq!(IxgbeDriver::pci_bar(&other), None);
}

#[test]
fn the_82599_needs_a_memory_region() {
    let memory = BarInfo::Memory { address: 0xfeb0_0000, size: 0x8_0000 };
    let plan = IxgbeDriver::probe_pci(BDF, &NIC, &memory);
    assert_eq!(
        plan,
        Some(DevicePlan::Net(NetPlan::Ixgbe { address: 0xfeb0_0000, size: 0x8_0000 }))
    );
    let ports = BarInfo::IO { address: 0xc000, size: 0x20 };
    assert_eq!(IxgbeDriver::probe_pci(BDF, &NIC, &ports), None);
    let other = DeviceFunctionInfo { vendor_id: 0x8086, device_id: 0x100e };
    assert_eq!(IxgbeDriver::probe_pci(BDF, &other, &memory), None);
}

#[test]
fn only_the_82599_must_come_up() {
    let nic = DevicePlan::Net(NetPlan::Ixgbe { address: 0, size: 0 });
    assert!(nic.failure_is_fatal());
    assert!(!DevicePlan::Net(NetPlan::FXmac { mapped_regs: 0 }).failure_is_fatal());
    assert!(!DevicePlan::Block(BlockPlan::BcmSdhci).failure_is_fatal());
}

#[test]
fn coherent_pages_are_two_zeros_where_there_are_none() {
    assert_eq!(FXmacDriver::dma_alloc_coherent(None), (0, 0));
    assert_eq!(FXmacDriver::dma_alloc_coherent(Some((0x8000, 0x1000))), (0x8000, 0x1000));
}

#[test]
fn the_numbers_are_those_of_the_network_driver() {
    assert_eq!(INTEL_VEND, axdriver_net::ixgbe::INTEL_VEND);
    assert_eq!(INTEL_82599, axdriver_net::ixgbe::INTEL_82599);
}
