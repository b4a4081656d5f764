use vmm_config::profile::Arch;
use vmm_config::profile::DeviceConfig;
use vmm_config::profile::EduDeviceConfig;
use vmm_config::profile::IncubatorBackend;
use vmm_config::profile::IncubatorProfile;
use vmm_config::profile::IvshmemPlainDeviceConfig;
use vmm_config::profile::QemuTcgConfig;
use vmm_config::profile::VirtioBlkDeviceConfig;

fn qemu(arch: Arch) -> QemuTcgConfig {
    QemuTcgConfig {
        arch,
        binary: "qemu-system-aarch64".to_string(),
        machine: "virt,virtualization=on,iommu=smmuv3".to_string(),
        cpu: "max".to_string(),
        memory: "4G".to_string(),
        smp: "2".to_string(),
        cmdline: "console=ttyAMA0".to_string(),
    }
}

#[test]
fn backend_reports_its_arch() {
    assert_eq!(IncubatorBackend::QemuTcg(qemu(Arch::Aarch64)).arch(), Arch::Aarch64);
    assert_eq!(IncubatorBackend::QemuTcg(qemu(Arch::X86_64)).arch(), Arch::X86_64);
}

#[test]
fn env_prefixes() {
    assert_eq!(Arch::X86_64.env_prefix(), "X86_64");
    assert_eq!(Arch::Aarch64.env_prefix(), "AARCH64");
}

#[test]
fn device_name_vfio_and_capability() {
    let devices = [
        DeviceConfig::VirtioBlk(VirtioBlkDeviceConfig {
            name: "test-disk".to_string(),
            size: "64M".to_string(),
            vfio: true,
        }),
        DeviceConfig::Edu(EduDeviceConfig {
            name: "edu-initiator".to_string(),
            dma_mask: Some("0xffffffffffff".to_string()),
            vfio: false,
        }),
        DeviceConfig::IvshmemPlain(IvshmemPlainDeviceConfig {
            name: "ivshmem-target".to_string(),
            size: "4M".to_string(),
            vfio: true,
        }),
    ];
    let expected = [
        ("test-disk", true, "test_disk"),
        ("edu-initiator", false, "edu_initiator"),
        ("ivshmem-target", true, "ivshmem_target"),
    ];
    for (device, (name, vfio, capability)) in devices.iter().zip(expected) {
        assert_eq!(device.name(), name);
        assert_eq!(device.vfio(), vfio);
        assert_eq!(device.capability(), capability);
    }
}

#[test]
fn capability_edge_cases() {
    let device = |name: &str| {
        DeviceConfig::Edu(EduDeviceConfig {
            name: name.to_string(),
            dma_mask: None,
            vfio: false,
        })
    };
    assert_eq!(device("").capability(), "");
    assert_eq!(device("--a-").capability(), "__a_");
    assert_eq!(device("plain").capability(), "plain");
    assert_eq!(device("ü-ß").capability(), "ü_ß");
    // Deriving a capability from a capability changes nothing.
    let once = device("edu-initiator").capability();
    assert_eq!(device(&once).capability(), once);
}

#[test]
fn profile_holds_backend_and_devices() {
    let profile = IncubatorProfile {
        incubator: IncubatorBackend::QemuTcg(qemu(Arch::X86_64)),
        devices: Vec::new(),
    };
    assert_eq!(profile.incubator.arch(), Arch::X86_64);
    assert!(profile.devices.is_empty());
}
