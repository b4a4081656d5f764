//! Incubator profile definitions.

use vstd::prelude::*;

verus! {

/// An incubator profile describing the backend platform and how to run it.
#[derive(Debug, Clone)]
pub struct IncubatorProfile {
    /// Incubator backend configuration.
    pub incubator: IncubatorBackend,
    /// Extra devices to add to the platform.
    pub devices: Vec<DeviceConfig>,
}

/// Backend-specific configuration, tagged by `type`.
#[derive(Debug, Clone)]
pub enum IncubatorBackend {
    /// QEMU TCG emulation.
    QemuTcg(QemuTcgConfig),
}

impl IncubatorBackend {
    /// The guest architecture this backend emulates.
    pub open spec fn spec_arch(&self) -> Arch {
        match self {
            IncubatorBackend::QemuTcg(config) => config.arch,
        }
    }

    /// The guest architecture this backend emulates.
    pub fn arch(&self) -> (arch: Arch)
        ensures
            arch == self.spec_arch(),
    {
        match self {
            IncubatorBackend::QemuTcg(config) => config.arch,
        }
    }
}

/// Guest architecture emulated by an incubator backend.
#[derive(Debug, Clone, Copy, PartialEq, Eq, Structural)]
pub enum Arch {
    /// x86-64.
    X86_64,
    /// AArch64.
    Aarch64,
}

impl Arch {
    /// The prefix of arch-specific environment variable names.
    pub open spec fn spec_env_prefix(self) -> Seq<char> {
        match self {
            Arch::X86_64 => "X86_64"@,
            Arch::Aarch64 => "AARCH64"@,
        }
    }

    /// The prefix used for arch-specific environment variables, matching
    /// openvmm's convention (e.g., `X86_64_OPENVMM_LINUX_DIRECT_KERNEL`).
    pub fn env_prefix(self) -> (prefix: &'static str)
        ensures
            prefix@ == self.spec_env_prefix(),
    {
        match self {
            Arch::X86_64 => "X86_64",
            Arch::Aarch64 => "AARCH64",
        }
    }
}

/// A device to add to the platform.
#[derive(Debug, Clone)]
pub enum DeviceConfig {
    /// A virtio-blk disk device.
    VirtioBlk(VirtioBlkDeviceConfig),
    /// A QEMU `edu` device — a simple PCI device with a register-programmed
    /// DMA engine. Used as a P2P DMA *initiator* in device-assignment tests.
    Edu(EduDeviceConfig),
    /// A QEMU `ivshmem-plain` device — a PCI device whose BAR2 is a
    /// prefetchable, RAM-backed memory window. Used as a P2P DMA *target*
    /// (peer BAR) in device-assignment tests.
    IvshmemPlain(IvshmemPlainDeviceConfig),
}

/// `s` with every `-` replaced by `_`.
pub open spec fn dashes_to_underscores(s: Seq<char>) -> Seq<char> {
    s.map_values(|c: char| if c == '-' { '_' } else { c })
}

/// Appends `c` to `s`.
#[verifier::external_body]
fn string_push(s: &mut String, c: char)
    ensures
        final(s)@ == old(s)@.push(c),
{
    s.push(c)
}

impl DeviceConfig {
    /// The device's configured name.
    pub open spec fn spec_name(&self) -> Seq<char> {
        match self {
            DeviceConfig::VirtioBlk(cfg) => cfg.name@,
            DeviceConfig::Edu(cfg) => cfg.name@,
            DeviceConfig::IvshmemPlain(cfg) => cfg.name@,
        }
    }

    /// Whether the device is to be bound to vfio-pci.
    pub open spec fn spec_vfio(&self) -> bool {
        match self {
            DeviceConfig::VirtioBlk(cfg) => cfg.vfio,
            DeviceConfig::Edu(cfg) => cfg.vfio,
            DeviceConfig::IvshmemPlain(cfg) => cfg.vfio,
        }
    }

    /// The device's name, used in env var names (e.g. `test-disk` →
    /// `INCUBATOR_VFIO_BDF_TEST_DISK`).
    pub fn name(&self) -> (name: &str)
        ensures
            name@ == self.spec_name(),
    {
        match self {
            DeviceConfig::VirtioBlk(cfg) => cfg.name.as_str(),
            DeviceConfig::Edu(cfg) => cfg.name.as_str(),
            DeviceConfig::IvshmemPlain(cfg) => cfg.name.as_str(),
        }
    }

    /// Whether the device should be bound to vfio-pci after boot so it can be
    /// assigned into the L2 guest.
    pub fn vfio(&self) -> (vfio: bool)
        ensures
            vfio == self.spec_vfio(),
    {
        match self {
            DeviceConfig::VirtioBlk(cfg) => cfg.vfio,
            DeviceConfig::Edu(cfg) => cfg.vfio,
            DeviceConfig::IvshmemPlain(cfg) => cfg.vfio,
        }
    }

    /// The capability this device advertises once provisioned, derived from
    /// its name with `-` replaced by `_` so it is a valid `requires(...)`
    /// identifier (e.g. `edu-initiator` → `edu_initiator`). Tests gate on this
    /// via `requires(...)`.
    pub fn capability(&self) -> (capability: String)
        ensures
            capability@ == dashes_to_underscores(self.spec_name()),
    {
        let name = self.name();
        let mut capability = String::new();
        for c in it: name.chars()
            invariant
                it.seq() == name@,
                capability@ == dashes_to_underscores(name@.take(it.index() as int)),
        {
            string_push(&mut capability, if c == '-' { '_' } else { c });
            assert(name@.take(it.index() as int + 1) == name@.take(it.index() as int).push(c));
        }
        assert(name@.take(name@.len() as int) == name@);
        capability
    }
}

/// Configuration for a virtio-blk device added to the incubator.
#[derive(Debug, Clone)]
pub struct VirtioBlkDeviceConfig {
    /// Name for this device (used in env var names, e.g., "test-disk" →
    /// `INCUBATOR_VFIO_BDF_TEST_DISK`).
    pub name: String,
    /// Size of the RAM-backed disk (e.g., "64M").
    pub size: String,
    /// If true, bind the device to vfio-pci after boot, making it available
    /// for passthrough into the L2 guest.
    pub vfio: bool,
}

/// Configuration for a QEMU `edu` device added to the incubator.
#[derive(Debug, Clone)]
pub struct EduDeviceConfig {
    /// Name for this device (used in env var names, e.g., "edu-initiator" →
    /// `INCUBATOR_VFIO_BDF_EDU_INITIATOR`).
    pub name: String,
    /// Optional `dma_mask` for the edu DMA engine (e.g. "0xffffffffffff").
    /// The edu default is 28 bits, which clamps DMA addresses to the low
    /// 256 MiB — too small for aarch64 guest physical addresses, so P2P tests
    /// must widen it. Accepts decimal or `0x`-prefixed hex.
    pub dma_mask: Option<String>,
    /// If true, bind the device to vfio-pci after boot, making it available
    /// for passthrough into the L2 guest.
    pub vfio: bool,
}

/// Configuration for a QEMU `ivshmem-plain` device added to the incubator.
#[derive(Debug, Clone)]
pub struct IvshmemPlainDeviceConfig {
    /// Name for this device (used in env var names, e.g., "ivshmem-target" →
    /// `INCUBATOR_VFIO_BDF_IVSHMEM_TARGET`).
    pub name: String,
    /// Size of the RAM-backed shared-memory BAR2 (e.g., "4M").
    pub size: String,
    /// If true, bind the device to vfio-pci after boot, making it available
    /// for passthrough into the L2 guest.
    pub vfio: bool,
}

/// QEMU TCG configuration parsed from the profile.
#[derive(Debug, Clone)]
pub struct QemuTcgConfig {
    /// Guest architecture (e.g., "aarch64", "x86-64"). Selects the
    /// arch-specific kernel/initrd when those are auto-detected.
    pub arch: Arch,
    /// Path or name of the QEMU binary (e.g., "qemu-system-aarch64").
    pub binary: String,
    /// Machine type (e.g., "virt,virtualization=on,iommu=smmuv3").
    pub machine: String,
    /// CPU model (e.g., "max").
    pub cpu: String,
    /// Memory size (e.g., "4G").
    pub memory: String,
    /// Number of CPUs (e.g., "2").
    pub smp: String,
    /// Extra kernel command line arguments. The incubator always appends
    /// `rdinit=/tcg-init.sh` (the injected init script); everything else,
    /// including the arch-specific serial console (e.g., "console=ttyAMA0"
    /// for aarch64 PL011, "console=ttyS0" for x86 16550), comes from here.
    pub cmdline: String,
}

/// A capability has as many characters as the name it comes from, holds no
/// `-`, and agrees with the name wherever the name holds no `-`.
pub proof fn lemma_capability_shape(name: Seq<char>)
    ensures
        dashes_to_underscores(name).len() == name.len(),
        forall|i: int| 0 <= i < name.len() ==> #[trigger] dashes_to_underscores(name)[i] != '-',
        forall|i: int|
            0 <= i < name.len() && name[i] != '-' ==> #[trigger] dashes_to_underscores(name)[i]
                == name[i],
{
}

/// Deriving a capability from a capability changes nothing.
pub proof fn lemma_capability_idempotent(name: Seq<char>)
    ensures
        dashes_to_underscores(dashes_to_underscores(name)) == dashes_to_underscores(name),
{
    assert(dashes_to_underscores(dashes_to_underscores(name)) =~= dashes_to_underscores(name));
}

} // verus!
