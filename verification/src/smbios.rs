//! Shared SMBIOS (DMI) identity configuration, and how it becomes the
//! constants that the PCAT BIOS queries.
//!
//! Each string field of the configuration is an override: `None` means "use
//! the loader/firmware's built-in default identity".

use vstd::prelude::*;
use vstd::utf8::encode_utf8;

use crate::guid::Guid;

verus! {

/// SMBIOS (DMI) identity configuration overrides.
///
/// Grouped by SMBIOS structure type to mirror the borrowed table view in the
/// loader: one sub-struct per type.
#[derive(Debug, Clone, Default)]
pub struct SmbiosConfig {
    /// Type 0 (BIOS Information) overrides.
    pub bios: SmbiosBiosOverrides,
    /// Type 1 (System Information) overrides.
    pub system: SmbiosSystemOverrides,
}

/// SMBIOS Type 0 (BIOS Information) overrides. `None` = use the loader default.
#[derive(Debug, Clone, Default)]
pub struct SmbiosBiosOverrides {
    /// BIOS vendor string.
    pub vendor: Option<String>,
    /// BIOS version string.
    pub version: Option<String>,
    /// BIOS release date string.
    pub release_date: Option<String>,
    /// System BIOS Major/Minor Release (`release=MAJOR.MINOR`).
    pub release: Option<(u8, u8)>,
}

/// SMBIOS Type 1 (System Information) overrides. `None` string fields use the
/// loader default; `uuid` is concrete (generated per-VM at runtime, the zero
/// GUID by default).
#[derive(Debug, Clone, Default)]
pub struct SmbiosSystemOverrides {
    /// System manufacturer string.
    pub manufacturer: Option<String>,
    /// System product name string.
    pub product_name: Option<String>,
    /// System version string.
    pub version: Option<String>,
    /// System serial number string.
    pub serial_number: Option<String>,
    /// System SKU number string.
    pub sku_number: Option<String>,
    /// System family string.
    pub family: Option<String>,
    /// System UUID (the VM's BIOS GUID). Stored as raw mixed-endian EFI GUID
    /// bytes when delivered to the guest.
    pub uuid: Guid,
}

/// The values that the PCAT BIOS ROM queries from the host over its I/O port
/// to build its SMBIOS tables. No CPU information bundle is ever supplied from
/// the shared configuration, so none is held here.
#[derive(Debug, Clone, PartialEq, Eq)]
pub struct SmbiosConstants {
    /// The BIOS GUID (system UUID).
    pub bios_guid: Guid,
    /// The system serial number.
    pub system_serial_number: Vec<u8>,
    /// The base board serial number.
    pub base_board_serial_number: Vec<u8>,
    /// The chassis serial number.
    pub chassis_serial_number: Vec<u8>,
    /// The chassis asset tag.
    pub chassis_asset_tag: Vec<u8>,
    /// The BIOS lock string.
    pub bios_lock_string: Vec<u8>,
    /// The processor manufacturer.
    pub processor_manufacturer: Vec<u8>,
    /// The processor version.
    pub processor_version: Vec<u8>,
}

/// Errors in adapting the shared SMBIOS configuration to PCAT boot.
#[derive(Debug, Clone, PartialEq, Eq)]
pub enum Error {
    /// The named field is not configurable on PCAT boot.
    UnsupportedSmbiosField(&'static str),
}

/// The first override, in the order in which they are checked, that the PCAT
/// BIOS cannot honor, by the name that the error reports.
pub open spec fn spec_unsupported_smbios_field(smbios: SmbiosConfig) -> Option<Seq<char>> {
    if smbios.bios.vendor is Some {
        Some("SMBIOS BIOS vendor"@)
    } else if smbios.bios.version is Some {
        Some("SMBIOS BIOS version"@)
    } else if smbios.bios.release_date is Some {
        Some("SMBIOS BIOS release date"@)
    } else if smbios.bios.release is Some {
        Some("SMBIOS BIOS release"@)
    } else if smbios.system.manufacturer is Some {
        Some("SMBIOS system manufacturer"@)
    } else if smbios.system.product_name is Some {
        Some("SMBIOS system product name"@)
    } else if smbios.system.version is Some {
        Some("SMBIOS system version"@)
    } else if smbios.system.sku_number is Some {
        Some("SMBIOS system SKU number"@)
    } else if smbios.system.family is Some {
        Some("SMBIOS system family"@)
    } else {
        None
    }
}

/// The UTF-8 bytes of the serial number override, empty when there is none.
pub open spec fn spec_serial_number_bytes(smbios: SmbiosConfig) -> Seq<u8> {
    match smbios.system.serial_number {
        Some(serial) => encode_utf8(serial@),
        None => Seq::empty(),
    }
}

/// The constants built from a configuration that the PCAT BIOS can honor.
pub open spec fn spec_pcat_constants(smbios: SmbiosConfig, constants: SmbiosConstants) -> bool {
    &&& constants.bios_guid == smbios.system.uuid
    &&& constants.system_serial_number@ == spec_serial_number_bytes(smbios)
    &&& constants.base_board_serial_number@ == Seq::<u8>::empty()
    &&& constants.chassis_serial_number@ == Seq::<u8>::empty()
    &&& constants.chassis_asset_tag@ == Seq::<u8>::empty()
    &&& constants.bios_lock_string@ == Seq::<u8>::empty()
    &&& constants.processor_manufacturer@ == seq![0u8]
    &&& constants.processor_version@ == seq![0u8]
}

/// Whether the PCAT BIOS can honor every override of `smbios`: only the
/// system UUID and serial number may be set.
pub open spec fn pcat_honors(smbios: SmbiosConfig) -> bool {
    &&& smbios.bios.vendor is None
    &&& smbios.bios.version is None
    &&& smbios.bios.release_date is None
    &&& smbios.bios.release is None
    &&& smbios.system.manufacturer is None
    &&& smbios.system.product_name is None
    &&& smbios.system.version is None
    &&& smbios.system.sku_number is None
    &&& smbios.system.family is None
}

/// The constants that PCAT gets: the system UUID as the BIOS GUID, the serial
/// number override's UTF-8 bytes (none without an override) as the system
/// serial number, a single zero byte as processor manufacturer and version,
/// and nothing for the base board serial number, chassis serial number,
/// chassis asset tag and BIOS lock string, whatever the overrides hold.
pub open spec fn pcat_constants_shape(smbios: SmbiosConfig, constants: SmbiosConstants) -> bool {
    &&& constants.bios_guid == smbios.system.uuid
    &&& constants.system_serial_number@ == match smbios.system.serial_number {
        Some(serial) => encode_utf8(serial@),
        None => Seq::<u8>::empty(),
    }
    &&& constants.base_board_serial_number@.len() == 0
    &&& constants.chassis_serial_number@.len() == 0
    &&& constants.chassis_asset_tag@.len() == 0
    &&& constants.bios_lock_string@.len() == 0
    &&& constants.processor_manufacturer@ == seq![0u8]
    &&& constants.processor_version@ == seq![0u8]
}

/// PCAT boot rejects a configuration exactly when an override other than the
/// UUID and the serial number is set, and the constants it builds have the
/// fixed shape above.
pub proof fn lemma_pcat_accepts_only_honored_overrides(
    smbios: SmbiosConfig,
    constants: SmbiosConstants,
)
    ensures
        spec_unsupported_smbios_field(smbios) is None <==> pcat_honors(smbios),
        spec_pcat_constants(smbios, constants) ==> pcat_constants_shape(smbios, constants),
{
}

/// The override that the error name `name` reports is set in `smbios`, and
/// every override checked before it is not.
pub open spec fn reported_field_is_first_set(smbios: SmbiosConfig, name: Seq<char>) -> bool {
    let b = smbios.bios;
    let y = smbios.system;
    if name == "SMBIOS BIOS vendor"@ {
        b.vendor is Some
    } else if name == "SMBIOS BIOS version"@ {
        b.vendor is None && b.version is Some
    } else if name == "SMBIOS BIOS release date"@ {
        b.vendor is None && b.version is None && b.release_date is Some
    } else if name == "SMBIOS BIOS release"@ {
        b.vendor is None && b.version is None && b.release_date is None && b.release is Some
    } else if name == "SMBIOS system manufacturer"@ {
        b.vendor is None && b.version is None && b.release_date is None && b.release is None
            && y.manufacturer is Some
    } else if name == "SMBIOS system product name"@ {
        b.vendor is None && b.version is None && b.release_date is None && b.release is None
            && y.manufacturer is None && y.product_name is Some
    } else if name == "SMBIOS system version"@ {
        b.vendor is None && b.version is None && b.release_date is None && b.release is None
            && y.manufacturer is None && y.product_name is None && y.version is Some
    } else if name == "SMBIOS system SKU number"@ {
        b.vendor is None && b.version is None && b.release_date is None && b.release is None
            && y.manufacturer is None && y.product_name is None && y.version is None
            && y.sku_number is Some
    } else if name == "SMBIOS system family"@ {
        b.vendor is None && b.version is None && b.release_date is None && b.release is None
            && y.manufacturer is None && y.product_name is None && y.version is None
            && y.sku_number is None && y.family is Some
    } else {
        false
    }
}

/// Whenever PCAT boot rejects a configuration, the field it names is the
/// first override, in the order BIOS vendor, BIOS version, BIOS release date,
/// BIOS release, system manufacturer, product name, version, SKU number and
/// family, that is set.
pub proof fn lemma_pcat_reports_first_set_override(smbios: SmbiosConfig)
    ensures
        spec_unsupported_smbios_field(smbios) matches Some(name) ==> reported_field_is_first_set(
            smbios,
            name,
        ),
{
    reveal_strlit("SMBIOS BIOS vendor");
    reveal_strlit("SMBIOS BIOS version");
    reveal_strlit("SMBIOS BIOS release date");
    reveal_strlit("SMBIOS BIOS release");
    reveal_strlit("SMBIOS system manufacturer");
    reveal_strlit("SMBIOS system product name");
    reveal_strlit("SMBIOS system version");
    reveal_strlit("SMBIOS system SKU number");
    reveal_strlit("SMBIOS system family");
    assert("SMBIOS BIOS version"@.len() != "SMBIOS BIOS vendor"@.len());
    assert("SMBIOS BIOS release date"@.len() != "SMBIOS BIOS vendor"@.len());
    assert("SMBIOS BIOS release date"@.len() != "SMBIOS BIOS version"@.len());
    assert("SMBIOS BIOS release"@.len() != "SMBIOS BIOS vendor"@.len());
    assert("SMBIOS BIOS release"@[12] != "SMBIOS BIOS version"@[12]);
    assert("SMBIOS BIOS release"@.len() != "SMBIOS BIOS release date"@.len());
    assert("SMBIOS system manufacturer"@.len() != "SMBIOS BIOS vendor"@.len());
    assert("SMBIOS system manufacturer"@.len() != "SMBIOS BIOS version"@.len());
    assert("SMBIOS system manufacturer"@.len() != "SMBIOS BIOS release date"@.len());
    assert("SMBIOS system manufacturer"@.len() != "SMBIOS BIOS release"@.len());
    assert("SMBIOS system product name"@.len() != "SMBIOS BIOS vendor"@.len());
    assert("SMBIOS system product name"@.len() != "SMBIOS BIOS version"@.len());
    assert("SMBIOS system product name"@.len() != "SMBIOS BIOS release date"@.len());
    assert("SMBIOS system product name"@.len() != "SMBIOS BIOS release"@.len());
    assert("SMBIOS system product name"@[14] != "SMBIOS system manufacturer"@[14]);
    assert("SMBIOS system version"@.len() != "SMBIOS BIOS vendor"@.len());
    assert("SMBIOS system version"@.len() != "SMBIOS BIOS version"@.len());
    assert("SMBIOS system version"@.len() != "SMBIOS BIOS release date"@.len());
    assert("SMBIOS system version"@.len() != "SMBIOS BIOS release"@.len());
    assert("SMBIOS system version"@.len() != "SMBIOS system manufacturer"@.len());
    assert("SMBIOS system version"@.len() != "SMBIOS system product name"@.len());
    assert("SMBIOS system SKU number"@.len() != "SMBIOS BIOS vendor"@.len());
    assert("SMBIOS system SKU number"@.len() != "SMBIOS BIOS version"@.len());
    assert("SMBIOS system SKU number"@[7] != "SMBIOS BIOS release date"@[7]);
    assert("SMBIOS system SKU number"@.len() != "SMBIOS BIOS release"@.len());
    assert("SMBIOS system SKU number"@.len() != "SMBIOS system manufacturer"@.len());
    assert("SMBIOS system SKU number"@.len() != "SMBIOS system product name"@.len());
    assert("SMBIOS system SKU number"@.len() != "SMBIOS system version"@.len());
    assert("SMBIOS system family"@.len() != "SMBIOS BIOS vendor"@.len());
    assert("SMBIOS system family"@.len() != "SMBIOS BIOS version"@.len());
    assert("SMBIOS system family"@.len() != "SMBIOS BIOS release date"@.len());
    assert("SMBIOS system family"@.len() != "SMBIOS BIOS release"@.len());
    assert("SMBIOS system family"@.len() != "SMBIOS system manufacturer"@.len());
    assert("SMBIOS system family"@.len() != "SMBIOS system product name"@.len());
    assert("SMBIOS system family"@.len() != "SMBIOS system version"@.len());
    assert("SMBIOS system family"@.len() != "SMBIOS system SKU number"@.len());
}

/// Adapt the shared [`SmbiosConfig`] into the PCAT BIOS's [`SmbiosConstants`].
///
/// The PCAT BIOS ROM builds the SMBIOS tables itself and only queries the host
/// for a fixed set of values over an I/O port. Only the system UUID (BIOS GUID)
/// and system serial number have a corresponding query, so those are the only
/// overrides that can be honored. Every other override is rejected (fail
/// closed) rather than being silently dropped, mirroring the UEFI path's
/// handling of fields the firmware self-describes.
pub fn smbios_constants_from_config(smbios: &SmbiosConfig) -> (r: Result<SmbiosConstants, Error>)
    ensures
        match spec_unsupported_smbios_field(*smbios) {
            Some(field) => r matches Err(Error::UnsupportedSmbiosField(name)) && name@ == field,
            None => r matches Ok(constants) && spec_pcat_constants(*smbios, constants),
        },
        r is Ok <==> pcat_honors(*smbios),
        r matches Ok(constants) ==> pcat_constants_shape(*smbios, constants),
        r matches Err(Error::UnsupportedSmbiosField(name)) ==> reported_field_is_first_set(
            *smbios,
            name@,
        ),
{
    proof {
        lemma_pcat_reports_first_set_override(*smbios);
    }
    let bios = &smbios.bios;
    let system = &smbios.system;

    // Type 0 (BIOS Information): the PCAT BIOS ROM self-describes the BIOS, so
    // reject any override rather than silently dropping it.
    if bios.vendor.is_some() {
        return Err(Error::UnsupportedSmbiosField("SMBIOS BIOS vendor"));
    }
    if bios.version.is_some() {
        return Err(Error::UnsupportedSmbiosField("SMBIOS BIOS version"));
    }
    if bios.release_date.is_some() {
        return Err(Error::UnsupportedSmbiosField("SMBIOS BIOS release date"));
    }
    if bios.release.is_some() {
        return Err(Error::UnsupportedSmbiosField("SMBIOS BIOS release"));
    }

    // Type 1 (System Information): the BIOS ROM hardcodes these strings and
    // exposes no query for them, so reject overrides. Only the UUID and serial
    // number are delivered to the ROM.
    if system.manufacturer.is_some() {
        return Err(Error::UnsupportedSmbiosField("SMBIOS system manufacturer"));
    }
    if system.product_name.is_some() {
        return Err(Error::UnsupportedSmbiosField("SMBIOS system product name"));
    }
    if system.version.is_some() {
        return Err(Error::UnsupportedSmbiosField("SMBIOS system version"));
    }
    if system.sku_number.is_some() {
        return Err(Error::UnsupportedSmbiosField("SMBIOS system SKU number"));
    }
    if system.family.is_some() {
        return Err(Error::UnsupportedSmbiosField("SMBIOS system family"));
    }

    let system_serial_number = match &system.serial_number {
        Some(serial) => vstd::slice::slice_to_vec(serial.as_str().as_bytes()),
        None => Vec::new(),
    };
    let processor_manufacturer = vec![0u8];
    let processor_version = vec![0u8];
    assert(processor_manufacturer@ == seq![0u8] && processor_version@ == seq![0u8]);
    Ok(
        SmbiosConstants {
            bios_guid: system.uuid,
            system_serial_number,
            // The remaining fields have no shared-config representation yet.
            // Leave them empty.
            base_board_serial_number: Vec::new(),
            chassis_serial_number: Vec::new(),
            chassis_asset_tag: Vec::new(),
            bios_lock_string: Vec::new(),
            processor_manufacturer,
            processor_version,
        },
    )
}

} // verus!
