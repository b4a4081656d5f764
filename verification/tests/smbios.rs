use vmm_config::guid::Guid;
use vmm_config::smbios::smbios_constants_from_config;
use vmm_config::smbios::Error;
use vmm_config::smbios::SmbiosConfig;

fn uuid() -> Guid {
    Guid {
        data1: 0x12345678,
        data2: 0x9abc,
        data3: 0xdef0,
        data4: [1, 2, 3, 4, 5, 6, 7, 8],
    }
}

#[test]
fn default_config_gives_empty_constants() {
    let constants = smbios_constants_from_config(&SmbiosConfig::default()).unwrap();
    assert_eq!(constants.bios_guid, Guid::default());
    assert!(constants.system_serial_number.is_empty());
    assert!(constants.base_board_serial_number.is_empty());
    assert!(constants.chassis_serial_number.is_empty());
    assert!(constants.chassis_asset_tag.is_empty());
    assert!(constants.bios_lock_string.is_empty());
    assert_eq!(constants.processor_manufacturer, b"\0".to_vec());
    assert_eq!(constants.processor_version, b"\0".to_vec());
}

#[test]
fn uuid_and_serial_number_are_honored() {
    let mut config = SmbiosConfig::default();
    config.system.uuid = uuid();
    config.system.serial_number = Some("SN-1234-é".to_string());
    let constants = smbios_constants_from_config(&config).unwrap();
    assert_eq!(constants.bios_guid, uuid());
    assert_eq!(constants.system_serial_number, "SN-1234-é".as_bytes().to_vec());
}

#[test]
fn each_unsupported_override_is_rejected() {
    let cases: Vec<(fn(&mut SmbiosConfig), &str)> = vec![
        (|c| c.bios.vendor = Some("v".into()), "SMBIOS BIOS vendor"),
        (|c| c.bios.version = Some("v".into()), "SMBIOS BIOS version"),
        (|c| c.bios.release_date = Some("v".into()), "SMBIOS BIOS release date"),
        (|c| c.bios.release = Some((1, 2)), "SMBIOS BIOS release"),
        (|c| c.system.manufacturer = Some("v".into()), "SMBIOS system manufacturer"),
        (|c| c.system.product_name = Some("v".into()), "SMBIOS system product name"),
        (|c| c.system.version = Some("v".into()), "SMBIOS system version"),
        (|c| c.system.sku_number = Some("v".into()), "SMBIOS system SKU number"),
        (|c| c.system.family = Some("v".into()), "SMBIOS system family"),
    ];
    for (set, field) in cases {
        let mut config = SmbiosConfig::default();
        config.system.serial_number = Some("serial".into());
        set(&mut config);
        assert_eq!(
            smbios_constants_from_config(&config),
            Err(Error::UnsupportedSmbiosField(field))
        );
    }
}

#[test]
fn first_unsupported_override_is_reported() {
    let mut config = SmbiosConfig::default();
    config.system.family = Some("f".into());
    config.bios.release_date = Some("d".into());
    config.system.manufacturer = Some("m".into());
    assert_eq!(
        smbios_constants_from_config(&config),
        Err(Error::UnsupportedSmbiosField("SMBIOS BIOS release date"))
    );
}
