use vmm_config::guid::Guid;
use vmm_config::vpci::vpci_device_id;

fn guid(data2: u16, data3: u16) -> Guid {
    Guid {
        data1: 0xdeadbeef,
        data2,
        data3,
        data4: [0xff; 8],
    }
}

#[test]
fn device_id_layout() {
    assert_eq!(vpci_device_id(&guid(0x1234, 0x5678)), 0x1234_5678);
    assert_eq!(vpci_device_id(&guid(0x1234, 0x567f)), 0x1234_5678);
    assert_eq!(vpci_device_id(&guid(0xffff, 0xffff)), 0xffff_fff8);
    assert_eq!(vpci_device_id(&guid(0, 7)), 0);
}

#[test]
fn device_id_ignores_low_bits_of_third_field_only() {
    let a = vpci_device_id(&guid(1, 0x10));
    let b = vpci_device_id(&guid(1, 0x17));
    let c = vpci_device_id(&guid(1, 0x18));
    let d = vpci_device_id(&guid(2, 0x10));
    assert_eq!(a, b);
    assert_ne!(a, c);
    assert_ne!(a, d);
    assert_eq!(a % 8, 0);
}

use vmm_config::vpci::dynamic_vpci_build_cleanup;
use vmm_config::vpci::dynamic_vpci_removal_steps;
use vmm_config::vpci::DynamicVpciBuildFailure;
use vmm_config::vpci::VpciTeardownStep;

#[test]
fn build_failures_undo_what_was_added() {
    assert!(dynamic_vpci_build_cleanup(DynamicVpciBuildFailure::PciDevice).is_empty());
    assert_eq!(
        dynamic_vpci_build_cleanup(DynamicVpciBuildFailure::VpciBus),
        vec![VpciTeardownStep::RemovePciUnit]
    );
    assert!(dynamic_vpci_build_cleanup(DynamicVpciBuildFailure::MissingOffer).is_empty());
    assert_eq!(
        dynamic_vpci_build_cleanup(DynamicVpciBuildFailure::OfferRegistration),
        vec![VpciTeardownStep::RemoveVpciUnit, VpciTeardownStep::RemovePciUnit]
    );
}

#[test]
fn removal_revokes_then_removes_bus_then_device() {
    assert_eq!(
        dynamic_vpci_removal_steps(),
        vec![
            VpciTeardownStep::RevokeBus,
            VpciTeardownStep::RemoveVpciUnit,
            VpciTeardownStep::RemovePciUnit
        ]
    );
}
