//! Identity of devices hosted on a VPCI bus.

use vstd::prelude::*;

use crate::guid::Guid;

verus! {

/// The device ID of the virtual device behind the VPCI bus with instance ID
/// `instance_id`: the second GUID field in bits 16 to 31, and the third GUID
/// field, with its low three bits cleared, in bits 0 to 15.
pub open spec fn spec_vpci_device_id(instance_id: Guid) -> int {
    instance_id.data2 * 0x10000 + (instance_id.data3 & 0xfff8u16)
}

/// Computes the device ID under which the virtual device of a VPCI bus is
/// created, from the bus's instance ID.
pub fn vpci_device_id(instance_id: &Guid) -> (device_id: u64)
    ensures
        device_id == spec_vpci_device_id(*instance_id),
{
    let data2 = instance_id.data2;
    let data3 = instance_id.data3;
    let device_id = (data2 as u64) << 16 | (data3 as u64 & 0xfff8);
    assert(device_id == data2 * 0x10000 + (data3 & 0xfff8u16)) by (bit_vector)
        requires
            device_id == (data2 as u64) << 16 | (data3 as u64 & 0xfff8),
    ;
    device_id
}

/// A VPCI device ID fits in 32 bits and is a multiple of eight.
pub proof fn lemma_vpci_device_id_shape(instance_id: Guid)
    ensures
        0 <= spec_vpci_device_id(instance_id) < 0x1_0000_0000,
        spec_vpci_device_id(instance_id) % 8 == 0,
{
    let data2 = instance_id.data2;
    let data3 = instance_id.data3;
    assert((data3 & 0xfff8u16) % 8 == 0 && (data3 & 0xfff8u16) <= 0xfff8) by (bit_vector);
}

/// Two instance IDs give the same device ID exactly when their second fields
/// are equal and their third fields agree outside the low three bits.
pub proof fn lemma_vpci_device_id_injective(a: Guid, b: Guid)
    ensures
        spec_vpci_device_id(a) == spec_vpci_device_id(b) <==> (a.data2 == b.data2 && (a.data3
            & 0xfff8u16) == (b.data3 & 0xfff8u16)),
{
    let (a3, b3) = (a.data3, b.data3);
    assert((a3 & 0xfff8u16) <= 0xfff8 && (b3 & 0xfff8u16) <= 0xfff8) by (bit_vector);
}


/// A step in taking down a dynamically created VPCI bus and its PCI device.
#[derive(Debug, Copy, Clone, PartialEq, Eq, Structural)]
pub enum VpciTeardownStep {
    /// Revoke the VPCI bus's channel from the guest.
    RevokeBus,
    /// Remove the state unit of the VPCI bus.
    RemoveVpciUnit,
    /// Remove the state unit of the PCI device.
    RemovePciUnit,
}

/// How far building a dynamic VPCI device got before it failed.
#[derive(Debug, Copy, Clone, PartialEq, Eq, Structural)]
pub enum DynamicVpciBuildFailure {
    /// Adding the PCI device failed.
    PciDevice,
    /// Adding the VPCI bus failed after the PCI device was added.
    VpciBus,
    /// The VPCI bus was added but left no channel offer to register.
    MissingOffer,
    /// Registering the VPCI bus's channel offer failed.
    OfferRegistration,
}

/// The steps that undo a failed build, in order: a failed VPCI bus removes
/// the PCI device; a failed offer registration removes the VPCI bus and then
/// the PCI device; the other failures undo nothing. A VPCI bus that was added
/// without a channel offer is reported as an error with both units left in
/// place: the builder returns that error as soon as it finds the offer
/// missing, before any cleanup, and this keeps that behaviour.
pub open spec fn spec_vpci_build_cleanup(failure: DynamicVpciBuildFailure) -> Seq<VpciTeardownStep> {
    match failure {
        DynamicVpciBuildFailure::PciDevice => Seq::empty(),
        DynamicVpciBuildFailure::VpciBus => seq![VpciTeardownStep::RemovePciUnit],
        DynamicVpciBuildFailure::MissingOffer => Seq::empty(),
        DynamicVpciBuildFailure::OfferRegistration => seq![
            VpciTeardownStep::RemoveVpciUnit,
            VpciTeardownStep::RemovePciUnit,
        ],
    }
}

/// Returns the steps that undo a dynamic VPCI device build that failed as
/// `failure` says, in the order in which they are taken.
pub fn dynamic_vpci_build_cleanup(failure: DynamicVpciBuildFailure) -> (steps: Vec<
    VpciTeardownStep,
>)
    ensures
        steps@ == spec_vpci_build_cleanup(failure),
        steps@.contains(VpciTeardownStep::RemovePciUnit) <==> (failure
            == DynamicVpciBuildFailure::VpciBus || failure
            == DynamicVpciBuildFailure::OfferRegistration),
        steps@.contains(VpciTeardownStep::RemoveVpciUnit) <==> failure
            == DynamicVpciBuildFailure::OfferRegistration,
        !steps@.contains(VpciTeardownStep::RevokeBus),
{
    let mut steps: Vec<VpciTeardownStep> = Vec::new();
    match failure {
        DynamicVpciBuildFailure::PciDevice => {},
        DynamicVpciBuildFailure::VpciBus => {
            steps.push(VpciTeardownStep::RemovePciUnit);
        },
        DynamicVpciBuildFailure::MissingOffer => {},
        DynamicVpciBuildFailure::OfferRegistration => {
            steps.push(VpciTeardownStep::RemoveVpciUnit);
            steps.push(VpciTeardownStep::RemovePciUnit);
        },
    }
    assert(steps@ =~= spec_vpci_build_cleanup(failure));
    proof {
        if failure == DynamicVpciBuildFailure::VpciBus {
            assert(steps@[0] == VpciTeardownStep::RemovePciUnit);
        }
        if failure == DynamicVpciBuildFailure::OfferRegistration {
            assert(steps@[0] == VpciTeardownStep::RemoveVpciUnit);
            assert(steps@[1] == VpciTeardownStep::RemovePciUnit);
        }
    }
    steps
}

/// The steps that remove a dynamic VPCI device: the bus is revoked before its
/// unit is removed, and the bus is removed before the PCI device under it.
pub open spec fn spec_vpci_removal() -> Seq<VpciTeardownStep> {
    seq![
        VpciTeardownStep::RevokeBus,
        VpciTeardownStep::RemoveVpciUnit,
        VpciTeardownStep::RemovePciUnit,
    ]
}

/// Returns the steps that remove a dynamic VPCI device, in order.
pub fn dynamic_vpci_removal_steps() -> (steps: Vec<VpciTeardownStep>)
    ensures
        steps@ == spec_vpci_removal(),
{
    let mut steps: Vec<VpciTeardownStep> = Vec::new();
    steps.push(VpciTeardownStep::RevokeBus);
    steps.push(VpciTeardownStep::RemoveVpciUnit);
    steps.push(VpciTeardownStep::RemovePciUnit);
    assert(steps@ =~= spec_vpci_removal());
    steps
}

/// In every teardown, each unit is removed at most once, and the VPCI bus's
/// unit is never removed after the PCI device's unit.
pub open spec fn teardown_well_ordered(steps: Seq<VpciTeardownStep>) -> bool {
    &&& forall|i: int, j: int|
        0 <= i < j < steps.len() && steps[i] != VpciTeardownStep::RevokeBus ==> steps[i]
            != steps[j]
    &&& forall|i: int, j: int|
        0 <= i < steps.len() && 0 <= j < steps.len() && steps[i]
            == VpciTeardownStep::RemovePciUnit && steps[j] == VpciTeardownStep::RemoveVpciUnit
            ==> j < i
}

/// Both the cleanup after a failed build and the removal of a built device
/// remove each unit at most once, the VPCI bus before the PCI device.
pub proof fn lemma_vpci_teardowns_well_ordered(failure: DynamicVpciBuildFailure)
    ensures
        teardown_well_ordered(spec_vpci_build_cleanup(failure)),
        teardown_well_ordered(spec_vpci_removal()),
{
}

} // verus!
