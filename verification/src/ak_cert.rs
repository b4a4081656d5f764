//! Attestation Key certificate (AK cert) kinds of a TPM.

use std::sync::Arc;
use vstd::prelude::*;

verus! {

/// Type of TPM AK cert.
///
/// `H` is the helper that creates and issues AK cert requests.
pub enum TpmAkCertType<H: ?Sized> {
    /// No Ak cert.
    NoCert,
    /// Authorized AK cert that is not hardware-attested. Optional bool controls
    /// whether OpenHCL handles renewal.
    /// Used by TVM
    Trusted(Arc<H>, Option<bool>),
    /// Authorized and hardware-attested AK cert (backed by
    /// a TEE attestation report).
    /// Used by CVM
    HwAttested(Arc<H>),
    /// Authorized and software-attested AK cert (backed by
    /// a software-based VM attestation report).
    /// Used by Vbs VM
    SwAttested(Arc<H>),
}

impl<H: ?Sized> TpmAkCertType<H> {
    /// The request helper that this AK cert type carries, if any.
    pub open spec fn spec_helper(&self) -> Option<Arc<H>> {
        match self {
            TpmAkCertType::NoCert => None,
            TpmAkCertType::Trusted(helper, _) => Some(*helper),
            TpmAkCertType::HwAttested(helper) => Some(*helper),
            TpmAkCertType::SwAttested(helper) => Some(*helper),
        }
    }

    /// Whether this AK cert type is backed by an attestation report.
    pub open spec fn spec_attested(&self) -> bool {
        self is HwAttested || self is SwAttested
    }

    /// Get the `RequestAkCert` from the enum
    pub fn get_ak_cert_helper(&self) -> (helper: Option<&Arc<H>>)
        ensures
            helper is Some <==> self.spec_helper() is Some,
            helper matches Some(h) ==> *h == self.spec_helper()->0,
    {
        match self {
            TpmAkCertType::HwAttested(helper) => Some(helper),
            TpmAkCertType::SwAttested(helper) => Some(helper),
            TpmAkCertType::Trusted(helper, _) => Some(helper),
            TpmAkCertType::NoCert => None,
        }
    }

    /// Returns true if this AKCert type is attested, either with a TEE
    /// attestation report or a software-based VM attestation report.
    pub fn attested(&self) -> (r: bool)
        ensures
            r == self.spec_attested(),
    {
        match self {
            TpmAkCertType::HwAttested(_) | TpmAkCertType::SwAttested(_) => true,
            TpmAkCertType::Trusted(_, _) | TpmAkCertType::NoCert => false,
        }
    }
}

/// Every attested AK cert type carries a request helper, and only the type
/// without an AK cert carries none; this holds for every helper type, sized
/// or not.
pub proof fn lemma_attested_has_helper<H: ?Sized>(cert_type: TpmAkCertType<H>)
    ensures
        cert_type.spec_attested() ==> cert_type.spec_helper() is Some,
        cert_type.spec_helper() is None <==> cert_type is NoCert,
{
}

} // verus!
