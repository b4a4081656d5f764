use vmm_config::ak_cert::TpmAkCertType;
use vmm_config::tpm::default_vtpm_size;
use vmm_config::tpm::resolve_tpm_version;
use vmm_config::tpm::select_tpm_version;
use vmm_config::tpm::tpm_nvram_file_id;
use vmm_config::tpm::FileId;
use vmm_config::tpm::OpenedVmgs;
use vmm_config::tpm::TpmVersion;
use vmm_config::tpm::TpmVersionDecision;
use vmm_config::tpm::TpmVersionSelection;
use vmm_config::tpm::VmgsOpenError;
use vmm_config::tpm::VmgsOpenMode;
use std::cell::Cell;
use std::sync::Arc;

#[test]
fn hint_prefers_existing_state_then_fallback() {
    for (v185, v138, expected) in [
        (false, false, TpmVersion::V138),
        (false, true, TpmVersion::V138),
        (true, false, TpmVersion::V185),
        (true, true, TpmVersion::V185),
    ] {
        let decision = select_tpm_version(TpmVersionSelection::Hint(TpmVersion::V138), |file_id| {
            (file_id == tpm_nvram_file_id(TpmVersion::V185) && v185)
                || (file_id == tpm_nvram_file_id(TpmVersion::V138) && v138)
        });
        assert_eq!(
            decision,
            TpmVersionDecision {
                version: expected,
                conflicting_version: None,
            }
        );
    }

    assert_eq!(
        select_tpm_version(TpmVersionSelection::Hint(TpmVersion::V185), |_| false).version,
        TpmVersion::V185
    );
}

#[test]
fn specified_version_only_reports_conflicting_state() {
    for (specified, existing) in [
        (TpmVersion::V185, TpmVersion::V138),
        (TpmVersion::V138, TpmVersion::V185),
    ] {
        assert_eq!(
            select_tpm_version(TpmVersionSelection::Specified(specified), |file_id| {
                file_id == tpm_nvram_file_id(existing)
            }),
            TpmVersionDecision {
                version: specified,
                conflicting_version: Some(existing),
            }
        );
    }
}

#[test]
fn specified_version_with_its_own_state_has_no_conflict() {
    for specified in [TpmVersion::V138, TpmVersion::V185] {
        for other_allocated in [false, true] {
            let decision =
                select_tpm_version(TpmVersionSelection::Specified(specified), |file_id| {
                    file_id == tpm_nvram_file_id(specified) || other_allocated
                });
            assert_eq!(
                decision,
                TpmVersionDecision {
                    version: specified,
                    conflicting_version: None,
                }
            );
        }
        let decision = select_tpm_version(TpmVersionSelection::Specified(specified), |_| false);
        assert_eq!(decision.conflicting_version, None);
        assert_eq!(decision.version, specified);
    }
}

#[test]
fn specified_version_probes_other_file_only_when_own_is_missing() {
    let calls = Cell::new(0);
    let decision = select_tpm_version(TpmVersionSelection::Specified(TpmVersion::V138), |_| {
        calls.set(calls.get() + 1);
        true
    });
    assert_eq!(decision.conflicting_version, None);
    assert_eq!(calls.get(), 1);
}

#[test]
fn nvram_file_ids_are_distinct() {
    assert_eq!(tpm_nvram_file_id(TpmVersion::V138), FileId::TpmNvram);
    assert_eq!(tpm_nvram_file_id(TpmVersion::V185), FileId::Tpm185Nvram);
    assert_ne!(
        tpm_nvram_file_id(TpmVersion::V138),
        tpm_nvram_file_id(TpmVersion::V185)
    );
}

#[test]
fn default_vtpm_sizes() {
    assert_eq!(default_vtpm_size(TpmVersion::V138), 32 * 1024);
    assert_eq!(default_vtpm_size(TpmVersion::V185), 128 * 1024);
}

#[test]
fn tpm_versions_are_ordered() {
    assert!(TpmVersion::V138 < TpmVersion::V185);
}

fn opened(reprovisioned: bool, v138: bool, v185: bool) -> Result<OpenedVmgs, VmgsOpenError<&'static str>> {
    Ok(OpenedVmgs {
        reprovisioned,
        tpm_nvram_allocated: v138,
        tpm_185_nvram_allocated: v185,
    })
}

#[test]
fn resolve_without_vmgs_uses_request_or_185() {
    assert_eq!(resolve_tpm_version::<&str>(None, None), Ok(TpmVersion::V185));
    assert_eq!(
        resolve_tpm_version::<&str>(None, Some(TpmVersion::V138)),
        Ok(TpmVersion::V138)
    );
}

#[test]
fn resolve_prefers_existing_state() {
    assert_eq!(
        resolve_tpm_version(Some((opened(false, true, false), VmgsOpenMode::OnEmpty)), None),
        Ok(TpmVersion::V138)
    );
    assert_eq!(
        resolve_tpm_version(Some((opened(false, true, true), VmgsOpenMode::OnFailure)), None),
        Ok(TpmVersion::V185)
    );
    // An explicit request wins over existing state of the other version.
    assert_eq!(
        resolve_tpm_version(
            Some((opened(false, true, false), VmgsOpenMode::OnEmpty)),
            Some(TpmVersion::V185)
        ),
        Ok(TpmVersion::V185)
    );
}

#[test]
fn resolve_reprovision_ignores_state_unless_marked() {
    assert_eq!(
        resolve_tpm_version(Some((opened(false, true, false), VmgsOpenMode::Reprovision)), None),
        Ok(TpmVersion::V185)
    );
    assert_eq!(
        resolve_tpm_version(Some((opened(true, true, false), VmgsOpenMode::Reprovision)), None),
        Ok(TpmVersion::V138)
    );
}

#[test]
fn resolve_open_failures() {
    for mode in [VmgsOpenMode::OnEmpty, VmgsOpenMode::OnFailure, VmgsOpenMode::Reprovision] {
        assert_eq!(
            resolve_tpm_version::<&str>(Some((Err(VmgsOpenError::EmptyFile), mode)), None),
            Ok(TpmVersion::V185)
        );
    }
    assert_eq!(
        resolve_tpm_version(
            Some((Err(VmgsOpenError::Other("corrupt")), VmgsOpenMode::OnFailure)),
            Some(TpmVersion::V138)
        ),
        Ok(TpmVersion::V138)
    );
    assert_eq!(
        resolve_tpm_version(
            Some((Err(VmgsOpenError::Other("corrupt")), VmgsOpenMode::OnEmpty)),
            None
        ),
        Err("corrupt")
    );
    assert_eq!(
        resolve_tpm_version(
            Some((Err(VmgsOpenError::Other("corrupt")), VmgsOpenMode::Reprovision)),
            None
        ),
        Err("corrupt")
    );
}

#[test]
fn opened_vmgs_reports_files() {
    let vmgs = OpenedVmgs {
        reprovisioned: true,
        tpm_nvram_allocated: false,
        tpm_185_nvram_allocated: true,
    };
    assert!(vmgs.is_reprovisioned());
    assert!(!vmgs.check_file_allocated(FileId::TpmNvram));
    assert!(vmgs.check_file_allocated(FileId::Tpm185Nvram));
}

#[test]
fn ak_cert_helpers_and_attestation() {
    let helper = Arc::new(7u32);
    let none: TpmAkCertType<u32> = TpmAkCertType::NoCert;
    let trusted = TpmAkCertType::Trusted(helper.clone(), Some(true));
    let hw = TpmAkCertType::HwAttested(helper.clone());
    let sw = TpmAkCertType::SwAttested(helper.clone());
    assert!(none.get_ak_cert_helper().is_none());
    assert_eq!(**trusted.get_ak_cert_helper().unwrap(), 7);
    assert_eq!(**hw.get_ak_cert_helper().unwrap(), 7);
    assert_eq!(**sw.get_ak_cert_helper().unwrap(), 7);
    assert!(Arc::ptr_eq(hw.get_ak_cert_helper().unwrap(), &helper));
    assert!(!none.attested());
    assert!(!trusted.attested());
    assert!(hw.attested());
    assert!(sw.attested());
}

trait Named {
    fn name(&self) -> &'static str;
}

struct Helper;

impl Named for Helper {
    fn name(&self) -> &'static str {
        "helper"
    }
}

#[test]
fn ak_cert_with_trait_object_helper() {
    let helper: Arc<dyn Named> = Arc::new(Helper);
    let cert: TpmAkCertType<dyn Named> = TpmAkCertType::HwAttested(helper);
    assert_eq!(cert.get_ak_cert_helper().unwrap().name(), "helper");
}

use vmm_config::tpm::resolve_tpm_decision;

#[test]
fn resolve_decision_reports_conflict() {
    assert_eq!(
        resolve_tpm_decision(
            Some((opened(false, false, true), VmgsOpenMode::OnEmpty)),
            Some(TpmVersion::V138)
        ),
        Ok(TpmVersionDecision {
            version: TpmVersion::V138,
            conflicting_version: Some(TpmVersion::V185),
        })
    );
    assert_eq!(
        resolve_tpm_decision(
            Some((opened(false, false, true), VmgsOpenMode::OnEmpty)),
            None
        ),
        Ok(TpmVersionDecision {
            version: TpmVersion::V185,
            conflicting_version: None,
        })
    );
}
