//! TPM versions, their VMGS-backed NVRAM files, and how a version is chosen.

use vstd::prelude::*;

verus! {

/// Version of the Microsoft TPM reference implementation to use.
#[derive(Debug, Copy, Clone, PartialEq, Eq, PartialOrd, Ord, Hash, Structural)]
pub enum TpmVersion {
    /// TPM reference implementation version 1.38
    V138,
    /// TPM reference implementation version 1.85
    V185,
}

/// The NVRAM size, in bytes, that each reference implementation is built for.
pub open spec fn spec_default_vtpm_size(version: TpmVersion) -> nat {
    match version {
        TpmVersion::V138 => 32 * 1024,
        TpmVersion::V185 => 128 * 1024,
    }
}

/// Returns the default vTPM NVRAM size for `version`.
///
/// Each reference implementation is compiled for a fixed NVRAM size and reads
/// and writes anywhere in that range, so this must match the library in use.
pub fn default_vtpm_size(version: TpmVersion) -> (size: usize)
    ensures
        size == spec_default_vtpm_size(version),
        version == TpmVersion::V138 ==> size == 32768,
        version == TpmVersion::V185 ==> size == 131072,
{
    match version {
        TpmVersion::V138 => 32 * 1024,
        TpmVersion::V185 => 128 * 1024,
    }
}

/// The vTPM control area register layout.
#[derive(Debug, Copy, Clone, PartialEq, Eq, Structural)]
pub enum TpmRegisterLayout {
    /// Using IO port
    IoPort,
    /// MMIO
    Mmio,
}

/// An event reported by a TPM logger.
#[derive(Debug, Copy, Clone, PartialEq, Eq, Structural)]
pub enum TpmLogEvent {
    /// Failed to renew AK cert.
    AkCertRenewalFailed,
    /// Failed to change TPM seeds.
    IdentityChangeFailed,
    /// Invalid PPI or NVRAM state.
    InvalidState,
}

/// The VMGS files that hold the NVRAM of a TPM reference implementation.
#[derive(Debug, Copy, Clone, PartialEq, Eq, Hash, Structural)]
pub enum FileId {
    /// The NVRAM file of the 1.38 reference implementation.
    TpmNvram,
    /// The NVRAM file of the 1.85 reference implementation.
    Tpm185Nvram,
}

/// How the TPM version should be selected.
#[derive(Debug, Copy, Clone, PartialEq, Eq, Structural)]
pub enum TpmVersionSelection {
    /// Always use the specified version.
    Specified(TpmVersion),
    /// Prefer an existing VMGS file, falling back to the hinted version.
    Hint(TpmVersion),
}

/// The result of selecting a TPM version.
#[derive(Debug, Copy, Clone, PartialEq, Eq, Structural)]
pub struct TpmVersionDecision {
    /// The version to use.
    pub version: TpmVersion,
    /// A different version whose VMGS file conflicts with an explicit choice.
    pub conflicting_version: Option<TpmVersion>,
}

/// How the real VMGS will be initialized after read-only inspection.
#[derive(Debug, Copy, Clone, PartialEq, Eq, Structural)]
pub enum VmgsOpenMode {
    /// Treat an empty VMGS as having no state, but reject invalid contents.
    OnEmpty,
    /// Treat an empty or invalid VMGS as having no state.
    OnFailure,
    /// Treat state as absent unless the VMGS is already marked reprovisioned.
    Reprovision,
}

/// The VMGS file that holds the NVRAM of `version`.
pub open spec fn spec_tpm_nvram_file_id(version: TpmVersion) -> FileId {
    match version {
        TpmVersion::V138 => FileId::TpmNvram,
        TpmVersion::V185 => FileId::Tpm185Nvram,
    }
}

/// The version that is not `version`.
pub open spec fn spec_other_version(version: TpmVersion) -> TpmVersion {
    match version {
        TpmVersion::V138 => TpmVersion::V185,
        TpmVersion::V185 => TpmVersion::V138,
    }
}

/// Returns the VMGS file ID used for the TPM version's NVRAM.
pub fn tpm_nvram_file_id(version: TpmVersion) -> (file_id: FileId)
    ensures
        file_id == spec_tpm_nvram_file_id(version),
{
    match version {
        TpmVersion::V138 => FileId::TpmNvram,
        TpmVersion::V185 => FileId::Tpm185Nvram,
    }
}

/// Whether the NVRAM file of `version` is allocated, given which of the two
/// NVRAM files are allocated.
pub open spec fn spec_version_allocated(
    version: TpmVersion,
    v138_allocated: bool,
    v185_allocated: bool,
) -> bool {
    match version {
        TpmVersion::V138 => v138_allocated,
        TpmVersion::V185 => v185_allocated,
    }
}

/// The decision for `selection` when the NVRAM files of 1.38 and 1.85 are
/// allocated as given.
pub open spec fn spec_select_tpm_version(
    selection: TpmVersionSelection,
    v138_allocated: bool,
    v185_allocated: bool,
) -> TpmVersionDecision {
    match selection {
        TpmVersionSelection::Specified(version) => {
            let other = spec_other_version(version);
            TpmVersionDecision {
                version,
                conflicting_version: if !spec_version_allocated(
                    version,
                    v138_allocated,
                    v185_allocated,
                ) && spec_version_allocated(other, v138_allocated, v185_allocated) {
                    Some(other)
                } else {
                    None
                },
            }
        },
        TpmVersionSelection::Hint(fallback) => TpmVersionDecision {
            version: if v185_allocated {
                TpmVersion::V185
            } else if v138_allocated {
                TpmVersion::V138
            } else {
                fallback
            },
            conflicting_version: None,
        },
    }
}

/// `answer` is a value that the probe `f` may return for the NVRAM file of
/// `version`.
pub open spec fn probe_answers<F: FnMut(FileId) -> bool>(
    f: F,
    version: TpmVersion,
    answer: bool,
) -> bool {
    call_ensures(f, (spec_tpm_nvram_file_id(version),), answer)
}

/// What `select_tpm_version` returns, stated over the answers that the probe
/// gave: every clause names answers that the probe returned for the files it
/// was asked about.
pub open spec fn select_tpm_version_post<F: FnMut(FileId) -> bool>(
    selection: TpmVersionSelection,
    f: F,
    decision: TpmVersionDecision,
) -> bool {
    match selection {
        TpmVersionSelection::Specified(version) => {
            let other = spec_other_version(version);
            &&& decision.version == version
            &&& match decision.conflicting_version {
                Some(conflict) => {
                    &&& conflict == other
                    &&& probe_answers(f, version, false)
                    &&& probe_answers(f, other, true)
                },
                None => probe_answers(f, version, true) || probe_answers(f, other, false),
            }
        },
        TpmVersionSelection::Hint(fallback) => {
            &&& decision.conflicting_version is None
            &&& {
                ||| decision.version == TpmVersion::V185 && probe_answers(f, TpmVersion::V185, true)
                ||| decision.version == TpmVersion::V138 && probe_answers(
                    f,
                    TpmVersion::V185,
                    false,
                ) && probe_answers(f, TpmVersion::V138, true)
                ||| decision.version == fallback && probe_answers(f, TpmVersion::V185, false)
                    && probe_answers(f, TpmVersion::V138, false)
            }
        },
    }
}

/// Selects a TPM version based on the requested behavior and VMGS contents.
///
/// `is_file_allocated` reports whether a VMGS file is allocated. A specified
/// version is always used; when its NVRAM file is absent but the other
/// version's is present, that other version is reported as conflicting. A hint
/// prefers an existing 1.85 NVRAM file, then an existing 1.38 one, and falls
/// back to the hinted version.
pub fn select_tpm_version(
    selection: TpmVersionSelection,
    mut is_file_allocated: impl FnMut(FileId) -> bool,
) -> (decision: TpmVersionDecision)
    requires
        forall|file_id: FileId| call_requires(is_file_allocated, (file_id,)),
    ensures
        select_tpm_version_post(selection, is_file_allocated, decision),
        decision.conflicting_version matches Some(conflict) ==> conflict != decision.version,
{
    match selection {
        TpmVersionSelection::Specified(version) => {
            let conflicting_version = if !is_file_allocated(tpm_nvram_file_id(version)) {
                let other_version = match version {
                    TpmVersion::V138 => TpmVersion::V185,
                    TpmVersion::V185 => TpmVersion::V138,
                };
                if is_file_allocated(tpm_nvram_file_id(other_version)) {
                    Some(other_version)
                } else {
                    None
                }
            } else {
                None
            };
            TpmVersionDecision { version, conflicting_version }
        },
        TpmVersionSelection::Hint(fallback) => {
            let version = if is_file_allocated(tpm_nvram_file_id(TpmVersion::V185)) {
                TpmVersion::V185
            } else if is_file_allocated(tpm_nvram_file_id(TpmVersion::V138)) {
                TpmVersion::V138
            } else {
                fallback
            };
            TpmVersionDecision { version, conflicting_version: None }
        },
    }
}

/// A probe answers deterministically: the same file is reported the same way
/// on every call, as `v138_allocated` and `v185_allocated` say.
pub open spec fn probe_reports<F: FnMut(FileId) -> bool>(
    f: F,
    v138_allocated: bool,
    v185_allocated: bool,
) -> bool {
    forall|version: TpmVersion, answer: bool|
        #[trigger] probe_answers(f, version, answer) ==> answer == spec_version_allocated(
            version,
            v138_allocated,
            v185_allocated,
        )
}

/// With a probe that reports a fixed set of allocated NVRAM files, what
/// `select_tpm_version` guarantees is exactly the decision that
/// `spec_select_tpm_version` computes from that set.
pub proof fn lemma_select_with_fixed_probe<F: FnMut(FileId) -> bool>(
    selection: TpmVersionSelection,
    f: F,
    v138_allocated: bool,
    v185_allocated: bool,
    decision: TpmVersionDecision,
)
    requires
        probe_reports(f, v138_allocated, v185_allocated),
        select_tpm_version_post(selection, f, decision),
    ensures
        decision == spec_select_tpm_version(selection, v138_allocated, v185_allocated),
{
    match selection {
        TpmVersionSelection::Specified(version) => {
            let other = spec_other_version(version);
            if decision.conflicting_version is Some {
                assert(probe_answers(f, version, false));
                assert(probe_answers(f, other, true));
            } else {
                if probe_answers(f, version, true) {
                } else {
                    assert(probe_answers(f, other, false));
                }
            }
        },
        TpmVersionSelection::Hint(fallback) => {
            if probe_answers(f, TpmVersion::V185, true) && decision.version == TpmVersion::V185 {
            } else if decision.version == TpmVersion::V138 && probe_answers(
                f,
                TpmVersion::V185,
                false,
            ) && probe_answers(f, TpmVersion::V138, true) {
            } else {
                assert(probe_answers(f, TpmVersion::V185, false));
                assert(probe_answers(f, TpmVersion::V138, false));
            }
        },
    }
}


/// What a read-only inspection of a VMGS found: whether it is marked
/// reprovisioned, and which TPM NVRAM files are allocated in it.
#[derive(Debug, Copy, Clone, PartialEq, Eq, Structural)]
pub struct OpenedVmgs {
    /// The VMGS is marked as reprovisioned.
    pub reprovisioned: bool,
    /// The NVRAM file of the 1.38 reference implementation is allocated.
    pub tpm_nvram_allocated: bool,
    /// The NVRAM file of the 1.85 reference implementation is allocated.
    pub tpm_185_nvram_allocated: bool,
}

impl OpenedVmgs {
    /// Whether `file_id` is allocated in this VMGS.
    pub open spec fn spec_file_allocated(&self, file_id: FileId) -> bool {
        match file_id {
            FileId::TpmNvram => self.tpm_nvram_allocated,
            FileId::Tpm185Nvram => self.tpm_185_nvram_allocated,
        }
    }

    /// Returns whether the VMGS is marked as reprovisioned.
    pub fn is_reprovisioned(&self) -> (r: bool)
        ensures
            r == self.reprovisioned,
    {
        self.reprovisioned
    }

    /// Returns whether `file_id` is allocated in this VMGS.
    pub fn check_file_allocated(&self, file_id: FileId) -> (r: bool)
        ensures
            r == self.spec_file_allocated(file_id),
    {
        match file_id {
            FileId::TpmNvram => self.tpm_nvram_allocated,
            FileId::Tpm185Nvram => self.tpm_185_nvram_allocated,
        }
    }
}

/// Why a read-only inspection of a VMGS failed.
#[derive(Debug, Clone, PartialEq, Eq)]
pub enum VmgsOpenError<E> {
    /// The VMGS file is empty.
    EmptyFile,
    /// Any other failure, carrying the underlying error.
    Other(E),
}

/// The selection made from an optional explicitly requested version: the
/// requested version when there is one, else a hint towards 1.85.
pub open spec fn spec_tpm_version_selection(
    specified_version: Option<TpmVersion>,
) -> TpmVersionSelection {
    match specified_version {
        Some(version) => TpmVersionSelection::Specified(version),
        None => TpmVersionSelection::Hint(TpmVersion::V185),
    }
}

/// What the inspection result contributes: `Ok(Some(vmgs))` when its state is
/// used, `Ok(None)` when the VMGS is treated as holding no state, and
/// `Err(e)` when the inspection error is reported.
pub open spec fn spec_usable_vmgs<E>(
    opened: Result<OpenedVmgs, VmgsOpenError<E>>,
    open_mode: VmgsOpenMode,
) -> Result<Option<OpenedVmgs>, E> {
    match opened {
        Ok(vmgs) => if open_mode != VmgsOpenMode::Reprovision || vmgs.reprovisioned {
            Ok(Some(vmgs))
        } else {
            Ok(None)
        },
        Err(VmgsOpenError::EmptyFile) => Ok(None),
        Err(VmgsOpenError::Other(e)) => if open_mode == VmgsOpenMode::OnFailure {
            Ok(None)
        } else {
            Err(e)
        },
    }
}

/// The decision for `specified_version` when `vmgs` is the VMGS whose state
/// is used (if any).
pub open spec fn spec_resolved_decision(
    vmgs: Option<OpenedVmgs>,
    specified_version: Option<TpmVersion>,
) -> TpmVersionDecision {
    let selection = spec_tpm_version_selection(specified_version);
    match vmgs {
        Some(v) => spec_select_tpm_version(
            selection,
            v.tpm_nvram_allocated,
            v.tpm_185_nvram_allocated,
        ),
        None => spec_select_tpm_version(selection, false, false),
    }
}

/// The result of `resolve_tpm_decision`.
pub open spec fn spec_resolve_tpm_decision<E>(
    vmgs: Option<(Result<OpenedVmgs, VmgsOpenError<E>>, VmgsOpenMode)>,
    specified_version: Option<TpmVersion>,
) -> Result<TpmVersionDecision, E> {
    match vmgs {
        Some((opened, open_mode)) => match spec_usable_vmgs(opened, open_mode) {
            Ok(usable) => Ok(spec_resolved_decision(usable, specified_version)),
            Err(e) => Err(e),
        },
        None => Ok(spec_resolved_decision(None, specified_version)),
    }
}

/// The result of `resolve_tpm_version`: the version of the resolved decision.
pub open spec fn spec_resolve_tpm_version<E>(
    vmgs: Option<(Result<OpenedVmgs, VmgsOpenError<E>>, VmgsOpenMode)>,
    specified_version: Option<TpmVersion>,
) -> Result<TpmVersion, E> {
    match spec_resolve_tpm_decision(vmgs, specified_version) {
        Ok(decision) => Ok(decision.version),
        Err(e) => Err(e),
    }
}

/// Returns whether `file_id` is allocated in `vmgs`, treating an absent VMGS
/// as holding no files.
fn vmgs_file_allocated(vmgs: &Option<OpenedVmgs>, file_id: FileId) -> (r: bool)
    ensures
        r == match vmgs {
            Some(v) => v.spec_file_allocated(file_id),
            None => false,
        },
{
    match vmgs {
        Some(v) => v.check_file_allocated(file_id),
        None => false,
    }
}

/// Resolves the TPM version decision from the outcome of an optional
/// read-only inspection of a VMGS, and the version the caller asked for. The
/// decision names, besides the version, a different version whose state the
/// VMGS holds when an explicitly requested version has none.
///
/// `vmgs` holds, when a VMGS probe disk was given, the outcome of opening it
/// read-only together with how the real VMGS will be opened afterwards. An
/// empty VMGS, a VMGS not marked reprovisioned under
/// [`VmgsOpenMode::Reprovision`], and any failure under
/// [`VmgsOpenMode::OnFailure`] count as holding no state; any other failure is
/// returned.
pub fn resolve_tpm_decision<E>(
    vmgs: Option<(Result<OpenedVmgs, VmgsOpenError<E>>, VmgsOpenMode)>,
    specified_version: Option<TpmVersion>,
) -> (r: Result<TpmVersionDecision, E>)
    ensures
        r == spec_resolve_tpm_decision(vmgs, specified_version),
        resolved_from_inspection(vmgs, specified_version, r),
{
    proof {
        lemma_resolve_decision_from_inspection(vmgs, specified_version);
    }
    let selection = match specified_version {
        Some(version) => TpmVersionSelection::Specified(version),
        None => TpmVersionSelection::Hint(TpmVersion::V185),
    };
    let usable: Option<OpenedVmgs> = match vmgs {
        Some((opened, open_mode)) => match opened {
            Ok(v) => {
                if open_mode != VmgsOpenMode::Reprovision || v.is_reprovisioned() {
                    Some(v)
                } else {
                    None
                }
            },
            Err(VmgsOpenError::EmptyFile) => None,
            Err(VmgsOpenError::Other(e)) => {
                if open_mode == VmgsOpenMode::OnFailure {
                    None
                } else {
                    return Err(e);
                }
            },
        },
        None => None,
    };
    let probe = |file_id: FileId| -> (b: bool)
        ensures
            b == match usable {
                Some(v) => v.spec_file_allocated(file_id),
                None => false,
            },
        { vmgs_file_allocated(&usable, file_id) };
    let decision = select_tpm_version(selection, probe);
    proof {
        let (a138, a185) = match usable {
            Some(v) => (v.tpm_nvram_allocated, v.tpm_185_nvram_allocated),
            None => (false, false),
        };
        assert(probe_reports(probe, a138, a185));
        lemma_select_with_fixed_probe(selection, probe, a138, a185, decision);
    }
    Ok(decision)
}

/// Resolves the TPM version from the outcome of an optional read-only
/// inspection of a VMGS, and the version the caller asked for: the version of
/// the decision that [`resolve_tpm_decision`] makes.
pub fn resolve_tpm_version<E>(
    vmgs: Option<(Result<OpenedVmgs, VmgsOpenError<E>>, VmgsOpenMode)>,
    specified_version: Option<TpmVersion>,
) -> (r: Result<TpmVersion, E>)
    ensures
        r == spec_resolve_tpm_version(vmgs, specified_version),
{
    match resolve_tpm_decision(vmgs, specified_version) {
        Ok(decision) => Ok(decision.version),
        Err(e) => Err(e),
    }
}

/// `decision` is what a request for `specified_version` comes to when the
/// NVRAM files of 1.38 and 1.85 are allocated as given: without a request,
/// existing 1.85 state wins, then existing 1.38 state, and 1.85 is used when
/// there is none, with no conflict; with a request, the requested version is
/// used, and the other version is reported as conflicting exactly when only
/// the other version's file is allocated.
pub open spec fn chosen_from_files(
    specified_version: Option<TpmVersion>,
    v138_allocated: bool,
    v185_allocated: bool,
    decision: TpmVersionDecision,
) -> bool {
    match specified_version {
        None => {
            &&& decision.conflicting_version is None
            &&& v185_allocated ==> decision.version == TpmVersion::V185
            &&& !v185_allocated && v138_allocated ==> decision.version == TpmVersion::V138
            &&& !v185_allocated && !v138_allocated ==> decision.version == TpmVersion::V185
        },
        Some(requested) => {
            let (own, other) = match requested {
                TpmVersion::V138 => (v138_allocated, v185_allocated),
                TpmVersion::V185 => (v185_allocated, v138_allocated),
            };
            &&& decision.version == requested
            &&& decision.conflicting_version is Some <==> !own && other
            &&& decision.conflicting_version matches Some(c) ==> c != requested
        },
    }
}

/// A selection from allocated NVRAM files: a hint prefers existing 1.85
/// state, then existing 1.38 state, then the hinted version, and reports no
/// conflict; a specified version is always used, and the other version is
/// reported as conflicting exactly when only the other version's file is
/// allocated.
pub proof fn lemma_select_prefers_existing_state(
    selection: TpmVersionSelection,
    v138_allocated: bool,
    v185_allocated: bool,
)
    ensures
        ({
            let d = spec_select_tpm_version(selection, v138_allocated, v185_allocated);
            match selection {
                TpmVersionSelection::Hint(fallback) => {
                    &&& d.conflicting_version is None
                    &&& v185_allocated ==> d.version == TpmVersion::V185
                    &&& !v185_allocated && v138_allocated ==> d.version == TpmVersion::V138
                    &&& !v185_allocated && !v138_allocated ==> d.version == fallback
                },
                TpmVersionSelection::Specified(requested) => chosen_from_files(
                    Some(requested),
                    v138_allocated,
                    v185_allocated,
                    d,
                ),
            }
        }),
{
}

/// How the outcome of the read-only inspection decides the TPM version: a
/// VMGS that opened and whose state is used (any mode but `Reprovision`, or a
/// VMGS marked reprovisioned) decides by its allocated NVRAM files; a VMGS
/// that is empty, unmarked under `Reprovision`, or failed to open under
/// `OnFailure` counts as holding no files, as does the absence of a VMGS; any
/// other failure is returned as is.
pub open spec fn resolved_from_inspection<E>(
    vmgs: Option<(Result<OpenedVmgs, VmgsOpenError<E>>, VmgsOpenMode)>,
    specified_version: Option<TpmVersion>,
    r: Result<TpmVersionDecision, E>,
) -> bool {
    match vmgs {
        Some((Ok(v), mode)) => if mode != VmgsOpenMode::Reprovision || v.reprovisioned {
            r matches Ok(d) && chosen_from_files(
                specified_version,
                v.tpm_nvram_allocated,
                v.tpm_185_nvram_allocated,
                d,
            )
        } else {
            r matches Ok(d) && chosen_from_files(specified_version, false, false, d)
        },
        Some((Err(VmgsOpenError::EmptyFile), _)) => r matches Ok(d) && chosen_from_files(
            specified_version,
            false,
            false,
            d,
        ),
        Some((Err(VmgsOpenError::Other(e)), mode)) => if mode == VmgsOpenMode::OnFailure {
            r matches Ok(d) && chosen_from_files(specified_version, false, false, d)
        } else {
            r == Err::<TpmVersionDecision, E>(e)
        },
        None => r matches Ok(d) && chosen_from_files(specified_version, false, false, d),
    }
}

/// The decision computed from allocated files meets what a request comes to.
pub proof fn lemma_select_chooses_from_files(
    specified_version: Option<TpmVersion>,
    v138_allocated: bool,
    v185_allocated: bool,
)
    ensures
        chosen_from_files(
            specified_version,
            v138_allocated,
            v185_allocated,
            spec_select_tpm_version(
                spec_tpm_version_selection(specified_version),
                v138_allocated,
                v185_allocated,
            ),
        ),
{
}

/// Resolution decides as the inspection's outcome says: in particular, a
/// VMGS that opened under `OnEmpty` or `OnFailure` decides by its allocated
/// files, so existing 1.38 state with no request gives 1.38 in both modes.
pub proof fn lemma_resolve_decision_from_inspection<E>(
    vmgs: Option<(Result<OpenedVmgs, VmgsOpenError<E>>, VmgsOpenMode)>,
    specified_version: Option<TpmVersion>,
)
    ensures
        resolved_from_inspection(
            vmgs,
            specified_version,
            spec_resolve_tpm_decision(vmgs, specified_version),
        ),
{
    match vmgs {
        Some((Ok(v), mode)) => {
            lemma_select_chooses_from_files(
                specified_version,
                v.tpm_nvram_allocated,
                v.tpm_185_nvram_allocated,
            );
            lemma_select_chooses_from_files(specified_version, false, false);
        },
        _ => {
            lemma_select_chooses_from_files(specified_version, false, false);
        },
    }
}

/// An explicitly requested version is the version resolved whenever
/// resolution succeeds.
pub proof fn lemma_resolve_honors_request<E>(
    vmgs: Option<(Result<OpenedVmgs, VmgsOpenError<E>>, VmgsOpenMode)>,
    version: TpmVersion,
)
    requires
        spec_resolve_tpm_version(vmgs, Some(version)) is Ok,
    ensures
        spec_resolve_tpm_version(vmgs, Some(version)) == Ok::<TpmVersion, E>(version),
{
}

/// Resolution fails only when inspecting the VMGS failed for a reason other
/// than the VMGS being empty, and the VMGS is not to be opened with
/// [`VmgsOpenMode::OnFailure`]; it then reports that very failure.
pub proof fn lemma_resolve_fails_only_on_inspection_error<E>(
    vmgs: Option<(Result<OpenedVmgs, VmgsOpenError<E>>, VmgsOpenMode)>,
    specified_version: Option<TpmVersion>,
)
    ensures
        spec_resolve_tpm_version(vmgs, specified_version) is Err <==> (vmgs matches Some(
            (Err(VmgsOpenError::Other(_)), mode),
        ) && mode != VmgsOpenMode::OnFailure),
        match vmgs {
            Some((Err(VmgsOpenError::Other(e)), mode)) => mode != VmgsOpenMode::OnFailure
                ==> spec_resolve_tpm_version(vmgs, specified_version) == Err::<TpmVersion, E>(e),
            _ => true,
        },
{
}

/// Distinct TPM versions keep their NVRAM in distinct VMGS files.
pub proof fn lemma_nvram_file_ids_distinct(a: TpmVersion, b: TpmVersion)
    requires
        a != b,
    ensures
        spec_tpm_nvram_file_id(a) != spec_tpm_nvram_file_id(b),
{
}

} // verus!
