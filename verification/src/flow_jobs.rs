//! Decisions of the build-flow jobs that install and run `cargo-hack` and run
//! the VMM.Perf benchmarks: what they check, which commands they run, how
//! they retry, and under which directories they keep their results.

use vstd::prelude::*;
use vstd::string::StringExecFns;

verus! {

/// The cargo build profile of a job.
#[derive(Debug, Copy, Clone, PartialEq, Eq, Structural)]
pub enum CommonProfile {
    /// The release profile.
    Release,
    /// The debug profile.
    Debug,
}

/// The name under which cargo knows `profile`.
pub open spec fn spec_cargo_profile_name(profile: CommonProfile) -> Seq<char> {
    match profile {
        CommonProfile::Release => "release"@,
        CommonProfile::Debug => "dev"@,
    }
}

/// The name under which cargo knows `profile`.
pub fn cargo_profile_name(profile: CommonProfile) -> (name: &'static str)
    ensures
        name@ == spec_cargo_profile_name(profile),
{
    match profile {
        CommonProfile::Release => "release",
        CommonProfile::Debug => "dev",
    }
}

/// A request for a missing configuration value.
#[derive(Debug, Copy, Clone, PartialEq, Eq, Structural)]
pub enum MissingConfig {
    /// The version of `cargo-hack` to install is not configured.
    Version,
}

/// The cache key under which `cargo-hack` of `version` is kept.
pub open spec fn spec_cargo_hack_cache_key(version: Seq<char>) -> Seq<char> {
    "cargo-hack-"@ + version
}

/// Plans the installation of `cargo-hack` for `install_requests` requests to
/// install it as a cargo extension.
///
/// A missing version is an error whether or not anything is requested. With a
/// version and no requests there is nothing to do (`Ok(None)`); otherwise the
/// result is the cache key under which the installed binary is kept.
pub fn cargo_hack_install_plan(version: Option<String>, install_requests: usize) -> (r: Result<
    Option<String>,
    MissingConfig,
>)
    ensures
        match version {
            None => r == Err::<Option<String>, MissingConfig>(MissingConfig::Version),
            Some(v) => if install_requests == 0 {
                r matches Ok(None)
            } else {
                r matches Ok(Some(key)) && key@ == spec_cargo_hack_cache_key(v@)
            },
        },
        match version {
            Some(v) => install_requests != 0 ==> (r matches Ok(Some(key)) && key@ == "cargo-hack-"@
                + v@),
            None => r is Err,
        },
{
    let version = match version {
        Some(v) => v,
        None => return Err(MissingConfig::Version),
    };
    if install_requests == 0 {
        return Ok(None);
    }
    let mut key = String::from_str("cargo-hack-");
    key.append(version.as_str());
    Ok(Some(key))
}

/// Where the `cargo-hack` binary that is copied into cargo's home comes from.
#[derive(Debug, Copy, Clone, PartialEq, Eq, Structural)]
pub enum CargoHackSource {
    /// The binary kept in the cache.
    Cached,
    /// A binary freshly installed with `cargo install`, trying offline first.
    Install,
}

/// Chooses where the `cargo-hack` binary comes from: the cache on a cache
/// hit, else a fresh installation.
pub fn cargo_hack_source(cache_hit: bool) -> (source: CargoHackSource)
    ensures
        source == (if cache_hit {
            CargoHackSource::Cached
        } else {
            CargoHackSource::Install
        }),
{
    if cache_hit {
        CargoHackSource::Cached
    } else {
        CargoHackSource::Install
    }
}

/// The distribution packages that checking every feature needs on a host:
/// the OpenSSL headers and `pkg-config` on Ubuntu, nothing elsewhere.
pub open spec fn spec_cargo_hack_dist_packages(on_ubuntu: bool) -> Seq<Seq<char>> {
    if on_ubuntu {
        seq!["libssl-dev"@, "pkg-config"@]
    } else {
        Seq::empty()
    }
}

/// The views of a list of strings.
pub open spec fn string_views(strings: Seq<String>) -> Seq<Seq<char>> {
    strings.map_values(|s: String| s@)
}

/// Returns the distribution packages to install before checking every
/// feature with `cargo-hack`.
pub fn cargo_hack_dist_packages(on_ubuntu: bool) -> (packages: Vec<String>)
    ensures
        string_views(packages@) == spec_cargo_hack_dist_packages(on_ubuntu),
{
    let mut packages: Vec<String> = Vec::new();
    if on_ubuntu {
        packages.push(String::from_str("libssl-dev"));
        packages.push(String::from_str("pkg-config"));
    }
    assert(string_views(packages@) =~= spec_cargo_hack_dist_packages(on_ubuntu));
    packages
}

/// The arguments of a `cargo` command: the toolchain, when one is named, as
/// `+toolchain`, followed by `rest`.
pub open spec fn spec_cargo_args(toolchain: Option<Seq<char>>, rest: Seq<Seq<char>>) -> Seq<
    Seq<char>,
> {
    match toolchain {
        Some(t) => seq!["+"@ + t] + rest,
        None => rest,
    }
}

/// The arguments after the toolchain of the command that checks each feature
/// of the workspace, leaving out the crates whose features are checked
/// elsewhere.
pub open spec fn spec_workspace_check_args(profile: CommonProfile) -> Seq<Seq<char>> {
    seq![
        "hack"@,
        "--workspace"@,
        "--each-feature"@,
        "--locked"@,
        "--keep-going"@,
        "--exclude"@,
        "crypto"@,
        "--exclude"@,
        "tpm_device"@,
        "--exclude"@,
        "tpm_lib"@,
        "--exclude"@,
        "openvmm_hcl_resources"@,
        "--exclude"@,
        "openvmm_resources"@,
        "check"@,
        "--profile"@,
        spec_cargo_profile_name(profile),
    ]
}

/// The arguments after the toolchain of the command that checks each feature
/// of the resource crates except their TPM feature.
pub open spec fn spec_resources_check_args(profile: CommonProfile) -> Seq<Seq<char>> {
    seq![
        "hack"@,
        "--package"@,
        "openvmm_hcl_resources"@,
        "--package"@,
        "openvmm_resources"@,
        "--each-feature"@,
        "--locked"@,
        "--keep-going"@,
        "--exclude-features"@,
        "tpm"@,
        "check"@,
        "--profile"@,
        spec_cargo_profile_name(profile),
    ]
}

/// The command arguments `args` end with `--profile` and cargo's name of
/// `profile`: `release` for the release profile, `dev` for the debug one.
pub open spec fn ends_with_profile(args: Seq<Seq<char>>, profile: CommonProfile) -> bool {
    &&& args.len() >= 2
    &&& args[args.len() - 2] == "--profile"@
    &&& args.last() == match profile {
        CommonProfile::Release => "release"@,
        CommonProfile::Debug => "dev"@,
    }
}

/// The command arguments `args` start with `+toolchain` when a toolchain is
/// named.
pub open spec fn starts_with_toolchain(args: Seq<Seq<char>>, toolchain: Option<Seq<char>>) -> bool {
    toolchain matches Some(t) ==> args.len() > 0 && args[0] == "+"@ + t
}

/// Both feature-check commands check in the requested profile, for every
/// toolchain, and name the toolchain first when one is given.
pub proof fn lemma_check_commands_use_requested_profile(
    toolchain: Option<Seq<char>>,
    profile: CommonProfile,
)
    ensures
        ends_with_profile(spec_cargo_args(toolchain, spec_workspace_check_args(profile)), profile),
        ends_with_profile(spec_cargo_args(toolchain, spec_resources_check_args(profile)), profile),
        starts_with_toolchain(spec_cargo_args(toolchain, spec_workspace_check_args(profile)), toolchain),
        starts_with_toolchain(spec_cargo_args(toolchain, spec_resources_check_args(profile)), toolchain),
{
}

/// Appends `arg` to `args`.
fn push_arg(args: &mut Vec<String>, arg: &str)
    ensures
        string_views(final(args)@) == string_views(old(args)@).push(arg@),
{
    args.push(String::from_str(arg));
    assert(string_views(args@) =~= string_views(old(args)@).push(arg@));
}

/// Starts the arguments of a `cargo` command with the toolchain, if any.
fn toolchain_args(toolchain: Option<&str>) -> (args: Vec<String>)
    ensures
        string_views(args@) == spec_cargo_args(
            match toolchain {
                Some(t) => Some(t@),
                None => None,
            },
            Seq::empty(),
        ),
{
    let mut args: Vec<String> = Vec::new();
    match toolchain {
        Some(t) => {
            let mut arg = String::from_str("+");
            arg.append(t);
            args.push(arg);
        },
        None => {},
    }
    assert(string_views(args@) =~= spec_cargo_args(
        match toolchain {
            Some(t) => Some(t@),
            None => None,
        },
        Seq::empty(),
    ));
    args
}

/// Returns the arguments of the `cargo` command that checks each feature of
/// the workspace.
pub fn cargo_hack_workspace_args(toolchain: Option<&str>, profile: CommonProfile) -> (args: Vec<
    String,
>)
    ensures
        string_views(args@) == spec_cargo_args(
            match toolchain {
                Some(t) => Some(t@),
                None => None,
            },
            spec_workspace_check_args(profile),
        ),
        ends_with_profile(string_views(args@), profile),
        starts_with_toolchain(
            string_views(args@),
            match toolchain {
                Some(t) => Some(t@),
                None => None,
            },
        ),
{
    proof {
        lemma_check_commands_use_requested_profile(
            match toolchain {
                Some(t) => Some(t@),
                None => None,
            },
            profile,
        );
    }
    let mut args = toolchain_args(toolchain);
    push_arg(&mut args, "hack");
    push_arg(&mut args, "--workspace");
    push_arg(&mut args, "--each-feature");
    push_arg(&mut args, "--locked");
    push_arg(&mut args, "--keep-going");
    push_arg(&mut args, "--exclude");
    push_arg(&mut args, "crypto");
    push_arg(&mut args, "--exclude");
    push_arg(&mut args, "tpm_device");
    push_arg(&mut args, "--exclude");
    push_arg(&mut args, "tpm_lib");
    push_arg(&mut args, "--exclude");
    push_arg(&mut args, "openvmm_hcl_resources");
    push_arg(&mut args, "--exclude");
    push_arg(&mut args, "openvmm_resources");
    push_arg(&mut args, "check");
    push_arg(&mut args, "--profile");
    push_arg(&mut args, cargo_profile_name(profile));
    args
}

/// Returns the arguments of the `cargo` command that checks each feature of
/// the resource crates except their TPM feature.
pub fn cargo_hack_resources_args(toolchain: Option<&str>, profile: CommonProfile) -> (args: Vec<
    String,
>)
    ensures
        string_views(args@) == spec_cargo_args(
            match toolchain {
                Some(t) => Some(t@),
                None => None,
            },
            spec_resources_check_args(profile),
        ),
        ends_with_profile(string_views(args@), profile),
        starts_with_toolchain(
            string_views(args@),
            match toolchain {
                Some(t) => Some(t@),
                None => None,
            },
        ),
{
    proof {
        lemma_check_commands_use_requested_profile(
            match toolchain {
                Some(t) => Some(t@),
                None => None,
            },
            profile,
        );
    }
    let mut args = toolchain_args(toolchain);
    push_arg(&mut args, "hack");
    push_arg(&mut args, "--package");
    push_arg(&mut args, "openvmm_hcl_resources");
    push_arg(&mut args, "--package");
    push_arg(&mut args, "openvmm_resources");
    push_arg(&mut args, "--each-feature");
    push_arg(&mut args, "--locked");
    push_arg(&mut args, "--keep-going");
    push_arg(&mut args, "--exclude-features");
    push_arg(&mut args, "tpm");
    push_arg(&mut args, "check");
    push_arg(&mut args, "--profile");
    push_arg(&mut args, cargo_profile_name(profile));
    args
}


/// The backend that runs a flow.
#[derive(Debug, Copy, Clone, PartialEq, Eq, Structural)]
pub enum FlowBackend {
    /// Run on the local machine.
    Local,
    /// Run on Azure DevOps.
    Ado,
    /// Run on GitHub Actions.
    Github,
}

/// The operating system of the machine that runs a VMM.Perf job.
#[derive(Debug, Copy, Clone, PartialEq, Eq, Structural)]
pub enum PerfHostPlatform {
    /// Windows.
    Windows,
    /// Linux, of any distribution.
    Linux,
    /// Any other platform.
    Other,
}

/// The external dependencies that a VMM.Perf job installs.
#[derive(Debug, Copy, Clone, PartialEq, Eq, Structural)]
pub enum VmmTestsExternalDeps {
    /// Windows features.
    Windows {
        /// Hyper-V.
        hyperv: bool,
        /// The Windows Hypervisor Platform.
        whp: bool,
        /// Hardware isolation support.
        hardware_isolation: bool,
    },
    /// Linux settings.
    Linux {
        /// How many 2 MiB huge pages may be overcommitted, if set.
        hugetlb_2mb_overcommit_pages: Option<u64>,
        /// Whether to prepare vhost-vsock.
        prepare_vhost_vsock: bool,
    },
}

/// The directory under which a VMM.Perf job keeps its files.
#[derive(Debug, Copy, Clone, PartialEq, Eq, Structural)]
pub enum PerfJobRoot {
    /// The root directory given for a local run.
    GivenRootDir,
    /// `vp` under the Azure DevOps pipeline workspace.
    AdoPipelineWorkspace,
    /// `vp` under the GitHub runner's temporary directory.
    GithubRunnerTemp,
}

/// How a VMM.Perf job is set up.
#[derive(Debug, Copy, Clone, PartialEq, Eq, Structural)]
pub struct VmmPerfJobPlan {
    /// The external dependencies to install.
    pub external_deps: VmmTestsExternalDeps,
    /// Whether the pinned runtime archive is downloaded (rather than a given
    /// one used).
    pub download_runtime_archive: bool,
    /// Where the job keeps its files.
    pub job_root: PerfJobRoot,
    /// Whether the results are published as test results.
    pub publish_results: bool,
}

/// Why a VMM.Perf job cannot be set up.
#[derive(Debug, Copy, Clone, PartialEq, Eq, Structural)]
pub enum VmmPerfSetupError {
    /// A custom root directory was given for a run that is not local.
    CustomRootDirNotLocal,
    /// A custom runtime archive was given for a run that is not local.
    CustomRuntimeArchiveNotLocal,
    /// VMM.Perf does not run on this platform.
    UnsupportedPlatform,
    /// A local run was given no root directory.
    MissingLocalRootDir,
}

/// The setup of a VMM.Perf job, or why there is none.
pub open spec fn spec_vmm_perf_job_plan(
    backend: FlowBackend,
    platform: PerfHostPlatform,
    has_root_dir: bool,
    has_runtime_archive: bool,
    hugetlb_2mb_overcommit_pages: Option<u64>,
) -> Result<VmmPerfJobPlan, VmmPerfSetupError> {
    let local = backend == FlowBackend::Local;
    if has_root_dir && !local {
        Err(VmmPerfSetupError::CustomRootDirNotLocal)
    } else if has_runtime_archive && !local {
        Err(VmmPerfSetupError::CustomRuntimeArchiveNotLocal)
    } else if platform == PerfHostPlatform::Other {
        Err(VmmPerfSetupError::UnsupportedPlatform)
    } else if local && !has_root_dir {
        Err(VmmPerfSetupError::MissingLocalRootDir)
    } else {
        Ok(
            VmmPerfJobPlan {
                external_deps: if platform == PerfHostPlatform::Windows {
                    VmmTestsExternalDeps::Windows {
                        hyperv: true,
                        whp: true,
                        hardware_isolation: false,
                    }
                } else {
                    VmmTestsExternalDeps::Linux {
                        hugetlb_2mb_overcommit_pages,
                        prepare_vhost_vsock: false,
                    }
                },
                download_runtime_archive: !has_runtime_archive,
                job_root: match backend {
                    FlowBackend::Local => PerfJobRoot::GivenRootDir,
                    FlowBackend::Ado => PerfJobRoot::AdoPipelineWorkspace,
                    FlowBackend::Github => PerfJobRoot::GithubRunnerTemp,
                },
                publish_results: !local,
            },
        )
    }
}

/// What a VMM.Perf job plan must be: set up exactly when custom root
/// directories and runtime archives come only with local runs, the platform is
/// Windows or Linux, and a local run has its root directory; the pinned
/// runtime archive is downloaded exactly when no custom one is given, on every
/// backend; the job root follows the backend; results are published exactly
/// for runs that are not local; Windows hosts install Hyper-V and the Windows
/// Hypervisor Platform without hardware isolation, and Linux hosts keep the
/// huge page setting without vhost-vsock.
pub open spec fn vmm_perf_plan_shape(
    backend: FlowBackend,
    platform: PerfHostPlatform,
    has_root_dir: bool,
    has_runtime_archive: bool,
    hugetlb_2mb_overcommit_pages: Option<u64>,
    r: Result<VmmPerfJobPlan, VmmPerfSetupError>,
) -> bool {
    let local = backend == FlowBackend::Local;
    &&& r is Ok <==> ((local || !has_root_dir) && (local || !has_runtime_archive) && platform
        != PerfHostPlatform::Other && (!local || has_root_dir))
    &&& r matches Ok(plan) ==> {
        &&& plan.download_runtime_archive == !has_runtime_archive
        &&& plan.publish_results == !local
        &&& (backend == FlowBackend::Local ==> plan.job_root == PerfJobRoot::GivenRootDir)
        &&& (backend == FlowBackend::Ado ==> plan.job_root == PerfJobRoot::AdoPipelineWorkspace)
        &&& (backend == FlowBackend::Github ==> plan.job_root == PerfJobRoot::GithubRunnerTemp)
        &&& (platform == PerfHostPlatform::Windows ==> plan.external_deps
            == VmmTestsExternalDeps::Windows { hyperv: true, whp: true, hardware_isolation: false })
        &&& (platform == PerfHostPlatform::Linux ==> plan.external_deps
            == VmmTestsExternalDeps::Linux { hugetlb_2mb_overcommit_pages, prepare_vhost_vsock: false })
    }
}

/// Every VMM.Perf plan has the shape above, for every backend, platform and
/// choice of custom paths.
pub proof fn lemma_vmm_perf_plan_shape(
    backend: FlowBackend,
    platform: PerfHostPlatform,
    has_root_dir: bool,
    has_runtime_archive: bool,
    hugetlb_2mb_overcommit_pages: Option<u64>,
)
    ensures
        vmm_perf_plan_shape(
            backend,
            platform,
            has_root_dir,
            has_runtime_archive,
            hugetlb_2mb_overcommit_pages,
            spec_vmm_perf_job_plan(
                backend,
                platform,
                has_root_dir,
                has_runtime_archive,
                hugetlb_2mb_overcommit_pages,
            ),
        ),
{
}

/// Plans a VMM.Perf job run by `backend` on `platform`.
///
/// Custom root directories and runtime archives are for local runs only, and
/// a local run needs a root directory. Windows hosts install Hyper-V and the
/// Windows Hypervisor Platform; Linux hosts apply the huge page overcommit
/// setting. Runs that are not local publish their results.
pub fn plan_vmm_perf_job(
    backend: FlowBackend,
    platform: PerfHostPlatform,
    has_root_dir: bool,
    has_runtime_archive: bool,
    hugetlb_2mb_overcommit_pages: Option<u64>,
) -> (r: Result<VmmPerfJobPlan, VmmPerfSetupError>)
    ensures
        r == spec_vmm_perf_job_plan(
            backend,
            platform,
            has_root_dir,
            has_runtime_archive,
            hugetlb_2mb_overcommit_pages,
        ),
        vmm_perf_plan_shape(
            backend,
            platform,
            has_root_dir,
            has_runtime_archive,
            hugetlb_2mb_overcommit_pages,
            r,
        ),
{
    let local = match backend {
        FlowBackend::Local => true,
        _ => false,
    };
    if has_root_dir && !local {
        return Err(VmmPerfSetupError::CustomRootDirNotLocal);
    }
    if has_runtime_archive && !local {
        return Err(VmmPerfSetupError::CustomRuntimeArchiveNotLocal);
    }
    let external_deps = match platform {
        PerfHostPlatform::Windows => VmmTestsExternalDeps::Windows {
            hyperv: true,
            whp: true,
            hardware_isolation: false,
        },
        PerfHostPlatform::Linux => VmmTestsExternalDeps::Linux {
            hugetlb_2mb_overcommit_pages,
            prepare_vhost_vsock: false,
        },
        PerfHostPlatform::Other => return Err(VmmPerfSetupError::UnsupportedPlatform),
    };
    let job_root = match backend {
        FlowBackend::Local => {
            if !has_root_dir {
                return Err(VmmPerfSetupError::MissingLocalRootDir);
            }
            PerfJobRoot::GivenRootDir
        },
        FlowBackend::Ado => PerfJobRoot::AdoPipelineWorkspace,
        FlowBackend::Github => PerfJobRoot::GithubRunnerTemp,
    };
    Ok(
        VmmPerfJobPlan {
            external_deps,
            download_runtime_archive: !has_runtime_archive,
            job_root,
            publish_results: !local,
        },
    )
}

/// Every VMM.Perf job that can be set up runs either locally with its given
/// root directory, or in CI with neither a custom root directory nor a custom
/// runtime archive, and then publishes its results.
pub proof fn lemma_vmm_perf_custom_paths_are_local(
    backend: FlowBackend,
    platform: PerfHostPlatform,
    has_root_dir: bool,
    has_runtime_archive: bool,
    hugetlb_2mb_overcommit_pages: Option<u64>,
)
    requires
        spec_vmm_perf_job_plan(
            backend,
            platform,
            has_root_dir,
            has_runtime_archive,
            hugetlb_2mb_overcommit_pages,
        ) is Ok,
    ensures
        backend == FlowBackend::Local ==> has_root_dir,
        backend != FlowBackend::Local ==> !has_root_dir && !has_runtime_archive,
        spec_vmm_perf_job_plan(
            backend,
            platform,
            has_root_dir,
            has_runtime_archive,
            hugetlb_2mb_overcommit_pages,
        )->Ok_0.publish_results <==> backend != FlowBackend::Local,
{
}


/// A VMM.Perf run that failed, with the exit code of the runner when known.
#[derive(Debug, Copy, Clone, PartialEq, Eq, Structural)]
pub struct VmmPerfFailed {
    /// The runner's exit code, if it exited with one.
    pub exit_code: Option<i32>,
}

/// Reports the result of a VMM.Perf run: success, or the failure with the
/// runner's exit code.
pub fn vmm_perf_outcome(success: bool, exit_code: Option<i32>) -> (r: Result<(), VmmPerfFailed>)
    ensures
        r is Ok <==> success,
        r matches Err(failed) ==> failed.exit_code == exit_code,
{
    if success {
        Ok(())
    } else {
        Err(VmmPerfFailed { exit_code })
    }
}


/// The install root of `cargo-hack`: the configured persistent directory for
/// cargo installs, or the current directory (`./`) when none is configured.
pub fn cargo_hack_install_root(persistent_dir: Option<String>) -> (root: String)
    ensures
        root@ == match persistent_dir {
            Some(dir) => dir@,
            None => "./"@,
        },
{
    match persistent_dir {
        Some(dir) => dir,
        None => String::from_str("./"),
    }
}

/// The arguments after the toolchain of the `cargo` command that installs
/// `cargo-hack` of `version` under `root`, offline when `offline` is set.
pub open spec fn spec_cargo_hack_install_args(
    root: Seq<char>,
    version: Seq<char>,
    offline: bool,
) -> Seq<Seq<char>> {
    seq!["install"@, "--locked"@] + (if offline {
        seq!["--offline"@]
    } else {
        Seq::empty()
    }) + seq!["--root"@, root, "--target-dir"@, root, "--version"@, version, "cargo-hack"@]
}

/// The `cargo install` command for `cargo-hack` installs that very crate at
/// the requested version: it ends with `--version`, the version and
/// `cargo-hack`, names the toolchain first when one is given, and holds
/// `--offline` when installing offline.
pub open spec fn installs_requested_version(
    args: Seq<Seq<char>>,
    toolchain: Option<Seq<char>>,
    version: Seq<char>,
    offline: bool,
) -> bool {
    &&& args.len() >= 3
    &&& args.last() == "cargo-hack"@
    &&& args[args.len() - 2] == version
    &&& args[args.len() - 3] == "--version"@
    &&& starts_with_toolchain(args, toolchain)
    &&& offline ==> args.contains("--offline"@)
}

/// Every `cargo-hack` install command installs the requested version, for
/// every toolchain, root and version.
pub proof fn lemma_install_args_install_requested_version(
    toolchain: Option<Seq<char>>,
    root: Seq<char>,
    version: Seq<char>,
    offline: bool,
)
    ensures
        installs_requested_version(
            spec_cargo_args(toolchain, spec_cargo_hack_install_args(root, version, offline)),
            toolchain,
            version,
            offline,
        ),
{
    let args = spec_cargo_args(toolchain, spec_cargo_hack_install_args(root, version, offline));
    if offline {
        let k: int = if toolchain is Some { 3 } else { 2 };
        assert(args[k] == "--offline"@);
    }
}

/// Returns the arguments of the `cargo` command that installs `cargo-hack` of
/// `version`, building in and installing under `root`, and working offline
/// when `offline` is set.
pub fn cargo_hack_install_args(
    toolchain: Option<&str>,
    root: &str,
    version: &str,
    offline: bool,
) -> (args: Vec<String>)
    ensures
        string_views(args@) == spec_cargo_args(
            match toolchain {
                Some(t) => Some(t@),
                None => None,
            },
            spec_cargo_hack_install_args(root@, version@, offline),
        ),
        installs_requested_version(
            string_views(args@),
            match toolchain {
                Some(t) => Some(t@),
                None => None,
            },
            version@,
            offline,
        ),
{
    proof {
        lemma_install_args_install_requested_version(
            match toolchain {
                Some(t) => Some(t@),
                None => None,
            },
            root@,
            version@,
            offline,
        );
    }
    let mut args = toolchain_args(toolchain);
    push_arg(&mut args, "install");
    push_arg(&mut args, "--locked");
    if offline {
        push_arg(&mut args, "--offline");
    }
    push_arg(&mut args, "--root");
    push_arg(&mut args, root);
    push_arg(&mut args, "--target-dir");
    push_arg(&mut args, root);
    push_arg(&mut args, "--version");
    push_arg(&mut args, version);
    push_arg(&mut args, "cargo-hack");
    args
}

/// An attempt to install `cargo-hack` with `cargo install`.
#[derive(Debug, Copy, Clone, PartialEq, Eq, Structural)]
pub enum CargoHackInstallAttempt {
    /// Install without network access.
    Offline,
    /// Install with network access.
    Online,
}

/// Installing `cargo-hack` failed both offline and online.
#[derive(Debug, Copy, Clone, PartialEq, Eq, Structural)]
pub struct CargoHackInstallFailed;

/// Decides the next installation attempt from the last one and whether it
/// succeeded: the first attempt is offline; an offline failure is retried
/// online; a success ends the installation (`Ok(None)`); an online failure is
/// the installation's failure.
pub fn cargo_hack_next_install_attempt(
    last: Option<(CargoHackInstallAttempt, bool)>,
) -> (next: Result<Option<CargoHackInstallAttempt>, CargoHackInstallFailed>)
    ensures
        next == (match last {
            None => Ok(Some(CargoHackInstallAttempt::Offline)),
            Some((_, true)) => Ok(None),
            Some((CargoHackInstallAttempt::Offline, false)) => Ok(
                Some(CargoHackInstallAttempt::Online),
            ),
            Some((CargoHackInstallAttempt::Online, false)) => Err(CargoHackInstallFailed),
        }),
{
    match last {
        None => Ok(Some(CargoHackInstallAttempt::Offline)),
        Some((_, true)) => Ok(None),
        Some((CargoHackInstallAttempt::Offline, false)) => Ok(Some(CargoHackInstallAttempt::Online)),
        Some((CargoHackInstallAttempt::Online, false)) => Err(CargoHackInstallFailed),
    }
}

/// Where a VMM.Perf job keeps its files, below the directory that its job
/// root names.
#[derive(Debug, Copy, Clone, PartialEq, Eq)]
pub struct VmmPerfDirs {
    /// The directory below the job root's base directory that is the job's
    /// root, if any: `vp` under the CI roots, none for a given root directory.
    pub root_subdir: Option<&'static str>,
    /// The directory below the job's root that receives the results.
    pub results: &'static str,
    /// The directory below the job's root that holds temporary files.
    pub temp: &'static str,
}

/// Returns where a VMM.Perf job with job root `job_root` keeps its files:
/// results under `results` and temporary files under `t` below the job's
/// root, which is the given root directory itself or `vp` under the CI
/// roots.
pub fn vmm_perf_dirs(job_root: PerfJobRoot) -> (dirs: VmmPerfDirs)
    ensures
        match job_root {
            PerfJobRoot::GivenRootDir => dirs.root_subdir is None,
            _ => dirs.root_subdir matches Some(sub) && sub@ == "vp"@,
        },
        dirs.results@ == "results"@,
        dirs.temp@ == "t"@,
{
    let root_subdir = match job_root {
        PerfJobRoot::GivenRootDir => None,
        PerfJobRoot::AdoPipelineWorkspace => Some("vp"),
        PerfJobRoot::GithubRunnerTemp => Some("vp"),
    };
    VmmPerfDirs { root_subdir, results: "results", temp: "t" }
}

} // verus!
