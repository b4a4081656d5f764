use vmm_config::flow_jobs::cargo_hack_dist_packages;
use vmm_config::flow_jobs::cargo_hack_install_plan;
use vmm_config::flow_jobs::cargo_hack_resources_args;
use vmm_config::flow_jobs::cargo_hack_source;
use vmm_config::flow_jobs::cargo_hack_workspace_args;
use vmm_config::flow_jobs::cargo_profile_name;
use vmm_config::flow_jobs::plan_vmm_perf_job;
use vmm_config::flow_jobs::CargoHackSource;
use vmm_config::flow_jobs::CommonProfile;
use vmm_config::flow_jobs::FlowBackend;
use vmm_config::flow_jobs::MissingConfig;
use vmm_config::flow_jobs::PerfHostPlatform;
use vmm_config::flow_jobs::PerfJobRoot;
use vmm_config::flow_jobs::VmmPerfJobPlan;
use vmm_config::flow_jobs::VmmPerfSetupError;
use vmm_config::flow_jobs::VmmTestsExternalDeps;

#[test]
fn profile_names() {
    assert_eq!(cargo_profile_name(CommonProfile::Release), "release");
    assert_eq!(cargo_profile_name(CommonProfile::Debug), "dev");
}

#[test]
fn install_plan() {
    assert_eq!(cargo_hack_install_plan(None, 0), Err(MissingConfig::Version));
    assert_eq!(cargo_hack_install_plan(None, 2), Err(MissingConfig::Version));
    assert_eq!(cargo_hack_install_plan(Some("0.6.45".into()), 0), Ok(None));
    assert_eq!(
        cargo_hack_install_plan(Some("0.6.45".into()), 1),
        Ok(Some("cargo-hack-0.6.45".to_string()))
    );
    assert_eq!(cargo_hack_source(true), CargoHackSource::Cached);
    assert_eq!(cargo_hack_source(false), CargoHackSource::Install);
}

#[test]
fn dist_packages() {
    assert_eq!(cargo_hack_dist_packages(true), vec!["libssl-dev", "pkg-config"]);
    assert!(cargo_hack_dist_packages(false).is_empty());
}

#[test]
fn cargo_hack_commands() {
    assert_eq!(
        cargo_hack_workspace_args(Some("1.90"), CommonProfile::Debug).join(" "),
        "+1.90 hack --workspace --each-feature --locked --keep-going --exclude crypto \
         --exclude tpm_device --exclude tpm_lib --exclude openvmm_hcl_resources \
         --exclude openvmm_resources check --profile dev"
    );
    assert_eq!(
        cargo_hack_resources_args(None, CommonProfile::Release).join(" "),
        "hack --package openvmm_hcl_resources --package openvmm_resources --each-feature \
         --locked --keep-going --exclude-features tpm check --profile release"
    );
}

#[test]
fn vmm_perf_custom_paths_are_local_only() {
    assert_eq!(
        plan_vmm_perf_job(FlowBackend::Ado, PerfHostPlatform::Linux, true, false, None),
        Err(VmmPerfSetupError::CustomRootDirNotLocal)
    );
    assert_eq!(
        plan_vmm_perf_job(FlowBackend::Github, PerfHostPlatform::Windows, false, true, None),
        Err(VmmPerfSetupError::CustomRuntimeArchiveNotLocal)
    );
    assert_eq!(
        plan_vmm_perf_job(FlowBackend::Github, PerfHostPlatform::Other, true, true, None),
        Err(VmmPerfSetupError::CustomRootDirNotLocal)
    );
}

#[test]
fn vmm_perf_platforms_and_roots() {
    assert_eq!(
        plan_vmm_perf_job(FlowBackend::Local, PerfHostPlatform::Other, true, false, None),
        Err(VmmPerfSetupError::UnsupportedPlatform)
    );
    assert_eq!(
        plan_vmm_perf_job(FlowBackend::Local, PerfHostPlatform::Linux, false, false, None),
        Err(VmmPerfSetupError::MissingLocalRootDir)
    );
    assert_eq!(
        plan_vmm_perf_job(FlowBackend::Local, PerfHostPlatform::Linux, true, true, Some(64)),
        Ok(VmmPerfJobPlan {
            external_deps: VmmTestsExternalDeps::Linux {
                hugetlb_2mb_overcommit_pages: Some(64),
                prepare_vhost_vsock: false,
            },
            download_runtime_archive: false,
            job_root: PerfJobRoot::GivenRootDir,
            publish_results: false,
        })
    );
    assert_eq!(
        plan_vmm_perf_job(FlowBackend::Ado, PerfHostPlatform::Windows, false, false, Some(64)),
        Ok(VmmPerfJobPlan {
            external_deps: VmmTestsExternalDeps::Windows {
                hyperv: true,
                whp: true,
                hardware_isolation: false,
            },
            download_runtime_archive: true,
            job_root: PerfJobRoot::AdoPipelineWorkspace,
            publish_results: true,
        })
    );
    assert_eq!(
        plan_vmm_perf_job(FlowBackend::Github, PerfHostPlatform::Linux, false, false, None)
            .unwrap()
            .job_root,
        PerfJobRoot::GithubRunnerTemp
    );
}

use vmm_config::flow_jobs::vmm_perf_outcome;
use vmm_config::flow_jobs::VmmPerfFailed;

#[test]
fn vmm_perf_outcomes() {
    assert_eq!(vmm_perf_outcome(true, None), Ok(()));
    assert_eq!(vmm_perf_outcome(true, Some(3)), Ok(()));
    assert_eq!(
        vmm_perf_outcome(false, Some(3)),
        Err(VmmPerfFailed { exit_code: Some(3) })
    );
    assert_eq!(
        vmm_perf_outcome(false, None),
        Err(VmmPerfFailed { exit_code: None })
    );
}

use vmm_config::flow_jobs::cargo_hack_install_args;
use vmm_config::flow_jobs::cargo_hack_install_root;
use vmm_config::flow_jobs::cargo_hack_next_install_attempt;
use vmm_config::flow_jobs::vmm_perf_dirs;
use vmm_config::flow_jobs::CargoHackInstallAttempt;
use vmm_config::flow_jobs::CargoHackInstallFailed;

#[test]
fn cargo_hack_install_command() {
    assert_eq!(cargo_hack_install_root(None), "./");
    assert_eq!(cargo_hack_install_root(Some("/p".to_string())), "/p");
    assert_eq!(
        cargo_hack_install_args(Some("stable"), "./", "0.6.45", true).join(" "),
        "+stable install --locked --offline --root ./ --target-dir ./ --version 0.6.45 cargo-hack"
    );
    assert_eq!(
        cargo_hack_install_args(None, "/p", "0.6.45", false).join(" "),
        "install --locked --root /p --target-dir /p --version 0.6.45 cargo-hack"
    );
}

#[test]
fn cargo_hack_install_retries_online_once() {
    assert_eq!(cargo_hack_next_install_attempt(None), Ok(Some(CargoHackInstallAttempt::Offline)));
    assert_eq!(cargo_hack_next_install_attempt(Some((CargoHackInstallAttempt::Offline, true))), Ok(None));
    assert_eq!(cargo_hack_next_install_attempt(Some((CargoHackInstallAttempt::Offline, false))), Ok(Some(CargoHackInstallAttempt::Online)));
    assert_eq!(cargo_hack_next_install_attempt(Some((CargoHackInstallAttempt::Online, true))), Ok(None));
    assert_eq!(
        cargo_hack_next_install_attempt(Some((CargoHackInstallAttempt::Online, false))),
        Err(CargoHackInstallFailed)
    );
}

#[test]
fn vmm_perf_directories() {
    let local = vmm_perf_dirs(PerfJobRoot::GivenRootDir);
    assert_eq!(local.root_subdir, None);
    assert_eq!((local.results, local.temp), ("results", "t"));
    assert_eq!(vmm_perf_dirs(PerfJobRoot::AdoPipelineWorkspace).root_subdir, Some("vp"));
    assert_eq!(vmm_perf_dirs(PerfJobRoot::GithubRunnerTemp).root_subdir, Some("vp"));
}
