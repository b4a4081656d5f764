# vmm_config

Verified configuration and decision logic for VMM devices, written in Verus.

- `src/` is the verified library: incubator profiles (`profile`), TPM version
  selection (`tpm`) and AK cert kinds (`ak_cert`), SMBIOS identity for PCAT
  boot (`smbios`, `guid`), overlay pages (`pages`), VPCI device identity and
  teardown order (`vpci`), the response bookkeeping of remote chipset device
  workers (`chipset_worker`), and the decisions of the `cargo-hack` and
  VMM.Perf build-flow jobs (`flow_jobs`).
- `app/` holds what needs I/O, serde, async traits or error-reporting derives:
  loading profiles from TOML files, the AK cert and TPM logger helper traits,
  and displayable errors.
- `tests/` exercises the library on concrete values.
