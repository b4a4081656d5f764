//! Configuration and decision logic for VMM devices: incubator profiles, TPM
//! version selection and AK cert kinds, SMBIOS identity for PCAT boot, overlay
//! pages, VPCI device identity, and the response bookkeeping of remote chipset
//! device workers.

pub mod ak_cert;
pub mod chipset_worker;
pub mod flow_jobs;
pub mod guid;
pub mod pages;
pub mod profile;
pub mod smbios;
pub mod tpm;
pub mod vpci;
