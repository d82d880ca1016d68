//! Durable execution connectors: operation records, the OCI container
//! connector, the repository-script connector, the filesystem fixture
//! connector and the execution-profile resolver.

pub mod operation_record;
pub mod oci;
pub mod step_status;
pub mod repository_script;
pub mod durable_fixture;
pub mod profile_resolver;
