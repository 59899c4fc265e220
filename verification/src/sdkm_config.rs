//! Where the catalogs are found.

use vstd::prelude::*;

verus! {

/// The address of the first-level catalog that is used where none is configured.
pub const DEFAULT_MAIN_REPO_URL: &'static str =
    "https://developer.download.nvidia.com/sdkmanager/sdkm-config/main/sdkml1_repo.json";

/// The server name that is used where none is configured.
pub const DEFAULT_SERVER: &'static str = "P";

/// The configuration: the address of the first-level catalog, and the names
/// of two servers.
#[derive(Debug, Clone, PartialEq, Eq)]
pub struct SdkmConfig {
    pub main_repo_url: String,
    pub pid_server: String,
    pub dev_zone_server: String,
}

impl Default for SdkmConfig {
    fn default() -> (config: SdkmConfig)
        ensures
            config.main_repo_url@ == DEFAULT_MAIN_REPO_URL@,
            config.pid_server@ == DEFAULT_SERVER@,
            config.dev_zone_server@ == DEFAULT_SERVER@,
    {
        SdkmConfig {
            main_repo_url: DEFAULT_MAIN_REPO_URL.to_owned(),
            pid_server: DEFAULT_SERVER.to_owned(),
            dev_zone_server: DEFAULT_SERVER.to_owned(),
        }
    }
}

} // verus!
