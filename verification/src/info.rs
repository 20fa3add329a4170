//! Application identity handed to the driver at instance creation.

use vstd::prelude::*;

verus! {

/// The packed graphics-API version numbers the library accepts.
pub const API_VERSION_1_0: u32 = 0x40_0000;
pub const API_VERSION_1_1: u32 = 0x40_1000;
pub const API_VERSION_1_2: u32 = 0x40_2000;
pub const API_VERSION_1_3: u32 = 0x40_3000;

/// The engine's packed version: 0.1.0.
pub const ENGINE_VERSION: u32 = 0x1000;

/// Pack a version as the graphics API encodes it: three bits of variant,
/// seven of major, ten of minor, twelve of patch.
pub fn make_api_version(variant: u32, major: u32, minor: u32, patch: u32) -> (r: u32)
    requires
        variant < 8,
        major < 128,
        minor < 1024,
        patch < 4096,
    ensures
        r == variant * 0x2000_0000 + major * 0x40_0000 + minor * 0x1000 + patch,
{
    variant * 0x2000_0000 + major * 0x40_0000 + minor * 0x1000 + patch
}

/// Whether a packed version is one this library accepts.
pub open spec fn valid_api_version(api_version: u32) -> bool {
    ||| api_version == API_VERSION_1_0
    ||| api_version == API_VERSION_1_1
    ||| api_version == API_VERSION_1_2
    ||| api_version == API_VERSION_1_3
}

/// What the application tells the driver about itself: its own name and
/// version, the engine's, and the API version it targets.
#[derive(Debug, Clone)]
pub struct AppInfo {
    pub name: String,
    pub version: u32,
    pub engine_name: String,
    pub engine_version: u32,
    pub api_version: u32,
}

impl AppInfo {
    /// Identity targeting the newest API version the library accepts.
    pub fn new(name: &str, version: u32) -> (r: Self)
        ensures
            r.name@ == name@,
            r.version == version,
            r.engine_name@ == "needle-core"@,
            r.engine_version == ENGINE_VERSION,
            r.api_version == API_VERSION_1_3,
    {
        Self::new_version_1_3(name, version)
    }

    /// Identity targeting the given API version; an unknown version falls
    /// back to the baseline.
    pub fn new_with_api_version(name: &str, version: u32, api_version: u32) -> (r: Self)
        ensures
            r.name@ == name@,
            r.version == version,
            r.engine_name@ == "needle-core"@,
            r.engine_version == ENGINE_VERSION,
            r.api_version == if valid_api_version(api_version) {
                api_version
            } else {
                API_VERSION_1_0
            },
    {
        AppInfo {
            name: String::from_str(name),
            version,
            engine_name: String::from_str("needle-core"),
            engine_version: ENGINE_VERSION,
            api_version: if api_version == API_VERSION_1_0 || api_version == API_VERSION_1_1
                || api_version == API_VERSION_1_2 || api_version == API_VERSION_1_3 {
                api_version
            } else {
                API_VERSION_1_0
            },
        }
    }

    pub fn new_version_1_0(name: &str, version: u32) -> (r: Self)
        ensures
            r.name@ == name@,
            r.version == version,
            r.engine_name@ == "needle-core"@,
            r.engine_version == ENGINE_VERSION,
            r.api_version == API_VERSION_1_0,
    {
        Self::new_with_api_version(name, version, API_VERSION_1_0)
    }

    pub fn new_version_1_1(name: &str, version: u32) -> (r: Self)
        ensures
            r.name@ == name@,
            r.version == version,
            r.engine_name@ == "needle-core"@,
            r.engine_version == ENGINE_VERSION,
            r.api_version == API_VERSION_1_1,
    {
        Self::new_with_api_version(name, version, API_VERSION_1_1)
    }

    pub fn new_version_1_2(name: &str, version: u32) -> (r: Self)
        ensures
            r.name@ == name@,
            r.version == version,
            r.engine_name@ == "needle-core"@,
            r.engine_version == ENGINE_VERSION,
            r.api_version == API_VERSION_1_2,
    {
        Self::new_with_api_version(name, version, API_VERSION_1_2)
    }

    pub fn new_version_1_3(name: &str, version: u32) -> (r: Self)
        ensures
            r.name@ == name@,
            r.version == version,
            r.engine_name@ == "needle-core"@,
            r.engine_version == ENGINE_VERSION,
            r.api_version == API_VERSION_1_3,
    {
        Self::new_with_api_version(name, version, API_VERSION_1_3)
    }

    pub fn name(&self) -> (r: &str)
        ensures
            r@ == self.name@,
    {
        self.name.as_str()
    }

    pub fn version(&self) -> (r: u32)
        ensures
            r == self.version,
    {
        self.version
    }

    pub fn engine_name(&self) -> (r: &str)
        ensures
            r@ == self.engine_name@,
    {
        self.engine_name.as_str()
    }

    pub fn engine_version(&self) -> (r: u32)
        ensures
            r == self.engine_version,
    {
        self.engine_version
    }

    pub fn api_version(&self) -> (r: u32)
        ensures
            r == self.api_version,
    {
        self.api_version
    }
}

} // verus!
