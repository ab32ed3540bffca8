//! The media server's status report.

use vstd::prelude::*;

verus! {

/// Body of the server's `system/status` endpoint: build, platform and
/// runtime facts the server reports about itself.
#[derive(Debug, PartialEq, Eq)]
pub struct StatusResponse {
    pub app_data: String,
    pub authentication: String,
    pub branch: String,
    pub build_time: String,
    pub is_admin: bool,
    pub is_debug: bool,
    pub is_linux: bool,
    pub is_osx: bool,
    pub is_production: bool,
    pub is_user_interactive: bool,
    pub is_windows: bool,
    pub runtime_version: String,
    pub startup_path: String,
    pub url_base: String,
    pub version: String,
}

} // verus!
