use vstd::prelude::*;

use raw_window_handle::RawWindowHandle;

verus! {

/// `raw_window_handle::RawWindowHandle`: the window to present to, carried
/// through unread.
#[verifier::external_type_specification]
#[verifier::external_body]
pub struct ExRawWindowHandle(RawWindowHandle);

/// How the library is set up: the application's name, whether validation
/// layers are on, the window it presents to, and optional device features.
#[derive(Clone, Copy, Debug)]
pub struct SgpuInititizationInfo {
    pub app_name: &'static str,
    pub enable_validation_layers: bool,
    pub window_handle: Option<RawWindowHandle>,
    pub mesh_shaders: bool,
    pub atomic_float_operations: bool,
    pub ray_tracing: bool,
}

impl Default for SgpuInititizationInfo {
    fn default() -> (r: Self)
        ensures
            r.app_name@ == "Default"@,
            r.enable_validation_layers,
            r.window_handle.is_none(),
            !r.mesh_shaders,
            !r.atomic_float_operations,
            !r.ray_tracing,
    {
        SgpuInititizationInfo {
            app_name: "Default",
            enable_validation_layers: true,
            window_handle: None,
            mesh_shaders: false,
            atomic_float_operations: false,
            ray_tracing: false,
        }
    }
}

impl SgpuInititizationInfo {
    /// The default set-up for the window whose raw handle is given.
    pub fn default_from_window(window_handle: RawWindowHandle) -> (r: SgpuInititizationInfo)
        ensures
            r.app_name@ == "Default"@,
            r.enable_validation_layers,
            r.window_handle == Some(window_handle),
            !r.mesh_shaders,
            !r.atomic_float_operations,
            !r.ray_tracing,
    {
        SgpuInititizationInfo { window_handle: Some(window_handle), ..Self::default() }
    }
}

} // verus!
