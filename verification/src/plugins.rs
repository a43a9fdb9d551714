//! WebAssembly plugins. This build has no WebAssembly runtime, so loading and calling
//! plugins report that the support is missing.

use vstd::prelude::*;

use crate::error::BeaconError;

verus! {

/// A loaded WebAssembly plugin instance (none can be loaded in this build).
#[derive(Debug)]
pub struct WasmPlugin {
    unused: (),
}

/// The error every plugin operation reports in this build.
pub open spec fn unsupported(e: BeaconError) -> bool {
    e is Tool && e.spec_message() == "WASM plugin support requires the 'wasm' feature"@
}

impl WasmPlugin {
    /// Attempt to load a plugin: always refused in this build.
    pub fn load(name: String, wasm_bytes: Vec<u8>, memory_limit_pages: Option<u32>) -> (r: Result<Self, BeaconError>)
        ensures
            r is Err && unsupported(r->Err_0),
    {
        Err(BeaconError::Tool(String::from_str("WASM plugin support requires the 'wasm' feature")))
    }

    /// Call a tool of the plugin: always refused in this build.
    pub fn call_tool(&mut self, tool_name: &str, input: &str) -> (r: Result<String, BeaconError>)
        ensures
            r is Err && unsupported(r->Err_0),
    {
        Err(BeaconError::Tool(String::from_str("WASM plugin support requires the 'wasm' feature")))
    }

    /// The plugin name: empty in this build.
    pub fn name(&self) -> (r: &'static str)
        ensures
            r@ == Seq::<char>::empty(),
    {
        proof {
            reveal_strlit("");
        }
        ""
    }
}

} // verus!
