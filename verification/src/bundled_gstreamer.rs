//! The Windows packages carry their own GStreamer next to `frename.exe`: its DLLs,
//! `gst-plugin-scanner.exe`, and the plugins in `lib\gstreamer-1.0\`. The exe's folder comes
//! first in the Windows DLL search order, so a GStreamer installed on the system is not loaded;
//! its plugin environment variables would still be read, so they are replaced before GStreamer
//! starts. A developer build has no bundled plugins and uses the system GStreamer.
//!
//! This module says where the bundle's parts lie, relative to the exe's folder and the data
//! folder, and which variables change to what; the app joins the paths and looks on disk.

use vstd::prelude::*;

verus! {

/// A plugin every bundle has; its presence in the plugin folder marks the exe's folder as a
/// bundle.
pub const MARKER_PLUGIN: &'static str = "gstcoreelements.dll";

/// The plugin folder, below the exe's folder: these two folder names, one inside the other.
pub const PLUGIN_DIR: [&'static str; 2] = ["lib", "gstreamer-1.0"];

/// The plugin scanner, in the exe's folder.
pub const PLUGIN_SCANNER: &'static str = "gst-plugin-scanner.exe";

/// The plugin registry, kept in the data folder (the exe's folder may be replaced by an update).
pub const REGISTRY_FILE: &'static str = "gst-registry-x86_64.bin";

/// Variables that point GStreamer at another installation's plugins or registry.
pub open spec fn removed_variables() -> Seq<Seq<char>> {
    seq![
        "GST_PLUGIN_PATH"@,
        "GST_PLUGIN_PATH_1_0"@,
        "GST_PLUGIN_SYSTEM_PATH"@,
        "GST_PLUGIN_SCANNER"@,
        "GST_REGISTRY"@,
    ]
}

/// The environment changes that make GStreamer use only the bundle: variables to remove, and
/// variables to set with their values.
#[derive(Debug, PartialEq, Eq)]
pub struct GstEnvironment {
    pub remove: Vec<&'static str>,
    pub set: Vec<(&'static str, String)>,
}

/// The names of the variables in `names`, as character sequences.
pub open spec fn names_of(names: Seq<&'static str>) -> Seq<Seq<char>> {
    names.map_values(|n: &'static str| n@)
}

/// Whether `env` holds the changes for a bundle whose plugin folder, plugin scanner and
/// registry are at `plugins`, `scanner` and `registry`.
pub open spec fn is_bundle_environment(
    env: GstEnvironment,
    plugins: Seq<char>,
    scanner: Seq<char>,
    registry: Seq<char>,
) -> bool {
    &&& names_of(env.remove@) == removed_variables()
    &&& env.set@.len() == 3
    &&& env.set@[0].0@ == "GST_PLUGIN_SYSTEM_PATH_1_0"@ && env.set@[0].1@ == plugins
    &&& env.set@[1].0@ == "GST_PLUGIN_SCANNER_1_0"@ && env.set@[1].1@ == scanner
    &&& env.set@[2].0@ == "GST_REGISTRY_1_0"@ && env.set@[2].1@ == registry
}

/// The changes for an exe whose plugin folder, plugin scanner and registry path are
/// `plugins`, `scanner` and `registry` (see [`PLUGIN_DIR`], [`PLUGIN_SCANNER`],
/// [`REGISTRY_FILE`]); `None` when the plugin folder holds no [`MARKER_PLUGIN`], that is when
/// the exe has no bundled GStreamer.
pub fn bundled_gstreamer_environment(
    plugins: String,
    scanner: String,
    registry: String,
    marker_found: bool,
) -> (env: Option<GstEnvironment>)
    ensures
        env is None <==> !marker_found,
        env matches Some(e) ==> is_bundle_environment(e, plugins@, scanner@, registry@),
{
    if !marker_found {
        return None;
    }
    proof {
        reveal_strlit("GST_PLUGIN_PATH");
        reveal_strlit("GST_PLUGIN_PATH_1_0");
        reveal_strlit("GST_PLUGIN_SYSTEM_PATH");
        reveal_strlit("GST_PLUGIN_SCANNER");
        reveal_strlit("GST_REGISTRY");
        reveal_strlit("GST_PLUGIN_SYSTEM_PATH_1_0");
        reveal_strlit("GST_PLUGIN_SCANNER_1_0");
        reveal_strlit("GST_REGISTRY_1_0");
    }
    let ghost (p, s, r) = (plugins@, scanner@, registry@);
    let remove: Vec<&'static str> = vec![
        "GST_PLUGIN_PATH",
        "GST_PLUGIN_PATH_1_0",
        "GST_PLUGIN_SYSTEM_PATH",
        "GST_PLUGIN_SCANNER",
        "GST_REGISTRY",
    ];
    let set: Vec<(&'static str, String)> = vec![
        ("GST_PLUGIN_SYSTEM_PATH_1_0", plugins),
        ("GST_PLUGIN_SCANNER_1_0", scanner),
        ("GST_REGISTRY_1_0", registry),
    ];
    let env = GstEnvironment { remove, set };
    assert(names_of(env.remove@) =~= removed_variables());
    assert(is_bundle_environment(env, p, s, r));
    Some(env)
}

} // verus!
