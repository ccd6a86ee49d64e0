//! The manifest of a plugin.

use vstd::prelude::*;

verus! {

/// What a plugin declares of itself: who it is and which permissions it asks
/// for. The permissions are the one source of the instance's capabilities.
#[derive(Clone, Debug, PartialEq, Eq)]
pub struct PluginManifest {
    pub id: String,
    pub name: String,
    pub version: String,
    pub description: String,
    pub author: String,
    pub permissions: Vec<String>,
}

} // verus!
