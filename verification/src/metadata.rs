//! The static identity of the plugin unit.

use vstd::prelude::*;

verus! {

/// The name under which the plugin unit is known to the host.
pub const PLUGIN_NAME: &'static str = "binary_plugin";

/// What the plugin unit is, in a sentence for people.
pub const PLUGIN_DESCRIPTION: &'static str =
    "Provides components, entity types, component behaviours and web resources";

/// The semantic version of the plugin unit.
pub const PLUGIN_VERSION: &'static str = "0.1.0";

/// Name, description and version of a plugin.
#[derive(Debug, PartialEq, Eq)]
pub struct PluginMetadata {
    pub name: String,
    pub description: String,
    pub version: String,
}

/// What a [`PluginMetadata`] stands for: the three texts.
pub struct PluginIdentity {
    pub name: Seq<char>,
    pub description: Seq<char>,
    pub version: Seq<char>,
}

impl View for PluginMetadata {
    type V = PluginIdentity;

    open spec fn view(&self) -> PluginIdentity {
        PluginIdentity {
            name: self.name@,
            description: self.description@,
            version: self.version@,
        }
    }
}

/// The identity of this plugin unit. It depends on nothing: not on the
/// context, not on the providers, not on the lifecycle hooks that were called.
pub open spec fn identity() -> PluginIdentity {
    PluginIdentity {
        name: PLUGIN_NAME@,
        description: PLUGIN_DESCRIPTION@,
        version: PLUGIN_VERSION@,
    }
}

/// Name, description and version of this plugin unit are all stated: none of
/// the three texts is empty.
pub proof fn lemma_identity_is_stated()
    ensures
        identity().name.len() > 0,
        identity().description.len() > 0,
        identity().version.len() > 0,
{
    reveal_strlit("binary_plugin");
    reveal_strlit("Provides components, entity types, component behaviours and web resources");
    reveal_strlit("0.1.0");
}

} // verus!
