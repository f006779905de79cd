//! The `drag` plugin for the first generation of the application
//! framework. It handles the same command as [`crate::plugin::drag`] and
//! also injects its script API into every page.

use vstd::prelude::*;
use crate::plugin::drag::PluginDescriptor;

verus! {

/// Describes the plugin: it is named `drag`, handles `start_drag` and
/// injects its script.
pub fn init() -> (r: PluginDescriptor)
    ensures
        r.name@ == "drag"@,
        r.commands@.len() == 1,
        r.commands@[0]@ == "start_drag"@,
        r.injects_script,
{
    let mut commands: Vec<String> = Vec::new();
    commands.push("start_drag".to_owned());
    PluginDescriptor { name: "drag".to_owned(), commands, injects_script: true }
}

} // verus!
