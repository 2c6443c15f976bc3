//! The names under which the program runs: a development build and a release
//! build use different application identifiers and settings directories so
//! that both can be installed side by side.
use vstd::prelude::*;

verus! {

/// The action that asks a running instance to reload its settings.
pub const SETTINGS_RELOAD_ACTION: &'static str = "settings-reload";

/// The names of one build profile.
#[derive(Clone, Copy, Debug, PartialEq, Eq)]
pub struct Identity {
    pub application_id: &'static str,
    pub application_name: &'static str,
    pub icon_name: &'static str,
    /// The directory under the configuration home that holds the settings.
    pub settings_directory: &'static str,
}

/// The names of the development profile (`development`) or of the release
/// profile.
pub fn identity(development: bool) -> (id: Identity)
    ensures
        development ==> {
            &&& id.application_id@ == "io.github.z99natza.zter.Devel"@
            &&& id.application_name@ == "zter (Development)"@
            &&& id.icon_name@ == "io.github.z99natza.zter.Devel"@
            &&& id.settings_directory@ == "zter-devel"@
        },
        !development ==> {
            &&& id.application_id@ == "io.github.z99natza.zter"@
            &&& id.application_name@ == "zter"@
            &&& id.icon_name@ == "io.github.z99natza.zter"@
            &&& id.settings_directory@ == "zter"@
        },
{
    if development {
        Identity {
            application_id: "io.github.z99natza.zter.Devel",
            application_name: "zter (Development)",
            icon_name: "io.github.z99natza.zter.Devel",
            settings_directory: "zter-devel",
        }
    } else {
        Identity {
            application_id: "io.github.z99natza.zter",
            application_name: "zter",
            icon_name: "io.github.z99natza.zter",
            settings_directory: "zter",
        }
    }
}

} // verus!
