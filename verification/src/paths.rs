//! The fixed file names the scene is loaded from. The front end resolves
//! them against the application root; only the names are decided here.

use vstd::prelude::*;

verus! {

/// The directory under the application root that holds every asset.
pub fn assets_dir_name() -> (s: &'static str)
    ensures
        s@ == "assets"@,
{
    "assets"
}

/// The display-configuration file, looked up inside the assets directory.
pub fn display_config_name() -> (s: &'static str)
    ensures
        s@ == "display.ron"@,
{
    "display.ron"
}

/// The crate sprite's image file, loaded from the assets directory.
pub fn texture_name() -> (s: &'static str)
    ensures
        s@ == "logo.png"@,
{
    "logo.png"
}

/// The sprite-sheet descriptor that accompanies the image, loaded from the
/// assets directory.
pub fn sprite_sheet_name() -> (s: &'static str)
    ensures
        s@ == "logo.ron"@,
{
    "logo.ron"
}

} // verus!
