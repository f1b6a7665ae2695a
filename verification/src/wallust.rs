//! The colour scheme that wallust writes, and how the configuration locates it.

use vstd::prelude::*;
use crate::config::AppConfig;

verus! {

/// The colours of a wallust scheme. `color15` is required too: the theme's
/// foreground falls back to it, so a colour file without it is rejected.
#[derive(Clone, Debug)]
pub struct WallmintColors {
    pub background: String,
    pub foreground: String,
    pub color0: String,
    pub color1: String,
    pub color2: String,
    pub color3: String,
    pub color4: String,
    pub color5: String,
    pub color6: String,
    pub color7: String,
    pub color8: String,
    pub color9: String,
    pub color10: String,
    pub color11: String,
    pub color12: String,
    pub color13: String,
    pub color14: String,
    pub color15: String,
}

/// The layout of wallust's colour file: the scheme under `colors`.
#[derive(Clone, Debug)]
pub struct WallustFile {
    pub colors: WallmintColors,
}

#[verifier::external_type_specification]
#[verifier::external_body]
pub struct ExIoError(std::io::Error);

#[verifier::external_type_specification]
#[verifier::external_body]
pub struct ExJsonError(serde_json::Error);

/// Why a colour scheme could not be had.
#[derive(Debug)]
pub enum WallustError {
    /// The configuration names no colour file.
    MissingPath,
    /// The colour file could not be read.
    Io { path: String, source: std::io::Error },
    /// The colour file is not a wallust scheme.
    Json { path: String, source: serde_json::Error },
}

/// `std::io::Error`'s `Display` text; nothing is stated of it.
#[verifier::external_body]
pub(crate) fn io_error_text(e: &std::io::Error) -> String {
    e.to_string()
}

/// `serde_json::Error`'s `Display` text; nothing is stated of it.
#[verifier::external_body]
pub(crate) fn json_error_text(e: &serde_json::Error) -> String {
    e.to_string()
}

impl WallustError {
    /// The error as a message: what went wrong, with the file's path.
    pub fn message(&self) -> (r: String)
        ensures
            match self {
                WallustError::MissingPath => r@ == "No wallust_colors_json path set in config"@,
                WallustError::Io { path, .. } => exists|t: Seq<char>|
                    r@ == "I/O error at "@ + path@ + ": "@ + t,
                WallustError::Json { path, .. } => exists|t: Seq<char>|
                    r@ == "JSON error in "@ + path@ + ": "@ + t,
            },
    {
        match self {
            WallustError::MissingPath => String::from_str("No wallust_colors_json path set in config"),
            WallustError::Io { path, source } => {
                let t = io_error_text(source);
                let mut r = String::from_str("I/O error at ");
                r.append(path.as_str());
                r.append(": ");
                r.append(t.as_str());
                r
            },
            WallustError::Json { path, source } => {
                let t = json_error_text(source);
                let mut r = String::from_str("JSON error in ");
                r.append(path.as_str());
                r.append(": ");
                r.append(t.as_str());
                r
            },
        }
    }
}

/// Loads the colour scheme from the file that the configuration names; the
/// file is read and parsed by `load_from_path`, which is handed that path.
/// Without a colour file in the configuration the result is `MissingPath`
/// and nothing is read.
pub fn load_wallust_colors<F: Fn(&String) -> Result<WallmintColors, WallustError>>(
    cfg: &AppConfig,
    load_from_path: F,
) -> (r: Result<WallmintColors, WallustError>)
    requires
        forall|p: &String| load_from_path.requires((p,)),
    ensures
        cfg.paths.wallust_colors_json is None ==> r matches Err(WallustError::MissingPath),
        cfg.paths.wallust_colors_json matches Some(p) ==> load_from_path.ensures((&p,), r),
{
    match &cfg.paths.wallust_colors_json {
        Some(path) => load_from_path(path),
        None => Err(WallustError::MissingPath),
    }
}

} // verus!
