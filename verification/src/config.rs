//! The application's configuration: its sections, their defaults, and how
//! the configured paths are completed, expanded and resolved.

use vstd::prelude::*;
use crate::paths::{
    spec_path_join, spec_expand_tilde, valid_home, is_expansion_of, opt_view, path_join,
    expand_tilde, expand_tilde_with, lemma_expand_tilde_idempotent, path_parent_of, path_extension_of, path_parent,
    path_extension,
};
use crate::text::same_text;
use crate::wallust::{io_error_text, json_error_text};

verus! {

/// Where the application finds its files. Only `wallpaper_dir` is required.
#[derive(Clone, Debug)]
pub struct PathsConfig {
    pub wallpaper_dir: String,
    pub config_dir: Option<String>,
    /// Directory that may contain style.css (legacy field).
    pub style_dir: Option<String>,
    /// Preferred: explicit path to style.css.
    pub style_path: Option<String>,
    pub config_path: Option<String>,
    pub wallust_colors_json: Option<String>,
}

/// The paths of a [`PathsConfig`] as text.
pub struct PathsView {
    pub wallpaper_dir: Seq<char>,
    pub config_dir: Option<Seq<char>>,
    pub style_dir: Option<Seq<char>>,
    pub style_path: Option<Seq<char>>,
    pub config_path: Option<Seq<char>>,
    pub wallust_colors_json: Option<Seq<char>>,
}

impl View for PathsConfig {
    type V = PathsView;

    open spec fn view(&self) -> PathsView {
        PathsView {
            wallpaper_dir: self.wallpaper_dir@,
            config_dir: opt_view(self.config_dir),
            style_dir: opt_view(self.style_dir),
            style_path: opt_view(self.style_path),
            config_path: opt_view(self.config_path),
            wallust_colors_json: opt_view(self.wallust_colors_json),
        }
    }
}

#[derive(Clone, Debug)]
pub struct WindowConfig {
    pub height: i32,
    pub width: i32,
    pub resizable: bool,
}

#[derive(Clone, Debug)]
pub struct PreviewConfig {
    pub aspect_ratio: String,
    pub content_fit: String,
    pub vexpand: bool,
    pub hexpand: bool,
}

#[derive(Clone, Debug)]
pub struct UiConfig {
    pub title: String,
    pub window: WindowConfig,
    pub preview: PreviewConfig,
}

#[derive(Clone, Debug)]
pub struct HyprpaperConfig {
    pub enabled: bool,
    pub hyprctl_bin: String,
    /// Monitor name, or "*" for every monitor.
    pub monitor: String,
    pub preload: bool,
}

#[derive(Clone, Debug)]
pub struct WallustRunConfig {
    pub enabled: bool,
    pub bin: String,
}

#[derive(Clone, Debug)]
pub struct AppConfig {
    pub paths: PathsConfig,
    pub ui: UiConfig,
    pub hyprpaper: HyprpaperConfig,
    pub wallust: WallustRunConfig,
}

// ---------------------------------------------------------------------------
// Defaults

pub open spec fn is_default_window(w: WindowConfig) -> bool {
    w.height == 720 && w.width == 1100 && w.resizable
}

pub open spec fn is_default_preview(p: PreviewConfig) -> bool {
    &&& p.aspect_ratio@ == "16:9"@
    &&& p.content_fit@ == "cover"@
    &&& p.vexpand
    &&& p.hexpand
}

pub open spec fn is_default_ui(u: UiConfig) -> bool {
    &&& u.title@ == "Wallmint"@
    &&& is_default_window(u.window)
    &&& is_default_preview(u.preview)
}

pub open spec fn is_default_hyprpaper(h: HyprpaperConfig) -> bool {
    &&& h.enabled
    &&& h.hyprctl_bin@ == "hyprctl"@
    &&& h.monitor@ == "*"@
    &&& h.preload
}

pub open spec fn is_default_wallust(w: WallustRunConfig) -> bool {
    w.enabled && w.bin@ == "wallust"@
}

/// The default paths, given what the environment reports for the user's
/// configuration, cache and pictures directories, and whether
/// `<pictures>/walls` is a directory.
pub open spec fn spec_default_paths(
    config: Option<Seq<char>>,
    cache: Option<Seq<char>>,
    pictures: Option<Seq<char>>,
    walls_is_dir: bool,
) -> PathsView {
    let config_dir = match config {
        Some(c) => c,
        None => seq!['.'],
    };
    let cache_dir = match cache {
        Some(k) => k,
        None => spec_path_join(config_dir, ".cache"@),
    };
    let pictures_dir = match pictures {
        Some(p) => p,
        None => seq!['.'],
    };
    let app_dir = spec_path_join(config_dir, "wallmint"@);
    PathsView {
        wallpaper_dir: if walls_is_dir {
            spec_path_join(pictures_dir, "walls"@)
        } else {
            spec_path_join(pictures_dir, "Wallpapers"@)
        },
        config_dir: Some(app_dir),
        style_dir: Some(app_dir),
        style_path: Some(spec_path_join(app_dir, "style.css"@)),
        config_path: Some(spec_path_join(app_dir, "config.json"@)),
        wallust_colors_json: Some(
            spec_path_join(spec_path_join(cache_dir, "wallust"@), "colors.json"@),
        ),
    }
}

/// Paths that some environment gives as the defaults.
pub open spec fn is_default_paths(p: PathsView) -> bool {
    exists|c: Option<Seq<char>>, k: Option<Seq<char>>, q: Option<Seq<char>>, w: bool|
        p == #[trigger] spec_default_paths(c, k, q, w)
}

pub fn default_title() -> (r: String)
    ensures
        r@ == "Wallmint"@,
{
    String::from_str("Wallmint")
}

pub fn default_height() -> (r: i32)
    ensures
        r == 720,
{
    720
}

pub fn default_width() -> (r: i32)
    ensures
        r == 1100,
{
    1100
}

pub fn default_true() -> (r: bool)
    ensures
        r,
{
    true
}

pub fn default_aspect() -> (r: String)
    ensures
        r@ == "16:9"@,
{
    String::from_str("16:9")
}

pub fn default_fit() -> (r: String)
    ensures
        r@ == "cover"@,
{
    String::from_str("cover")
}

pub fn default_hyprctl() -> (r: String)
    ensures
        r@ == "hyprctl"@,
{
    String::from_str("hyprctl")
}

pub fn default_monitor() -> (r: String)
    ensures
        r@ == "*"@,
{
    String::from_str("*")
}

pub fn default_wallust() -> (r: String)
    ensures
        r@ == "wallust"@,
{
    String::from_str("wallust")
}

impl Default for WindowConfig {
    fn default() -> (r: Self)
        ensures
            is_default_window(r),
    {
        WindowConfig { height: default_height(), width: default_width(), resizable: true }
    }
}

impl Default for PreviewConfig {
    fn default() -> (r: Self)
        ensures
            is_default_preview(r),
    {
        PreviewConfig {
            aspect_ratio: default_aspect(),
            content_fit: default_fit(),
            vexpand: true,
            hexpand: true,
        }
    }
}

impl Default for UiConfig {
    fn default() -> (r: Self)
        ensures
            is_default_ui(r),
    {
        UiConfig {
            title: default_title(),
            window: WindowConfig::default(),
            preview: PreviewConfig::default(),
        }
    }
}

impl Default for HyprpaperConfig {
    fn default() -> (r: Self)
        ensures
            is_default_hyprpaper(r),
    {
        HyprpaperConfig {
            enabled: default_true(),
            hyprctl_bin: default_hyprctl(),
            monitor: default_monitor(),
            preload: true,
        }
    }
}

impl Default for WallustRunConfig {
    fn default() -> (r: Self)
        ensures
            is_default_wallust(r),
    {
        WallustRunConfig { enabled: true, bin: default_wallust() }
    }
}

/// The user's configuration directory from `dirs::config_dir`. It depends
/// on the environment (`$XDG_CONFIG_HOME`, else the home directory); nothing
/// is stated of it.
#[verifier::external_body]
fn user_config_dir() -> Option<String> {
    dirs::config_dir().map(|p| p.to_string_lossy().into_owned())
}

/// Whether the path names a regular file, by `std::path::Path::is_file`. It
/// depends on what is on disk; nothing is stated of it.
#[verifier::external_body]
pub(crate) fn path_is_file(path: &str) -> bool {
    std::path::Path::new(path).is_file()
}

fn text_or_dot(o: &Option<String>) -> (r: String)
    ensures
        r@ == (match opt_view(*o) {
            Some(s) => s,
            None => seq!['.'],
        }),
{
    match o {
        Some(s) => s.clone(),
        None => {
            proof {
                reveal_strlit(".");
            }
            String::from_str(".")
        },
    }
}

impl AppConfig {
    /// The default configuration for the given environment: the user's
    /// configuration, cache and pictures directories as the environment
    /// reports them, and whether `<pictures>/walls` is a directory.
    pub fn from_base_dirs(
        config_dir: Option<String>,
        cache_dir: Option<String>,
        picture_dir: Option<String>,
        walls_is_dir: bool,
    ) -> (r: AppConfig)
        ensures
            r.paths@ == spec_default_paths(
                opt_view(config_dir),
                opt_view(cache_dir),
                opt_view(picture_dir),
                walls_is_dir,
            ),
            is_default_ui(r.ui),
            is_default_hyprpaper(r.hyprpaper),
            is_default_wallust(r.wallust),
    {
        let config_base = text_or_dot(&config_dir);
        let cache_base = match cache_dir {
            Some(k) => k,
            None => path_join(&config_base, ".cache"),
        };
        let pictures_base = text_or_dot(&picture_dir);

        let app_config_dir = path_join(&config_base, "wallmint");
        let style_path = path_join(&app_config_dir, "style.css");
        let style_dir = app_config_dir.clone();
        let config_path = path_join(&app_config_dir, "config.json");
        let wallust_dir = path_join(&cache_base, "wallust");
        let wallust_colors_json = path_join(&wallust_dir, "colors.json");

        let wallpaper_dir = if walls_is_dir {
            path_join(&pictures_base, "walls")
        } else {
            path_join(&pictures_base, "Wallpapers")
        };

        let r = AppConfig {
            paths: PathsConfig {
                wallpaper_dir,
                config_dir: Some(app_config_dir),
                style_dir: Some(style_dir),
                style_path: Some(style_path),
                config_path: Some(config_path),
                wallust_colors_json: Some(wallust_colors_json),
            },
            ui: UiConfig::default(),
            hyprpaper: HyprpaperConfig::default(),
            wallust: WallustRunConfig::default(),
        };
        assert(r.paths@ == spec_default_paths(
            opt_view(config_dir),
            opt_view(cache_dir),
            opt_view(picture_dir),
            walls_is_dir,
        ));
        r
    }
}

impl AppConfig {
    /// The directory whose existence decides the default wallpaper folder:
    /// `walls` inside the user's pictures directory (or `.`).
    pub fn walls_candidate(picture_dir: &Option<String>) -> (r: String)
        ensures
            r@ == spec_path_join(
                match opt_view(*picture_dir) {
                    Some(p) => p,
                    None => seq!['.'],
                },
                "walls"@,
            ),
    {
        let pictures_base = text_or_dot(picture_dir);
        path_join(&pictures_base, "walls")
    }
}


/// An optional path with `~` expanded against `home`.
pub open spec fn spec_expand_opt(p: Option<Seq<char>>, home: Option<Seq<char>>) -> Option<Seq<char>> {
    match p {
        Some(q) => Some(spec_expand_tilde(q, home)),
        None => None,
    }
}

/// Every path with `~` expanded against `home`.
pub open spec fn spec_expand_paths(p: PathsView, home: Option<Seq<char>>) -> PathsView {
    PathsView {
        wallpaper_dir: spec_expand_tilde(p.wallpaper_dir, home),
        config_dir: spec_expand_opt(p.config_dir, home),
        style_dir: spec_expand_opt(p.style_dir, home),
        style_path: spec_expand_opt(p.style_path, home),
        config_path: spec_expand_opt(p.config_path, home),
        wallust_colors_json: spec_expand_opt(p.wallust_colors_json, home),
    }
}

/// `p` where it has an optional path, `d` where it has none.
pub open spec fn spec_or(p: Option<Seq<char>>, d: Option<Seq<char>>) -> Option<Seq<char>> {
    if p is Some {
        p
    } else {
        d
    }
}

/// The optional paths that `p` lacks, taken from `d`.
pub open spec fn spec_fill_paths(p: PathsView, d: PathsView) -> PathsView {
    PathsView {
        wallpaper_dir: p.wallpaper_dir,
        config_dir: spec_or(p.config_dir, d.config_dir),
        style_dir: spec_or(p.style_dir, d.style_dir),
        style_path: spec_or(p.style_path, d.style_path),
        config_path: spec_or(p.config_path, d.config_path),
        wallust_colors_json: spec_or(p.wallust_colors_json, d.wallust_colors_json),
    }
}

/// All five optional paths are present.
pub open spec fn all_paths_present(p: PathsView) -> bool {
    &&& p.config_dir is Some
    &&& p.style_dir is Some
    &&& p.style_path is Some
    &&& p.config_path is Some
    &&& p.wallust_colors_json is Some
}

/// The parent directory of `p`, as a list of at most one directory.
pub open spec fn spec_parent_list(p: Seq<char>) -> Seq<Seq<char>> {
    match path_parent_of(p) {
        Some(q) => seq![q],
        None => seq![],
    }
}

/// The directories that must exist for the given paths, in the order they
/// are created: the configuration directory; the style directory, or its
/// parent when it names a `.css` file; the parent of the style path. Each
/// path is expanded against `home` first.
pub open spec fn spec_dirs_to_create(p: PathsView, home: Option<Seq<char>>) -> Seq<Seq<char>> {
    let from_config = match p.config_dir {
        Some(d) => seq![spec_expand_tilde(d, home)],
        None => seq![],
    };
    let from_style_dir = match p.style_dir {
        Some(d) => {
            let e = spec_expand_tilde(d, home);
            if path_extension_of(e) != Some("css"@) {
                seq![e]
            } else {
                spec_parent_list(e)
            }
        },
        None => seq![],
    };
    let from_style_path = match p.style_path {
        Some(s) => spec_parent_list(spec_expand_tilde(s, home)),
        None => seq![],
    };
    from_config + from_style_dir + from_style_path
}

/// The stylesheet for these paths, `~` being expanded against `home`:
/// `style_path` if set; otherwise, with `style_dir` set, that directory
/// itself when `dir_is_file` (whether the expanded directory is a regular
/// file) and `style.css` inside it when not; nothing without either.
pub open spec fn spec_style_path(p: PathsView, home: Option<Seq<char>>, dir_is_file: bool) -> Option<Seq<char>> {
    match p.style_path {
        Some(s) => Some(spec_expand_tilde(s, home)),
        None => match p.style_dir {
            Some(d) => {
                let c = spec_expand_tilde(d, home);
                Some(
                    if dir_is_file {
                        c
                    } else {
                        spec_path_join(c, "style.css"@)
                    },
                )
            },
            None => None,
        },
    }
}

/// The configuration file for these paths, `~` being expanded against
/// `home`: `config_path` if set; otherwise `config.json` under
/// `<base>/wallmint`, where the base is `config_dir`, else the user's
/// configuration directory `found`, else `.`.
pub open spec fn spec_config_path(p: PathsView, found: Option<Seq<char>>, home: Option<Seq<char>>) -> Seq<char> {
    match p.config_path {
        Some(c) => spec_expand_tilde(c, home),
        None => {
            let base = match p.config_dir {
                Some(d) => d,
                None => match found {
                    Some(f) => f,
                    None => seq!['.'],
                },
            };
            spec_expand_tilde(
                spec_path_join(spec_path_join(base, "wallmint"@), "config.json"@),
                home,
            )
        },
    }
}

fn expand_opt(p: &Option<String>, home: &Option<String>) -> (r: Option<String>)
    ensures
        opt_view(r) == spec_expand_opt(opt_view(*p), opt_view(*home)),
{
    match p {
        Some(q) => Some(expand_tilde_with(q, home)),
        None => None,
    }
}

fn or_default(p: Option<String>, d: Option<String>) -> (r: Option<String>)
    ensures
        opt_view(r) == spec_or(opt_view(p), opt_view(d)),
{
    if p.is_some() {
        p
    } else {
        d
    }
}

impl PathsConfig {
    /// The configuration file, given the user's configuration directory
    /// `found` (consulted only when neither `config_path` nor `config_dir` is
    /// set) and the home directory.
    pub fn resolved_config_path_from(&self, found: Option<String>, home: &Option<String>) -> (r: String)
        ensures
            r@ == spec_config_path(self@, opt_view(found), opt_view(*home)),
    {
        if let Some(p) = &self.config_path {
            return expand_tilde_with(p, home);
        }
        let base = match &self.config_dir {
            Some(d) => d.clone(),
            None => text_or_dot(&found),
        };
        let app_dir = path_join(&base, "wallmint");
        let file = path_join(&app_dir, "config.json");
        expand_tilde_with(&file, home)
    }

    /// The configuration file: `config_path` if set, otherwise
    /// `config.json` under `<config_dir>/wallmint`, where a missing
    /// `config_dir` is the user's configuration directory (or `.`); `~` is
    /// expanded.
    pub fn resolved_config_path(&self) -> (r: String)
        ensures
            exists|found: Option<Seq<char>>, home: Option<Seq<char>>|
                valid_home(home) && r@ == #[trigger] spec_config_path(self@, found, home),
    {
        let found = if self.config_path.is_none() && self.config_dir.is_none() {
            user_config_dir()
        } else {
            None
        };
        let home = crate::paths::home_dir();
        let ghost fv = opt_view(found);
        let r = self.resolved_config_path_from(found, &home);
        assert(valid_home(opt_view(home)) && r@ == spec_config_path(self@, fv, opt_view(home)));
        r
    }

    /// The stylesheet, given the home directory and whether the expanded
    /// style directory is a regular file (consulted only when `style_path`
    /// is unset and `style_dir` is set).
    pub fn resolved_style_path_with(&self, home: &Option<String>, dir_is_file: bool) -> (r: Option<String>)
        ensures
            opt_view(r) == spec_style_path(self@, opt_view(*home), dir_is_file),
    {
        if let Some(p) = &self.style_path {
            return Some(expand_tilde_with(p, home));
        }
        if let Some(dir) = &self.style_dir {
            let candidate = expand_tilde_with(dir, home);
            if dir_is_file {
                return Some(candidate);
            }
            return Some(path_join(&candidate, "style.css"));
        }
        None
    }

    /// The stylesheet: `style_path` if set; otherwise, with `style_dir` set,
    /// that directory itself when it is a regular file and `style.css`
    /// inside it when not; `~` is expanded. Nothing without either.
    pub fn resolved_style_path(&self) -> (r: Option<String>)
        ensures
            exists|home: Option<Seq<char>>, dir_is_file: bool|
                valid_home(home) && opt_view(r) == #[trigger] spec_style_path(self@, home, dir_is_file),
            r is None <==> (self@.style_path is None && self@.style_dir is None),
    {
        let home = crate::paths::home_dir();
        let dir_is_file = match (&self.style_path, &self.style_dir) {
            (None, Some(dir)) => {
                let candidate = expand_tilde_with(dir, &home);
                path_is_file(&candidate)
            },
            _ => false,
        };
        let r = self.resolved_style_path_with(&home, dir_is_file);
        assert(valid_home(opt_view(home)) && opt_view(r) == spec_style_path(self@, opt_view(home), dir_is_file));
        r
    }

    /// The wallpaper directory with `~` expanded.
    pub fn resolved_wallpaper_dir(&self) -> (r: String)
        ensures
            is_expansion_of(r@, self.wallpaper_dir@),
    {
        expand_tilde(&self.wallpaper_dir)
    }

    /// The wallust colour file with `~` expanded, if one is set.
    pub fn resolved_wallust_colors(&self) -> (r: Option<String>)
        ensures
            match self@.wallust_colors_json {
                Some(p) => r matches Some(q) && is_expansion_of(q@, p),
                None => r is None,
            },
    {
        match &self.wallust_colors_json {
            Some(p) => Some(expand_tilde(p)),
            None => None,
        }
    }

    /// The directories to create, `~` being expanded against `home`.
    pub fn dirs_to_create_with(&self, home: &Option<String>) -> (r: Vec<String>)
        ensures
            r.deep_view() == spec_dirs_to_create(self@, opt_view(*home)),
    {
        let mut out: Vec<String> = Vec::new();
        if let Some(dir) = &self.config_dir {
            out.push(expand_tilde_with(dir, home));
        }
        let ghost after_config = out.deep_view();
        if let Some(dir) = &self.style_dir {
            let p = expand_tilde_with(dir, home);
            let ext = path_extension(&p);
            let is_css = match &ext {
                Some(e) => {
                    proof {
                        reveal_strlit("css");
                    }
                    same_text(e.as_str(), "css")
                },
                None => false,
            };
            if !is_css {
                out.push(p);
            } else {
                if let Some(parent) = path_parent(&p) {
                    out.push(parent);
                }
            }
        }
        let ghost after_style_dir = out.deep_view();
        if let Some(sp) = &self.style_path {
            let e = expand_tilde_with(sp, home);
            if let Some(parent) = path_parent(&e) {
                out.push(parent);
            }
        }
        assert(out.deep_view() =~= spec_dirs_to_create(self@, opt_view(*home)));
        out
    }

    /// The directories that must exist before the configuration is written.
    pub fn dirs_to_create(&self) -> (r: Vec<String>)
        ensures
            exists|home: Option<Seq<char>>|
                valid_home(home) && r.deep_view() == #[trigger] spec_dirs_to_create(self@, home),
    {
        let home = crate::paths::home_dir();
        self.dirs_to_create_with(&home)
    }

    /// Every path with `~` expanded against `home`.
    pub fn expanded_with(self, home: &Option<String>) -> (r: PathsConfig)
        ensures
            r@ == spec_expand_paths(self@, opt_view(*home)),
    {
        PathsConfig {
            wallpaper_dir: expand_tilde_with(&self.wallpaper_dir, home),
            config_dir: expand_opt(&self.config_dir, home),
            style_dir: expand_opt(&self.style_dir, home),
            style_path: expand_opt(&self.style_path, home),
            config_path: expand_opt(&self.config_path, home),
            wallust_colors_json: expand_opt(&self.wallust_colors_json, home),
        }
    }

    /// The optional paths this configuration lacks, taken from `defaults`.
    pub fn filled_from(self, defaults: PathsConfig) -> (r: PathsConfig)
        ensures
            r@ == spec_fill_paths(self@, defaults@),
    {
        PathsConfig {
            wallpaper_dir: self.wallpaper_dir,
            config_dir: or_default(self.config_dir, defaults.config_dir),
            style_dir: or_default(self.style_dir, defaults.style_dir),
            style_path: or_default(self.style_path, defaults.style_path),
            config_path: or_default(self.config_path, defaults.config_path),
            wallust_colors_json: or_default(self.wallust_colors_json, defaults.wallust_colors_json),
        }
    }
}

impl AppConfig {
    /// Fills every optional path that is missing from `defaults` (the
    /// default configuration); everything else is kept.
    pub fn with_filled_paths(self, defaults: AppConfig) -> (r: Self)
        ensures
            r.ui == self.ui,
            r.hyprpaper == self.hyprpaper,
            r.wallust == self.wallust,
            r.paths@ == spec_fill_paths(self.paths@, defaults.paths@),
            all_paths_present(defaults.paths@) ==> all_paths_present(r.paths@),
    {
        AppConfig {
            paths: self.paths.filled_from(defaults.paths),
            ui: self.ui,
            hyprpaper: self.hyprpaper,
            wallust: self.wallust,
        }
    }

    /// Expands `~` in every path against the user's home directory;
    /// everything else is kept.
    pub fn expanded(self) -> (r: Self)
        ensures
            r.ui == self.ui,
            r.hyprpaper == self.hyprpaper,
            r.wallust == self.wallust,
            exists|home: Option<Seq<char>>|
                valid_home(home) && r.paths@ == #[trigger] spec_expand_paths(self.paths@, home),
    {
        let home = crate::paths::home_dir();
        let r = AppConfig {
            paths: self.paths.expanded_with(&home),
            ui: self.ui,
            hyprpaper: self.hyprpaper,
            wallust: self.wallust,
        };
        assert(valid_home(opt_view(home)));
        r
    }
}

impl AppConfig {
    /// A configuration as read from its file, made ready for use: missing
    /// paths are taken from `defaults`, then `~` is expanded everywhere.
    pub fn completed(self, defaults: AppConfig) -> (r: Self)
        ensures
            r.ui == self.ui,
            r.hyprpaper == self.hyprpaper,
            r.wallust == self.wallust,
            exists|home: Option<Seq<char>>|
                valid_home(home) && r.paths@ == #[trigger] spec_expand_paths(
                    spec_fill_paths(self.paths@, defaults.paths@),
                    home,
                ),
            all_paths_present(defaults.paths@) ==> all_paths_present(r.paths@),
    {
        let filled = self.with_filled_paths(defaults);
        let ghost fp = filled.paths@;
        let r = filled.expanded();
        proof {
            let home = choose|home: Option<Seq<char>>|
                valid_home(home) && r.paths@ == #[trigger] spec_expand_paths(fp, home);
            lemma_expand_keeps_presence(fp, home);
        }
        r
    }
}

/// Why the configuration could not be loaded or saved.
#[derive(Debug)]
pub enum ConfigError {
    /// The file at `path` could not be read or written.
    Io { path: String, source: std::io::Error },
    /// The file at `path` is not a configuration, or the configuration
    /// could not be written as JSON.
    Json { path: String, source: serde_json::Error },
}

impl ConfigError {
    /// The error as a message: what went wrong, with the file's path.
    pub fn message(&self) -> (r: String)
        ensures
            match self {
                ConfigError::Io { path, .. } => exists|t: Seq<char>|
                    r@ == "I/O error at "@ + path@ + ": "@ + t,
                ConfigError::Json { path, .. } => exists|t: Seq<char>|
                    r@ == "JSON error in "@ + path@ + ": "@ + t,
            },
    {
        match self {
            ConfigError::Io { path, source } => {
                let t = io_error_text(source);
                let mut r = String::from_str("I/O error at ");
                r.append(path.as_str());
                r.append(": ");
                r.append(t.as_str());
                r
            },
            ConfigError::Json { path, source } => {
                let t = json_error_text(source);
                let mut r = String::from_str("JSON error in ");
                r.append(path.as_str());
                r.append(": ");
                r.append(t.as_str());
                r
            },
        }
    }
}

/// Filling is settled after one pass: the result has every optional path,
/// and filling it again, from any defaults, changes nothing; paths that
/// were set are kept.
pub proof fn lemma_fill_settles(p: PathsView, d: PathsView, d2: PathsView)
    requires
        all_paths_present(d),
    ensures
        all_paths_present(spec_fill_paths(p, d)),
        spec_fill_paths(spec_fill_paths(p, d), d2) == spec_fill_paths(p, d),
        p.config_dir is Some ==> spec_fill_paths(p, d).config_dir == p.config_dir,
        p.style_dir is Some ==> spec_fill_paths(p, d).style_dir == p.style_dir,
        p.style_path is Some ==> spec_fill_paths(p, d).style_path == p.style_path,
        p.config_path is Some ==> spec_fill_paths(p, d).config_path == p.config_path,
        p.wallust_colors_json is Some ==> spec_fill_paths(p, d).wallust_colors_json
            == p.wallust_colors_json,
{
}

/// Filling takes each missing optional path from the same field of the
/// defaults and keeps every path that is set, the wallpaper folder included.
pub proof fn lemma_fill_field_by_field(p: PathsView, d: PathsView)
    ensures
        ({
            let r = spec_fill_paths(p, d);
            &&& r.wallpaper_dir == p.wallpaper_dir
            &&& r.config_dir == if p.config_dir is Some { p.config_dir } else { d.config_dir }
            &&& r.style_dir == if p.style_dir is Some { p.style_dir } else { d.style_dir }
            &&& r.style_path == if p.style_path is Some { p.style_path } else { d.style_path }
            &&& r.config_path == if p.config_path is Some { p.config_path } else { d.config_path }
            &&& r.wallust_colors_json == if p.wallust_colors_json is Some {
                p.wallust_colors_json
            } else {
                d.wallust_colors_json
            }
        }),
{
}

/// `~` expansion of a configuration works field by field: every path,
/// present or not, is its own field expanded against the same home, and
/// absent paths stay absent.
pub proof fn lemma_expand_field_by_field(p: PathsView, home: Option<Seq<char>>)
    ensures
        ({
            let r = spec_expand_paths(p, home);
            &&& r.wallpaper_dir == spec_expand_tilde(p.wallpaper_dir, home)
            &&& (p.config_dir matches Some(x) ==> r.config_dir == Some(spec_expand_tilde(x, home)))
            &&& (p.style_dir matches Some(x) ==> r.style_dir == Some(spec_expand_tilde(x, home)))
            &&& (p.style_path matches Some(x) ==> r.style_path == Some(spec_expand_tilde(x, home)))
            &&& (p.config_path matches Some(x) ==> r.config_path == Some(spec_expand_tilde(x, home)))
            &&& (p.wallust_colors_json matches Some(x) ==> r.wallust_colors_json == Some(
                spec_expand_tilde(x, home),
            ))
            &&& (p.config_dir is None ==> r.config_dir is None)
            &&& (p.style_dir is None ==> r.style_dir is None)
            &&& (p.style_path is None ==> r.style_path is None)
            &&& (p.config_path is None ==> r.config_path is None)
            &&& (p.wallust_colors_json is None ==> r.wallust_colors_json is None)
        }),
{
}

/// Default paths have every optional path.
pub proof fn lemma_default_paths_present(p: PathsView)
    requires
        is_default_paths(p),
    ensures
        all_paths_present(p),
{
}

/// Expansion keeps which optional paths are present.
pub proof fn lemma_expand_keeps_presence(p: PathsView, home: Option<Seq<char>>)
    ensures
        spec_expand_paths(p, home).config_dir is Some <==> p.config_dir is Some,
        spec_expand_paths(p, home).style_dir is Some <==> p.style_dir is Some,
        spec_expand_paths(p, home).style_path is Some <==> p.style_path is Some,
        spec_expand_paths(p, home).config_path is Some <==> p.config_path is Some,
        spec_expand_paths(p, home).wallust_colors_json is Some <==> p.wallust_colors_json is Some,
{
}

/// Expanding the paths a second time changes nothing, for a home directory
/// that does not itself start with `~`.
pub proof fn lemma_expand_paths_idempotent(p: PathsView, home: Option<Seq<char>>)
    requires
        valid_home(home),
        home matches Some(h) ==> h[0] != '~',
    ensures
        spec_expand_paths(spec_expand_paths(p, home), home) == spec_expand_paths(p, home),
{
    lemma_expand_tilde_idempotent(p.wallpaper_dir, home);
    if let Some(x) = p.config_dir {
        lemma_expand_tilde_idempotent(x, home);
    }
    if let Some(x) = p.style_dir {
        lemma_expand_tilde_idempotent(x, home);
    }
    if let Some(x) = p.style_path {
        lemma_expand_tilde_idempotent(x, home);
    }
    if let Some(x) = p.config_path {
        lemma_expand_tilde_idempotent(x, home);
    }
    if let Some(x) = p.wallust_colors_json {
        lemma_expand_tilde_idempotent(x, home);
    }
}

} // verus!
