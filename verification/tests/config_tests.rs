use wallmint::config::{
    AppConfig, ConfigError, HyprpaperConfig, PathsConfig, PreviewConfig, UiConfig, WallustRunConfig,
    WindowConfig,
};

fn s(x: &str) -> String {
    x.to_string()
}

fn bare_paths(dir: &str) -> PathsConfig {
    PathsConfig {
        wallpaper_dir: s(dir),
        config_dir: None,
        style_dir: None,
        style_path: None,
        config_path: None,
        wallust_colors_json: None,
    }
}

fn config_with(paths: PathsConfig) -> AppConfig {
    AppConfig {
        paths,
        ui: UiConfig::default(),
        hyprpaper: HyprpaperConfig::default(),
        wallust: WallustRunConfig::default(),
    }
}

#[test]
fn section_defaults() {
    let w = WindowConfig::default();
    assert_eq!((w.height, w.width, w.resizable), (720, 1100, true));
    let p = PreviewConfig::default();
    assert_eq!(p.aspect_ratio, "16:9");
    assert_eq!(p.content_fit, "cover");
    assert!(p.vexpand && p.hexpand);
    let u = UiConfig::default();
    assert_eq!(u.title, "Wallmint");
    let h = HyprpaperConfig::default();
    assert!(h.enabled && h.preload);
    assert_eq!(h.hyprctl_bin, "hyprctl");
    assert_eq!(h.monitor, "*");
    let wl = WallustRunConfig::default();
    assert!(wl.enabled);
    assert_eq!(wl.bin, "wallust");
}

#[test]
fn default_paths_from_environment() {
    let c = AppConfig::from_base_dirs(
        Some(s("/home/a/.config")),
        Some(s("/home/a/.cache")),
        Some(s("/home/a/Pictures")),
        true,
    );
    let p = &c.paths;
    assert_eq!(p.wallpaper_dir, "/home/a/Pictures/walls");
    assert_eq!(p.config_dir.as_deref(), Some("/home/a/.config/wallmint"));
    assert_eq!(p.style_dir.as_deref(), Some("/home/a/.config/wallmint"));
    assert_eq!(p.style_path.as_deref(), Some("/home/a/.config/wallmint/style.css"));
    assert_eq!(p.config_path.as_deref(), Some("/home/a/.config/wallmint/config.json"));
    assert_eq!(p.wallust_colors_json.as_deref(), Some("/home/a/.cache/wallust/colors.json"));
}

#[test]
fn default_paths_without_walls_or_environment() {
    let c = AppConfig::from_base_dirs(None, None, None, false);
    let p = &c.paths;
    assert_eq!(p.wallpaper_dir, "./Wallpapers");
    assert_eq!(p.config_dir.as_deref(), Some("./wallmint"));
    assert_eq!(p.wallust_colors_json.as_deref(), Some("./.cache/wallust/colors.json"));
}

#[test]
fn walls_candidate_in_pictures() {
    assert_eq!(AppConfig::walls_candidate(&Some(s("/home/a/Pictures"))), "/home/a/Pictures/walls");
    assert_eq!(AppConfig::walls_candidate(&None), "./walls");
}

#[test]
fn default_config_has_every_path() {
    let c = AppConfig::from_base_dirs(None, Some(s("/k")), Some(s("/p")), false);
    assert!(c.paths.config_dir.is_some());
    assert!(c.paths.style_dir.is_some());
    assert!(c.paths.style_path.is_some());
    assert!(c.paths.config_path.is_some());
    assert!(c.paths.wallust_colors_json.is_some());
    assert_eq!(c.ui.title, "Wallmint");
}

#[test]
fn filling_keeps_set_paths_and_fills_the_rest() {
    let mut paths = bare_paths("/w");
    paths.style_path = Some(s("/mine/style.css"));
    let defaults = AppConfig::from_base_dirs(Some(s("/c")), Some(s("/k")), Some(s("/p")), true);
    let filled = paths.filled_from(defaults.paths.clone());
    assert_eq!(filled.wallpaper_dir, "/w");
    assert_eq!(filled.style_path.as_deref(), Some("/mine/style.css"));
    assert_eq!(filled.config_dir.as_deref(), Some("/c/wallmint"));
    assert_eq!(filled.config_path.as_deref(), Some("/c/wallmint/config.json"));
    assert_eq!(filled.wallust_colors_json.as_deref(), Some("/k/wallust/colors.json"));
}

#[test]
fn filling_twice_changes_nothing() {
    let defaults = AppConfig::from_base_dirs(Some(s("/c")), Some(s("/k")), Some(s("/p")), true);
    let other = AppConfig::from_base_dirs(Some(s("/x")), Some(s("/y")), Some(s("/z")), false);
    let once = bare_paths("/w").filled_from(defaults.paths.clone());
    let twice = once.clone().filled_from(other.paths.clone());
    assert_eq!(format!("{once:?}"), format!("{twice:?}"));
}

#[test]
fn with_filled_paths_leaves_no_gap() {
    let mut paths = bare_paths("/w");
    paths.config_path = Some(s("/mine/config.json"));
    let defaults = AppConfig::from_base_dirs(Some(s("/c")), None, None, true);
    let c = config_with(paths).with_filled_paths(defaults);
    assert_eq!(c.paths.config_path.as_deref(), Some("/mine/config.json"));
    assert!(c.paths.config_dir.is_some());
    assert!(c.paths.style_dir.is_some());
    assert!(c.paths.style_path.is_some());
    assert!(c.paths.wallust_colors_json.is_some());
    assert_eq!(c.paths.wallpaper_dir, "/w");
}

#[test]
fn expanded_with_home_expands_every_path() {
    let paths = PathsConfig {
        wallpaper_dir: s("~/Pictures/walls"),
        config_dir: Some(s("~/.config/wallmint")),
        style_dir: None,
        style_path: Some(s("/etc/style.css")),
        config_path: Some(s("~")),
        wallust_colors_json: Some(s("~/.cache/wallust/colors.json")),
    };
    let e = paths.expanded_with(&Some(s("/home/a")));
    assert_eq!(e.wallpaper_dir, "/home/a/Pictures/walls");
    assert_eq!(e.config_dir.as_deref(), Some("/home/a/.config/wallmint"));
    assert_eq!(e.style_dir, None);
    assert_eq!(e.style_path.as_deref(), Some("/etc/style.css"));
    assert_eq!(e.config_path.as_deref(), Some("/home/a"));
    assert_eq!(e.wallust_colors_json.as_deref(), Some("/home/a/.cache/wallust/colors.json"));
}

#[test]
fn expanded_keeps_absolute_paths_and_other_sections() {
    let mut paths = bare_paths("/w");
    paths.style_dir = Some(s("/styles"));
    let mut c = config_with(paths);
    c.ui.title = s("Mine");
    let e = c.expanded();
    assert_eq!(e.paths.wallpaper_dir, "/w");
    assert_eq!(e.paths.style_dir.as_deref(), Some("/styles"));
    assert_eq!(e.paths.config_dir, None);
    assert_eq!(e.ui.title, "Mine");
}

#[test]
fn config_path_explicit() {
    let mut p = bare_paths("/w");
    p.config_path = Some(s("/etc/wallmint.json"));
    assert_eq!(p.resolved_config_path(), "/etc/wallmint.json");
}

#[test]
fn config_path_from_config_dir() {
    let mut p = bare_paths("/w");
    p.config_dir = Some(s("/cfg"));
    assert_eq!(p.resolved_config_path(), "/cfg/wallmint/config.json");
}

#[test]
fn style_path_explicit_wins() {
    let mut p = bare_paths("/w");
    p.style_path = Some(s("/a/style.css"));
    p.style_dir = Some(s("/b"));
    assert_eq!(p.resolved_style_path().as_deref(), Some("/a/style.css"));
}

#[test]
fn style_path_inside_style_dir() {
    let mut p = bare_paths("/w");
    p.style_dir = Some(s("/nonexistent-wallmint-dir"));
    assert_eq!(p.resolved_style_path().as_deref(), Some("/nonexistent-wallmint-dir/style.css"));
}

#[test]
fn style_dir_that_is_a_file() {
    // The kernel's status file for this process is always a regular file.
    let mut p = bare_paths("/w");
    p.style_dir = Some(s("/proc/self/status"));
    assert_eq!(p.resolved_style_path().as_deref(), Some("/proc/self/status"));
}

#[test]
fn no_style_without_either() {
    assert_eq!(bare_paths("/w").resolved_style_path(), None);
}

#[test]
fn wallpaper_dir_and_wallust_file_resolved() {
    let mut p = bare_paths("/pics");
    assert_eq!(p.resolved_wallpaper_dir(), "/pics");
    assert_eq!(p.resolved_wallust_colors(), None);
    p.wallust_colors_json = Some(s("/k/colors.json"));
    assert_eq!(p.resolved_wallust_colors().as_deref(), Some("/k/colors.json"));
}

#[test]
fn directories_to_create() {
    let p = PathsConfig {
        wallpaper_dir: s("/w"),
        config_dir: Some(s("~/.config/wallmint")),
        style_dir: Some(s("/styles/theme.css")),
        style_path: Some(s("/s/style.css")),
        config_path: None,
        wallust_colors_json: None,
    };
    let dirs = p.dirs_to_create_with(&Some(s("/home/a")));
    assert_eq!(dirs, vec![s("/home/a/.config/wallmint"), s("/styles"), s("/s")]);
}

#[test]
fn style_dir_that_is_not_css_is_created_itself() {
    let mut p = bare_paths("/w");
    p.style_dir = Some(s("/styles/dir"));
    assert_eq!(p.dirs_to_create_with(&None), vec![s("/styles/dir")]);
    p.style_dir = Some(s("/styles/THEME.CSS"));
    assert_eq!(p.dirs_to_create_with(&None), vec![s("/styles/THEME.CSS")]);
}

#[test]
fn nothing_to_create_without_paths() {
    assert!(bare_paths("/w").dirs_to_create().is_empty());
}

#[test]
fn config_path_from_user_directory() {
    let p = bare_paths("/w");
    assert_eq!(p.resolved_config_path_from(Some(s("/home/a/.config")), &None), "/home/a/.config/wallmint/config.json");
    assert_eq!(p.resolved_config_path_from(None, &None), "./wallmint/config.json");
    assert_eq!(p.resolved_config_path_from(Some(s("~/cfg")), &Some(s("/home/a"))), "/home/a/cfg/wallmint/config.json");
}

#[test]
fn config_path_from_ignores_user_directory_when_set() {
    let mut p = bare_paths("/w");
    p.config_dir = Some(s("/mine"));
    assert_eq!(p.resolved_config_path_from(Some(s("/other")), &None), "/mine/wallmint/config.json");
    p.config_path = Some(s("~/c.json"));
    assert_eq!(p.resolved_config_path_from(Some(s("/other")), &Some(s("/home/a"))), "/home/a/c.json");
}

#[test]
fn style_path_with_file_flag() {
    let mut p = bare_paths("/w");
    p.style_dir = Some(s("~/styles"));
    let h = Some(s("/home/a"));
    assert_eq!(p.resolved_style_path_with(&h, true).as_deref(), Some("/home/a/styles"));
    assert_eq!(p.resolved_style_path_with(&h, false).as_deref(), Some("/home/a/styles/style.css"));
    p.style_path = Some(s("~/x.css"));
    assert_eq!(p.resolved_style_path_with(&h, true).as_deref(), Some("/home/a/x.css"));
    assert_eq!(bare_paths("/w").resolved_style_path_with(&h, true), None);
}

#[test]
fn completed_fills_then_expands() {
    let mut paths = bare_paths("/w");
    paths.style_path = Some(s("/mine/style.css"));
    let defaults = AppConfig::from_base_dirs(Some(s("/c")), Some(s("/k")), None, true);
    let c = config_with(paths).completed(defaults);
    assert_eq!(c.paths.config_dir.as_deref(), Some("/c/wallmint"));
    assert_eq!(c.paths.style_path.as_deref(), Some("/mine/style.css"));
    assert!(c.paths.config_dir.is_some());
    assert!(c.paths.config_path.is_some());
    assert!(c.paths.wallust_colors_json.is_some());
    assert!(c.paths.style_dir.is_some());
}

#[test]
fn config_error_messages() {
    let io = ConfigError::Io {
        path: s("/c/config.json"),
        source: std::io::Error::new(std::io::ErrorKind::PermissionDenied, "denied"),
    };
    assert_eq!(io.message(), "I/O error at /c/config.json: denied");
    let bad = serde_json::from_str::<serde_json::Value>("[").unwrap_err();
    let json = ConfigError::Json { path: s("/c/config.json"), source: bad };
    assert!(json.message().starts_with("JSON error in /c/config.json: "));
}
