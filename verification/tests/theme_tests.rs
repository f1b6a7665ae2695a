use wallmint::config::{AppConfig, HyprpaperConfig, PathsConfig, UiConfig, WallustRunConfig};
use wallmint::theme::{base_css, fallback_theme, pick, theme_colors};
use wallmint::wallust::{load_wallust_colors, WallmintColors, WallustError};

fn colors() -> WallmintColors {
    let c = |s: &str| s.to_string();
    WallmintColors {
        background: c("#101010"),
        foreground: c(""),
        color0: c("#000000"),
        color1: c("#010101"),
        color2: c("#020202"),
        color3: c("#030303"),
        color4: c("#040404"),
        color5: c("#050505"),
        color6: c("#060606"),
        color7: c("#070707"),
        color8: c("#080808"),
        color9: c("#090909"),
        color10: c("#0a0a0a"),
        color11: c("#0b0b0b"),
        color12: c(""),
        color13: c(""),
        color14: c("#0e0e0e"),
        color15: c("#0f0f0f"),
    }
}

fn config(wallust_file: Option<&str>) -> AppConfig {
    AppConfig {
        paths: PathsConfig {
            wallpaper_dir: "/w".to_string(),
            config_dir: None,
            style_dir: None,
            style_path: None,
            config_path: None,
            wallust_colors_json: wallust_file.map(|s| s.to_string()),
        },
        ui: UiConfig::default(),
        hyprpaper: HyprpaperConfig::default(),
        wallust: WallustRunConfig::default(),
    }
}

#[test]
fn pick_first_nonempty() {
    assert_eq!(pick("a", "b", "c"), "a");
    assert_eq!(pick("", "b", "c"), "b");
    assert_eq!(pick("", "", "c"), "c");
}

#[test]
fn fallback_colours() {
    let t = fallback_theme();
    assert_eq!(t.background, "#0f111a");
    assert_eq!(t.foreground, "#e6e6e6");
    assert_eq!(t.accent, "#7aa2f7");
    assert_eq!(t.secondary, "#a6e3a1");
}

#[test]
fn theme_from_scheme() {
    let t = theme_colors(Some(&colors()));
    assert_eq!(t.background, "#101010");
    assert_eq!(t.foreground, "#0f0f0f");
    assert_eq!(t.accent, "#050505");
    assert_eq!(t.secondary, "#040404");
}

#[test]
fn theme_from_empty_scheme_is_never_empty() {
    let mut c = colors();
    c.background = String::new();
    c.color0 = String::new();
    c.color15 = String::new();
    c.color5 = String::new();
    c.color4 = String::new();
    let t = theme_colors(Some(&c));
    assert_eq!(t.background, "#0f111a");
    assert_eq!(t.foreground, "#e6e6e6");
    assert_eq!(t.accent, "#7aa2f7");
    assert_eq!(t.secondary, "#a6e3a1");
}

#[test]
fn theme_without_scheme() {
    assert_eq!(theme_colors(None).background, "#0f111a");
}

#[test]
fn missing_colour_file_is_reported() {
    let r = load_wallust_colors(&config(None), |_p: &String| -> Result<WallmintColors, WallustError> {
        panic!("nothing should be read")
    });
    assert!(matches!(r, Err(WallustError::MissingPath)));
}

#[test]
fn colour_file_is_read_from_configured_path() {
    let r = load_wallust_colors(&config(Some("/k/colors.json")), |p: &String| {
        assert_eq!(p, "/k/colors.json");
        Ok(colors())
    });
    assert_eq!(r.unwrap().color14, "#0e0e0e");
}

#[test]
fn user_stylesheet_unless_blank() {
    assert_eq!(base_css(Some("a { }".to_string()), "bundled"), "a { }");
    assert_eq!(base_css(Some(" \n\t ".to_string()), "bundled"), "bundled");
    assert_eq!(base_css(None, "bundled"), "bundled");
}

#[test]
fn error_messages() {
    assert_eq!(WallustError::MissingPath.message(), "No wallust_colors_json path set in config");
    let io = WallustError::Io {
        path: "/k/colors.json".to_string(),
        source: std::io::Error::new(std::io::ErrorKind::NotFound, "gone"),
    };
    assert_eq!(io.message(), "I/O error at /k/colors.json: gone");
    let bad = serde_json::from_str::<serde_json::Value>("{").unwrap_err();
    let json = WallustError::Json { path: "/k/colors.json".to_string(), source: bad };
    assert!(json.message().starts_with("JSON error in /k/colors.json: "));
}
