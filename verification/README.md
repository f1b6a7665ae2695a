# wallmint

A GTK4 wallpaper picker for Hyprland. The library under `src/` holds the
logic, verified with Verus:

- `paths`: path joining and `~` expansion on paths held as text;
- `text`: text equality, character order, trimming and ASCII lower-casing;
- `config`: the configuration sections, their defaults, and how configured
  paths are filled in, expanded and resolved;
- `wallust`: wallust's colour scheme and how the configuration locates it;
- `theme`: the window theme picked from a scheme, and the stylesheet choice;
- `carousel`: image selection and navigation, image-file filtering and order;
- `wallpaper`: the protocol that applies a wallpaper through hyprpaper and
  wallust, one command at a time.

`app/` is the program: GTK widgets and key bindings, file and process I/O,
JSON (de)serialisation of the configuration, and the float window opacity.

Notes:

- The environment (`dirs::config_dir`, `cache_dir`, `picture_dir`) and the
  check for `<pictures>/walls` are read in `app/` and handed to
  `AppConfig::from_base_dirs`. `dirs::picture_dir` reads `user-dirs.dirs`,
  and its reader panics on a line whose key is exactly `XDG_DIR` or whose
  value is a lone `"`; that panic can only happen in the program, not in
  the library.
- With `monitor` set to `*`, every monitor hyprctl lists is asked, then
  hyprpaper's fallback; applying succeeds when at least one accepted, and
  the session records which did.
- wallust's colour file must carry `color15` as well as `color0`–`color14`;
  the theme's foreground falls back to it, and a file without it is rejected.
- Paths are held as text; image files are ordered by that text but loaded
  and applied through their own file-system paths.
- The `s` key applies the selected image through the same hyprpaper/wallust
  protocol as everything else, so the configured monitor and the enabled
  flags are honoured.
