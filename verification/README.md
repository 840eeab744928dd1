# freya_platform

Verified pieces of a Freya application's shell:

- `src/platform.rs`: the platform an app runs on (from the root context or the target's
  OS name), whether it is a desktop or a mobile one, and the navigation and theme
  preferences with their defaults.
- `src/titlebar.rs`: the titlebar button: its builder, its theme override laid over the
  registered theme, the colors and glyph it draws for each action and hover state, how it
  answers the pointer, and its diff key.
- `src/clipboard.rs`: the browser clipboard: reading the last paste, the script that
  copies text, and the image half that is not available.
- `app/lib.rs`: the edges: the OS name of the build target and the page that runs the
  clipboard scripts.
