# jellyfin_desktop

The core of a desktop client for Jellyfin, verified with Verus.

`src/` holds what the program decides, as functions with contracts:

- `app`: options, the wait for the player's window, the order of start and
  teardown.
- `config`: the settings, their file, and the queue of the thread that saves.
- `playback`: the driver of the player's events.
- `platform_install`, `platform_abi`, `dropdown`: which backend is installed,
  and what the backends share.
- `wayland`: layers and their stacking, buffers, the workers that show frames,
  the menu's popup, the window, the proxy between player and compositor, and
  the title bar's colours.
- `json`, `text`, `bits`: documents, texts and the bit patterns of numbers.

Floating-point numbers are carried as bit patterns. Requests to the outside
come back as lists, in the order in which they are to be sent.

`app/` carries them out: threads, files, the command line and the Wayland
connections. The player, the browser and the other crates of the program are
reached through the traits in `app/ports.rs`.

`tests/` runs the library on concrete values.
