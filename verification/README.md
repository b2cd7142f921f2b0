# reachy_mini_tray

The logic of a menu-bar launcher that runs the Reachy Mini Python daemon as a background service,
written in Verus.

- `src/` is the library. Every function states what it returns and what it changes, and Verus
  proves it. What relates several functions is stated in proof functions named `law_*`.
  - `state`: the shared state, the connection mode and the daemon's lifecycle states
  - `daemon`: command line, launch, output, readiness probe, kill and sweep plans
  - `router`: what a click, an exit request or a launch of the program leads to
  - `hf_auth`: the cached account, the sign-in flow and the status poller
  - `api`: addresses, requests and the judging of replies
  - `usb`: detection, listing and selection of robots
  - `tray_menu`, `tray_icon`: icon, tooltip, menu and status badge
  - `logs`: the ring buffer of the log viewer and the reading of log lines
  - `commands`: the two windows and what they ask for
  - `paths`: the data directory and the detection of the first run
  - `text`: searching, trimming, ordering and number parsing on characters
- `app/` is ordinary Rust around it: Tauri, processes, HTTP, serial ports and files.
- `tests/` run the library.

The library takes the platform, the clock and the replies of the daemon as plain values, and hands
back plain values that say what to do next. Four calls go to code that Verus does not read:
`reqwest::StatusCode` (`is_success` and its display), `log::Level::as_str` and
`String::from_utf8_lossy`; each stands in one function whose contract says what is relied on.
