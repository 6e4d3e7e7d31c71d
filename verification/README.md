# tao_ohos

The OpenHarmony backend of a windowing library, in two layers.

`src/` is the logic, verified with Verus:

- `ability` and `event`: what the ability framework reports, and what the application is told.
- `input`, `keyboard`: touches, mouse, scrolling and pinching, keys and their repeats, input method.
- `event_loop`, `channel`, `inbox`: the events made of each report, the order they are delivered in,
  focus, and the application's own events.
- `window`, `monitor`, `color`, `geometry`, `handles`: opening windows, what they and the display
  answer, and which calls the platform layer has to make.
- `links`: addresses the application is asked to open.
- `binary64`: double-precision numbers by their bit patterns.
- `ids`: identifiers and errors.

Each function's contract says what it returns and changes. The `law_*` proof functions state what
holds across functions and over whole sessions. Calls into the standard library's channels, `url`
and `raw_window_handle` stand behind declarations that say what is relied on.

`app/` is the platform layer. It talks to the ability framework, keeps the process-wide state, and
carries out what the library answers. `app/ability.rs` alone names the framework; it needs the
framework's native libraries.

`tests/` runs the library.
