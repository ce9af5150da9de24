# two_wee_terminal

A WebSocket bridge that runs a 2Wee TUI session (`two_wee_client` in a PTY)
in the browser, with its decisions verified by Verus.

- `src/` — the verified library:
  - `session.rs`: which server a session talks to (`TWO_WEE_SERVER` lock-in
    first, then `?server=`), the random session id and its private HOME
    directory, the initial terminal size, the client command.
  - `control.rs`: the running session as a state machine (terminal output,
    browser messages, resize requests, the 30-minute inactivity watchdog,
    child exit) with laws such as "the close frame is sent at most once".
  - `pages.rs`: the terminal page, the landing page and the script response.
  - `port.rs`: `TWO_WEE_PORT` parsing (as `u16::from_str`), the default
    port 7681, and the bind address.
- `app/main.rs` — the server itself: axum routes, the PTY, threads and
  timers, feeding events to the library and performing its actions.
- `tests/` — tests of the library on concrete values.
