# rat_pong

A two-player pong game for the terminal. The rules of the game live in a
library whose behaviour is stated in contracts and proved with Verus; a
thin front end draws the game with ratatui and reads keys with crossterm.

## Layout

- `src/input.rs` — which key gives which player action, and the queue of
  pending input events.
- `src/pong.rs` — the game's rule-bound state: paddle columns and reach,
  scores and what a point does, the play field, the plotting marker, the
  bounded ball trail and its split into fading thirds, the spark limit.
- `src/layout.rs` — frame geometry: the smallest playable field, the
  background grid and the net.
- `src/app.rs` — the session: running or stopped, handling input events in
  order, and the 60 frames-per-second tick schedule.
- `app/` — the program: terminal setup, the frame loop, drawing, and the
  floating-point motion of ball and paddles (positions, bounces, walls),
  which calls into the library for every integer rule it meets.
- `tests/` — tests of the library on concrete values.

## Controls

| Key | Action |
|---|---|
| `W` / `S` | Move left paddle up / down |
| `↑` / `↓` | Move right paddle up / down |
| `T` | Toggle ball trail |
| `M` | Toggle marker style (block / dot) |
| `Q` / `Esc` | Quit |
