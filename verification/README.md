# spotatui media control

Which source a media key, a Now Playing widget or a keyboard toggle reaches, and
what it does there: local files, Subsonic, YouTube, Qobuz, internet radio, the
native queue, the native Spotify player, or a Spotify device of somebody else's.

- `src/` is the library. Every decision is a verified function from plain values
  to plain values; what it asks of the outside is a list of effects.
- `src/laws/` states what holds of the whole: what a shuffle restores, which
  requests never reach Spotify, what the display shows, how a launch ends.
- `app/` performs the effects, over a `Host` that owns the players, the network
  and the user interface.
- `tests/` runs the library on concrete values.
