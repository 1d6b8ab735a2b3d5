# ytmtui

A small terminal music player: it searches YouTube and Bilibili through
`yt-dlp`, plays through an `mpv --idle` process, scans local folders, keeps
an unsaved list and a library of saved playlists, and shows captions.

## Layout

- `src/` is the verified library (Verus). It holds the player's state and
  every decision it makes: the key map, what each command does to the
  state and which work it asks for (`Effect`s), what the answers of that
  work change, search scoping, path clean-up, the library order, caption
  language choice and WebVTT parsing, and every word shown on screen
  (`view`). Each public function states its result in its contract.
- `app/` is the program around it: terminal set-up and drawing (ratatui,
  crossterm), the mpv IPC client, the yt-dlp and ffprobe runs, file
  storage (serde), clipboard tools and process statistics. It carries out
  the effects the library returns and feeds the results back.
- `tests/` runs the library on concrete cases.

## Not implemented

Saving the unsaved list under a name (the save prompt of the library
pane) is not implemented: library entries record a playlist's URL, title,
platform and track count but not its tracks, so there is nothing to store
a local list in. Enter in the prompt leaves the unsaved list as it is and
says that it cannot be saved (a blank name cancels, as usual).
