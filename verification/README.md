# koushin

A command-line companion for MyAnimeList: it counts watched episodes, sets
airing days, lays out the watching list by the day each anime airs, and
opens list and anime pages in the browser.

- `src/` is the library, verified with Verus. Its modules:
  `text` (string order, decimal numbers), `weekday` (days and airing-day
  tags), `entry` (list entries, paging, sorting by title), `schedule` (the
  list laid out by airing day), `mal` (texts, addresses and forms of an
  update), `prompt` (the questions of an update as a state machine), `auth`
  (OAuth sign-in and token refresh as a state machine), `config`, `cli`
  (what each command does), `xdg` (file locations), `paint` and `error`
  (colored output and errors).
- `app/` is the program: command-line parsing, terminal prompts, HTTP,
  files and the browser, driving the library's state machines.
- `tests/` exercises the library on concrete values.
