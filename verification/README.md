# booru_browser

A terminal browser for Danbooru search results. The library (`src/`) holds
its state and rules, verified with Verus; the program around it (`app/`)
does the terminal, network and browser work.

- `src/text.rs`: characters, white space, words, trimming, decimal
  notation and padding, each with a specification over `Seq<char>`.
- `src/api.rs`: the `Post` record, post and search addresses (the query
  is percent-encoded by `urlencoding`), and the short tag line.
- `src/app.rs`: the `App` state, its value model `AppView`, and the
  actions on it. Actions that need outside work return it (`Command`, or
  an address); the program performs it and hands the outcome back
  (`finish_search`, `finish_open`).
- `src/input.rs`: key presses and what each does in each mode.
- `src/ui.rs`: the texts the screen shows, and the centred help box
  (laid out by ratatui).
- `src/laws.rs`: properties that span several actions.
- `app/`: `main`, the event loop, HTTP fetching and JSON decoding,
  terminal set-up and drawing.
