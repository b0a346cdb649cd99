# fantoccini

A WebDriver client: it drives a browser through the
[W3C WebDriver protocol](https://www.w3.org/TR/webdriver/), and falls back to the legacy JSON
wire protocol where the driver only speaks that.

## Layout

- `src/` is the protocol core, verified with Verus. It holds the commands and the requests they
  make (`command`, `session`), the decoding of replies and errors (`session`, `client`, `error`),
  element references and script arguments (`elements`), forms and select boxes (`forms`),
  cookies (`cookies`), input actions (`actions`), waits (`wait`), window handles, locators,
  timeouts and print page ranges (`wd`), key codes (`keys`), and the JSON value model (`json`).
  `laws` states what one function writes and another reads back.
- `app/` is the client that users call: it sends the core's requests over HTTP (hyper), turns
  replies into the core's JSON values (serde_json), and gives errors their messages. Printing
  sizes and margins, which are floating-point numbers, are checked there too.
- `tests/` plays browser scenarios against a scripted WebDriver, and checks the core's functions
  on concrete values.
