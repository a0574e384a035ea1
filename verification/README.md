# ascm_article

A bridge between a newspaper system, a television manuscript system, a media
asset search service and an article server. It lists articles and
manuscripts, reads them in detail, and posts them, with their writers' scores,
to the article server.

- `src/` is the library, verified with Verus: text and number handling
  (`text`), a JSON value model (`json`), digests and encodings (`codec`),
  clocks and dates (`clock`), regular expressions and HTML selection
  (`pattern`), and in `handler/` the request logic of each endpoint: the
  addresses and bodies it sends, how it reads the replies, and the forwarding
  runs as step functions (`TvSync`, `PaperSync`) from a report to the next
  action.
- `app/` is the HTTP service around it: configuration file, routes, the
  network calls, the two background loops, and the serde copies of the
  library's types.
- `tests/` runs the library on concrete values.
