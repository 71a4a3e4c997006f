# rink

The configuration, theming, data-file search and currency-caching logic of
the rink unit calculator's command line, with the helpers around query
evaluation, verified with Verus.

- `src/` — the verified library:
  - `style.rs` — output tokens, themes and the style a theme gives a token;
  - `themes.rs` — the table of named user themes;
  - `config.rs` — the configuration sections, their defaults, theme
    selection and the outcome of reading `config.toml`;
  - `search.rs` — the data-file search path and what a search yields;
  - `fetch.rs` — cache freshness, the steps of fetching a cached file, and
    the download messages;
  - `helpers.rs` — the query text of a line, what a reply leaves for `ans`,
    the bundled data files and the version;
  - `text.rs` — decimal rendering and whitespace trimming.
- `app/` — file, network and environment access, the serde forms of the
  configuration, and the calls into the evaluator.
- `tests/` — tests of the library.
