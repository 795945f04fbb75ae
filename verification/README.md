# bili_crawler

A crawler for Bilibili posts ("dynamics") and their reply threads, driven
through a Chrome page. The decisions and the parsing are a Verus library
(`src/`); the program around them (`app/`) does the I/O: the browser, the
SQLite runtime store, the MongoDB/PostgreSQL result store, and the command
line.

## Library (`src/`, verified)

- `json`: a JSON document model with the lookup rules of `serde_json`
  (`value[key]`, `get`, `as_str`, `as_u64`, ...), its mathematical value, and
  the reading of JSON text, which `serde_json` does.
- `text`: decimal numbers (`str::parse::<u64>` and `u64` display, with the
  round trip proved) and the request parameters of a post-list page, which
  `serde_json` writes.
- `post_parser`: reads a post of the feed API in the new layout (a list of
  typed modules) and the old one (an object of modules).
- `scripts`: the page scripts with their request parameters filled in.
- `response`: the `code` envelope of the API.
- `fetch_posts`: the walk over a user's post list down to a cut-off time, and
  the fetch of each queued post, as state machines that name the next action.
- `fetch_reply`: which reply threads to crawl, where each starts, and what
  each page of replies leads to.
- `config_type`, `db::runtime_db`: plain data types.

## Program (`app/`)

`app/main.rs` runs the state machines of the library: it performs the action
each one names (run a script, sleep, write to a store) and hands the answer
back.
