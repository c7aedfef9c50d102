# tktkgo_app

Turns a topic or an outline into a video: a script, a storyboard, illustrations, narration and
captions are generated by models behind a gateway, and a render service makes the video of them.

## Layout

- `src/` is the library. It decides: which requests are valid, what each stage asks for and
  accepts, under which keys work is remembered, how a timeline is laid out, in which order a
  workflow goes through its steps and what it writes. Every item of it is verified with Verus but
  those listed under "What is trusted".
  - `domain`, `error`, `config`, `ids`, `hashing`, `text`: data, settings and primitives.
  - `providers`, `render`, `media`, `storage`, `db`: what is sent, what is made of replies, and
    the conditional writes on stored records.
  - `pipeline`: keys, validation, the course of a task, the work of each stage, bounded
    concurrency over scenes, and the timeline.
  - `db::store`: what the writes make of the tables, and what holds of that.
  - `workflow`: the durable workflow as a state machine, its status writes and its laws.
  - `api`: what the public API decides.
  - `logging`: how log events are composed and where they go.
- `app/` is ordinary Rust around the library: HTTP, PostgreSQL, files, processes and the
  workflow engine. It carries its database migrations with it. `tktkgo_app api` serves the public API and the web pages,
  `tktkgo_app workflow` the workflow endpoint.
- `tests/` runs the library on concrete values.

## How the parts meet

A state of the library says what is to be done next. The application does it and hands back what
came of it, and the library says what follows. Rows are written by values that name their
condition; the application carries each out as one statement and reports how many rows it
changed. JSON values are texts in the library, instants are microseconds since the Unix epoch.

## What is trusted

The library calls `uuid` (`parse_str`, `new_v4`), `blake3` (`hash`), `serde_json` (`Map`,
`to_vec`), `chrono` (`to_rfc3339_opts`) and, of the standard library, `String::push` and
`String::from_utf8_lossy`. What it relies on of each stands above the item that makes the call,
and Verus takes it without proof.
