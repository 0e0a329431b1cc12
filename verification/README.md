# posterbot_constructor

A constructor of suggestion bots for Telegram channels. Clients connect
their own bots through a master bot; each connected bot (a worker) takes
anonymous proposals for its channel, which the channel's owner and
moderators review, publish, reject or answer with a ban.

## Layout

- `src/` — the library, verified with Verus. Every function carries a
  contract over mathematical models (`Seq`, `Map`, views of the data
  types), and the properties that span several functions are stated and
  proved as `law_*` proof functions.
  - `text`, `locales`: character-level text, the bilingual message
    catalogue with fallback and `{name}` placeholders.
  - `models`, `keyboard`: the records and the inline keyboards as values.
  - `commands`, `callbacks`, `links`: reading commands, button data and
    links to channel posts.
  - `memory`, `moderation`, `conversations`: the queue of proposals
    (grouping of albums, reservations that expire, rejections) and the
    questions users are to answer.
  - `proposals`, `admins`, `owner`, `worker_flow`, `master_flow`: what the
    bots decide and show.
  - `hashing`, `ids`, `dates`, `config`, `plans`, `pagination`,
    `registry`, `buttons`.
- `tests/` — tests of the library on concrete values.
- `app/` — the program around the library: Telegram and database I/O,
  the handlers that run the library's decisions, start-up.

The calls into outside crates the library needs (SHA-256, UUIDs, URL
parsing, date formatting, `DashMap`) go through small trusted wrappers
whose doc comments say what is assumed of them.
