# remux

The user-administration core of the Remux media server and its dashboard,
written in Verus and verified.

- `src/` is the verified library:
  - `text`: decimal rendering and `str::parse`-exact integer reading,
    white space, trimming, substring search;
  - `time`: UTC instants as seconds and nanoseconds, and the `chrono`
    operations performed on them;
  - `ids`: UUIDs as 128-bit values and their hyphenated text;
  - `labels`: relative times, avatar initials, watch-time durations;
  - `stats`: the user-statistics queries with their arguments, what their
    rows become, and the time windows they are bounded by;
  - `activity`: the activity log, the insert statement and its values, the filtered
    counting and paging queries and how their answers combine;
  - `users`: the users page (search, rows, enable/disable);
  - `user_form`: the create/edit form (initial contents, fields, the
    requests saving sends and how their replies are handled);
  - `dashboard`: the user-detail page and the dashboard's users card;
  - `pages`: the requests the dashboard's pages send and what each answer
    makes of them (the users page's actions and reloads, the loading and
    failure states of the detail page and of the users and activity cards,
    and the activity card's rows).
- `app/` runs the statistics and activity-log statements that the library
  builds against SQLite with `sqlx`, and holds the serde copies of the
  library's records.
- `tests/` exercise the library on concrete values.
