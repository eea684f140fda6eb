# ponchik

A chat bot that pairs the members of a channel at random, introduces each
group in a direct message, checks in halfway and at the end, and records how
each meeting went.

- `src/` is the verified library: meeting statuses and their stored text,
  random grouping of members, the introduction and check-in messages, reading
  the chat service's replies and button presses, and the decisions of the web
  handlers and the command line tool.
- `app/` is the program around it: HTTP calls to the chat service, the
  PostgreSQL table, the spreadsheet store, and the web handlers.
- `tests/` exercises the library on concrete values.
