# server

The verified core of a small subscription web service and its frontend helper.

- `src/` is the library, verified with Verus: where the settings are read from and how
  command-line options override them (`configuration`), how refused requests are
  answered (`error`), the health check and subscription handlers' decisions (`routes`),
  the server's start-up decisions (`startup`), and the splitting of an excerpt into the
  lines that are shown (`utils`).
- `app/` is the program around it: reading files and the environment, the HTTP server,
  the database, and the HTML rendering of excerpts.
- `tests/` runs the library on concrete values.
