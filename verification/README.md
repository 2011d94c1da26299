# sigma_racer

Maintenance records of a Sigma Racer motorcycle, and the relay that ships them to a
shop tool, as a verified library.

- `src/` decides: what the bike's SQLite database is asked and what its answers mean
  (`db`, `sql`), how query messages are written and read (`protocol`, `json`), which
  relay client is a query and which a subscriber (`relay`, `control_line`), which
  telemetry lines are handed on (`source`), how the bike answers (`query`), how a pull
  starts and ends (`client`) and what a timestamp says (`clock`).
- `app/` does the input and output: TLS, sockets, threads, files and the environment.

Every function in `src/` states what it does in its contract, and the properties that
span several functions are the proof functions whose names start with `law_`. What is
believed rather than proved are the contracts of the few functions that call rusqlite,
serde_json, chrono and the standard library; each says so in its documentation.

What is stated of table contents holds of a database that was opened as `:memory:`,
which only this library can reach. Of every database the contracts state each call that is made into
SQLite, in order, with what it was handed and what it came to, and what becomes of the
reply. Only the functions that make those calls add to that record.
