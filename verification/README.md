# report_designer

A desktop report designer with a login backed by a small web service.

- `src/` is the verified library (Verus): the login service as a state machine
  whose database work is done by its caller, the HTTP answers of the routes,
  the session cookie, the desktop pages' state, and the calendar arithmetic
  behind the dates that the service reads and writes (parsing and formatting
  are chrono's, behind trusted wrappers in `src/dates.rs`).
- `app/` is the program around it: the actix-web server, the SQL Server pool,
  the HTTP client, and the egui window. It calls the library for every decision.
- `tests/` exercises the library on concrete values.
