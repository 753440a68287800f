# lildevil

The logic of a small HTTP honeypot, verified with Verus.

- `src/` is the library: settings (`configuration`), the request model and the
  dispatcher (`handler`), the individual handlers (`handlers/`), recorded events
  (`models`), abuse reports and their rate limit (`reporter`), regular
  expressions (`pattern`), and string and random helpers (`text`, `utils`).
- `app/` is the server around it: configuration files, the database, the
  actix-web server and the thread that submits reports.
- `tests/` exercises the library on concrete requests.

Two collections of the original are held in vectors here. The categories of a
report are a `Vec<Category>` that never repeats an element, and the record of
last reports is a `Vec<(String, u64)>` with one entry per address. Both were
first tried as `std::collections::HashSet<Category>` and
`HashMap<String, u64>`: Verus then proved not even that an inserted element is
contained, or that one insertion into an empty map gives length 1, because it
cannot assume that hashing and equality of these key types behave as its
specification of the collections requires.

The configuration is read under one of two key sets: the sectioned keys of
the configuration file (`http.host`, ...) and the flat keys that the server
reads at start-up (`http-host`, ...).
