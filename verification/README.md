# todo_app

A small desktop to-do application: users register and log in, then keep a
list of items that they can add, edit, tick off and delete. Items and users
live in an SQLite database; passwords are stored as SHA-256 digests in
lower-case hexadecimal.

- `src/` is the verified library:
  - `hashing` – the SHA-256 digest (from the `sha2` crate) and its
    hexadecimal form, with the laws that the encoding is injective;
  - `model` – users, items, the shared login state and item statuses;
  - `route` – the screens and their paths;
  - `records` – what is written to and read from the database tables;
  - `login`, `registration`, `todos` – each screen as a state machine from
    an event to the next state and a request (look a user up, store an
    item, navigate, ...), with laws over their transitions.
- `app/` is the program around it: the Dioxus user interface, which feeds
  the screens' events to the library and carries out their requests, and
  the SQLite data source.
- `tests/` exercises the library on concrete values.
