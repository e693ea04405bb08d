# Textgres

A PostgreSQL client for the terminal. Browse databases, run SQL, edit rows, and save scripts.

- `src/` is the library. It holds every rule of the client, and Verus proves its contracts.
- `app/` is the program around it: the terminal, the files, the sockets and the SSH processes.
- `tests/` runs the library on concrete values.

## How the parts work together

`App::handle_key` takes a key and changes the state. Work that needs the outside world is queued as an
`Effect`; the program carries effects out and reports back through methods such as
`App::handle_database_response`, `App::connection_saved` or `App::script_loaded`.

Database work is driven step by step. `Operation`, `TableJob`, `Save` and `Attach` each say which action
comes next, the program performs it on a connection, and hands the answer to `step`.

## What is proved

Every public function states its result over a mathematical view of its arguments. Properties that span
several functions are public proof functions, for example:

- a batch is committed only behind one affected row per change, and success is reported only for a
  completed COMMIT;
- a lost session opens again only on request;
- staged rows survive failures, cancellation and further pages, and discarding restores what was loaded;
- the text of a statement does not depend on any cell's contents.

## What is trusted

A few functions call other crates or the standard library behind a stated contract: the SQL parser and
highlighter of tree-sitter, the text area of `ratatui-textarea`, the width tables of `unicode-width`, and
text functions of the standard library. Each has a doc comment that says what is taken for granted.
