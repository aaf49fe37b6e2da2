# web_browser

The core of a small web browser that runs page scripts in the Boa JavaScript
engine.

- `src/` is the verified library (Verus): the HTML document model
  (`html::document`, `html::script`), the decisions of the JavaScript objects
  (`js::navigator`, `js::console`, `js::clipboard`, `js::fetch`, `js::json`,
  `js::response`, `js::node`, `js::arguments`), the command line
  (`invocation`) and text helpers (`text`).
- `app/` is the program: it registers the objects with the engine, does the
  file, network and clipboard I/O, and prints.
- `tests/` runs the library on concrete pages and values.
