# databricks-tui

Terminal dashboard for Databricks: clusters, jobs, pipelines and SQL
warehouses in one view, refreshed in the background.

- `src/` is the library, verified with Verus:
  - `shape` — panel data (`Shape`, `ListItem`, `Status`) and the parsing of
    state names;
  - `json` — the JSON documents that the Databricks CLI prints;
  - `fetchers` — the CLI command of each panel and the mapping of its output
    to a panel shape (plus the Unity Catalog browser);
  - `app` — the dashboard state machine: focus, zoom, spinner, and the
    refresh protocol (start, partial reports, completion), with its laws;
  - `view` — what each part of the screen shows (texts, colours, widths);
  - `keys` — the key bindings;
  - `text` — decimal numbers and string helpers.
- `app/` is the program: command-line arguments, running the CLI, the
  background tasks, the clock, the terminal and the drawing.
- `tests/` runs the library on concrete inputs.
