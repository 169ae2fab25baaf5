# localman

A local development environment manager: PHP, Python and Next.js projects
served through Apache virtual hosts at `<id>.localhost`, MariaDB and
PostgreSQL administration through their command-line clients, and control of
the system services behind them.

## Layout

- `src/` — the library, verified with Verus. Every decision the application
  makes is here, stated in `requires`/`ensures` contracts:
  - `vhost` — the project model, vhost configuration text, dev-server command
    lines and their port, the project list and the registry of running servers;
  - `apache` — hosts-file updates, proxy modules, the Adminer site;
  - `setup`, `venv` — dependency installation for Node and Python projects
    (the Python setup is a step-by-step state machine);
  - `manifest` — finding a Next.js app from `package.json` files;
  - `database` — the SQL and client invocations of every database operation,
    reading client output, import pipelines, saved connections;
  - `service`, `log` — systemd services and Apache error logs;
  - `ui` — the application's panels as state machines: each message changes
    the panel's state and names the outside work to perform;
  - `text`, `paths` — character-level text handling and file paths.
- `tests/` — tests of the library on concrete values.
- `app/` — the desktop shell (iced): drawing the panels, running programs,
  reading and writing files, and feeding outcomes back to the library.
