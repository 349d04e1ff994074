# r-webservice

A small web service framework. Pages, actions and templates are stored in a
PostgreSQL database; at start-up the service reads them, plans one route per
action of each page (with a guard on method, content type and origin, and a
preflight route where an action allows OPTIONS), and answers each request by
walking the action's tree of templates.

## Layout

- `src/` — the library, written and proved with Verus:
  - `types` — database number aliases, method / data format / content type
    flags, the errors and their status codes;
  - `json` — the JSON values that requests carry, as the library reads them;
  - `module` — the stored records, their table descriptions, SQL escaping and
    the SELECT / INSERT / UPDATE / DELETE statements, and template trees;
  - `engine` — the request engine and the module engine, as step functions
    around the database work;
  - `service` — the cache kept after routing, route planning, the route guard
    and preflight answers, the template walk of a request, the request value
    reader's state machine, auth checks and the database address;
  - `meta` — the derive of `ModuleDBMeta`, over a plain model of the item's
    tokens.
- `tests/` — tests of the library on concrete values.
- `app/` — the program around the library: the actix-web server, sessions,
  TLS, database access with sqlx, the JSON forms of the records, the request
  extractor, and the `syn` side of the derive.
