# odyssey

The verified core of a life cycle assessment tool. An activity is described
in YAML files: its exchanges come either from an inventory database or from
other activity files. The library reads those documents, decides every error
the command line reports, lists the databases and reference flows an
assessment needs, builds the characterisation matrices of the EF 3.1, CML
and TRACI methods, and renders search results.

- `src/` — the library, verified with Verus.
- `tests/` — tests of the library.
- `app/` — the command line program around it: file and terminal
  input/output, colours, the database engine and the search index.
