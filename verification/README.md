# hab_sup

The decisions of `hab-sup`, the Habitat Supervisor's command line program, as a library whose
contracts Verus proves.

- `src/` holds the library. `cli` is the table of commands and arguments; `args` and `settings`
  read a command line; `config`, `svc_load`, `control` and `run` say, step by step, what each
  command asks of the Supervisor's components and what follows from their replies; `replies`,
  `boot`, `start` and `validate` decide the rest. The modules that end in `_laws` state what holds
  of a whole run of such steps. `outside` holds the two calls into other crates.
- `app/` is the program around it: it matches the command line with `clap`, takes the steps by
  calling the Supervisor's own crates, and prints.
- `tests/` runs the library.
