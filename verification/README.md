# codexctl

A command-line client for `codex app-server --listen stdio://`, written as a Verus library
(`src/`) with a thin program around it (`app/`).

The library holds what the program decides and computes, each function with a contract that
Verus proves:

- `text`, `json`: strings as character sequences, and JSON values with their mathematical model
  (`JsonV`) and the lookups the protocol needs.
- `grammar`, `argv`, `cli`: the command line — its options, subcommands, aliases, conflicts and
  required arguments — read into the `Cli` value.
- `settings`: budgets, timeouts, sandbox, approval policy, effort and log-mode names, and the
  runtime settings (`--full-auto` included).
- `requests`, `util`: the JSON-RPC messages sent to the app-server and what is read back from
  its responses; shell quoting and the resume command.
- `questions`, `turn`, `plan`: structured questions (automatic, interactive and external
  answers) and the state of a Plan-mode turn as messages arrive.
- `session`, `runs`, `daemon`, `inputs`: the session daemon — the state of each run, the table of
  runs by id, the requests and answers exchanged with it, and the `session answer` pairs.
- `reports`, `viewer`, `paths`: the JSON reports of the commands, protocol log lines, the
  session viewer page, and file names.
- `laws`: properties that span several functions (round trips of names and limits, the answer
  cycle of a run, the grouping of answers, option aliases).

`app/` does the input and output: it spawns the app-server, reads and writes its lines, runs the
daemon socket, reads files and standard input, converts JSON text with `serde_json`, and prints
results.
