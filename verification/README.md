# plausible_cli

The verified core of `plausible`, a command-line client for the Plausible
Analytics API, and the program around it.

- `src/` is the library. It decides which requests a command makes, what is
  stored and counted, and what is printed. Its functions carry contracts that
  Verus proves, except for small wrappers around outside crates, whose contracts
  are taken for granted; `law_...` proof functions state what holds across
  functions.
- `app/` is the program: command line, files, network and background tasks. It
  hands the library what came of reading, sending and waiting, as plain values,
  and carries out what the library asks for.
- `tests/` runs the library on concrete values.

## Layout of the library

| Module | What it holds |
| --- | --- |
| `text`, `nonzero`, `clock`, `json` | texts, positive numbers, moments and JSON values |
| `config` | where files live; `config::accounts`: stored accounts, keys and the default |
| `rate_limit` | hourly and daily counters, and the budget that is left |
| `client` | requests to the API and how responses are judged |
| `queue` | jobs, their numbers and reports; `queue::worker`: one job after the other |
| `output` | tables and documents that commands print |
| `cli` | commands, step by step; `cli::executor`: which requests a job makes |

With `--retries <n>` a job that fails is tried again up to `n` times, with waits
that double in between; without it every job is attempted once.

With `--output json` every command that succeeds prints exactly one JSON
document; the `law_json_...` proof functions state this for each of them.

What the library takes from outside crates is declared next to its use, with a
comment that names the function and says what is taken for granted.
