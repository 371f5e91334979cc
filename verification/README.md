# armafield-server

Launcher for the Arma Reforger dedicated server with ArmaField MapSeeding
rotation, with its decision logic verified by Verus.

- `src/` — the verified library: the `launcher.toml` model and its defaults,
  a JSON document model of `config.json` (parsed and printed through
  `serde_json`), MapSeeding rotation, the forced network settings of the
  runtime configuration, the server command line, Windows Firewall rule plans,
  their step-by-step execution and `netsh` output reading, SteamCMD freshness
  decisions, the supervisor as a state machine, and the service's registry
  environment block.
- `app/` — the Windows program around it: command line (clap), file and
  process I/O, logging, SteamCMD download, `netsh` and Service Control
  Manager calls, and the loop that carries out the supervisor's actions.
- `tests/` — tests of the library.
