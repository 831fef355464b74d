# jotmate (terminal UI core)

The interactive terminal UI of jotmate — the developer tool that syncs forks
with their upstream repositories and tracks Time Doctor work hours — as a
verified state machine.

`src/` is the library, verified with Verus: the screens and their rows, list
navigation, the settings being edited (toggles, timezone, repositories,
contract periods), keyboard handling, the report / sync / update screens'
state, the layout arithmetic, and what each screen shows as styled text.
Every operation has a contract; the properties that span operations are
proof functions in `src/laws.rs`.

`app/` is the part Verus does not see: terminal setup, the event loop,
drawing with ratatui, and the `Backend` trait through which the rest of the
program provides the configuration file, keychain, Time Doctor client,
repository discovery, sync engine and self-updater.

`tests/` runs the library on concrete scenarios.
