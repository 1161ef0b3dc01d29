# richter console

The console of a Quake engine client, written in Verus and proved against
its contracts:

- `src/input.rs`: the line being edited (`ConsoleInput`), modelled by `LineState`.
- `src/history.rs`: the lines entered so far (`History`), modelled by `HistoryState`.
- `src/cvars.rs`: configuration variables registered by name (`CvarRegistry`).
- `src/cmds.rs`: commands registered by name and run with arguments (`CmdRegistry`).
- `src/console.rs`: the console (`Console`), driven by typed characters and keys.
- `src/text.rs`: building strings from characters, and the whitespace test.

Each module ends with the laws it proves about its operations. `app/`
prints what the console shows, converts window-system key codes into
console keys and logs refused command registrations; `tests/` runs the
library on concrete inputs.
