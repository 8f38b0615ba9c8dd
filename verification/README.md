# kazeta_bios

The BIOS of a Kazeta+ console: the menus, the save data manager, the
settings pages, the theme, runtime and update downloaders, the Wi-Fi and
Bluetooth screens and the CD player.

## Layout

- `src/` is the library, verified with Verus. Each screen is a state and a
  frame function from that state and the buttons pressed to the next state
  and what the rest of the program has to do (play a sound, start a
  download, save the settings). Parsers of command output, release notes,
  metadata files and paths, the sorting of lists and the save copy plan are
  here too, each with a contract.
- `app/` is the program around it: the window and drawing (macroquad), the
  files, commands and web requests, sound, gamepads, Bluetooth, the CD drive
  and the mounted disks. It reads and writes, hands plain values to the
  library and carries out what the library decides.
- `tests/` runs the library on concrete values.

Calls into outside crates that compute on plain values (regular
expressions, the clock, random numbers, case mapping, paths) stand in
`src/` behind small wrappers whose contracts say what is relied on.
