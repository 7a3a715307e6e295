# cardwire-daemon configuration, verified

The configuration logic of the cardwire GPU daemon, written in Verus.

- `src/` is the verified library:
  - `modes.rs`: the GPU modes, their bus numbers and their file names;
  - `config.rs`: the user configuration, its defaults, how the fields of
    `cardwire.toml` (present or missing) become a configuration, and the
    fall-back to the defaults;
  - `memory.rs`: the settings of the running daemon, whose stored mode number
    always stands for a mode;
  - `interface.rs`: the replies of the D-Bus configuration interface;
  - `files.rs`: the names of the configuration file and of the temporary files
    a save writes, and which leftovers a start removes;
  - `text.rs`: string comparison and decimal writing.
- `app/` is the unverified shell: TOML reading and writing through serde, file
  I/O, and the zbus interface.
- `tests/` runs the library on concrete values.
