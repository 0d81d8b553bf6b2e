# modtorio

The verified core of a manager for headless Factorio servers, written in Verus.

- `src/` is the library. Every function in it is verified against its contract, except two
  small trusted wrappers whose contracts state what the called code does: `grammar::char_is_word`
  (`regex_syntax::is_word_character`, the `\w` class) and `executable::lossy_text`
  (`String::from_utf8_lossy`).
  - `grammar`, `text`, `version`, `version_information`, `game_event`: the line grammars of a
    server's output, its version report and mod dependency strings, read by a backtracking
    matcher whose results are specified exactly.
  - `settings` (and its submodules): a server's settings and their three formats
    (`server-settings.json`, the program store, the remote control message), with the laws
    that a setting written into a format reads back unchanged.
  - `players`, `server_status`, `executable`, `server`, `control`, `command`: how the events a
    running server reports change its status, and the decisions about running it.
  - `dependency`, `mods`, `mod_list`, `playerlist`: mod dependencies, updates and duplicates, the
    `mod-list.json` flags and the player lists.
  - `config`, `importer`, `path`, `cache`, `sql`: the program's configuration, where a server's
    files are, file names of paths, and the cache database's statements.
- `tests/` exercises the library on concrete values, and checks the grammars against the
  `regex` crate and the path functions against `std::path`.
- `app/` is the program around the library: files, processes, the clock and the network.
