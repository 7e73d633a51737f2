# blackforge

The verified core of Blackforge, a mod manager for Valheim on Thunderstore:
the decisions, texts and states of its window, its command line, its cloud
sync and the local door the join plugin of the game knocks on.

- `src/` is the library, verified with Verus. Each module states in its
  contracts what its functions return, over spec functions of plain
  sequences and numbers; the `law_` proof functions state what holds across
  calls. Calls into outside crates (chrono, timeago, image, base64,
  getrandom, constant_time_eq) stand behind small trusted wrappers whose
  doc comments say what is assumed of them.
- `tests/` runs the library on concrete values.
- `app/` is the program around it: the join door on 127.0.0.1, the watch of
  the game process, and the console output.
