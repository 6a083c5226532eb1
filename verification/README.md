# game_optimizer

A game-session optimizer for Windows. Before a game starts it records the
state of the system, stops the services and closes the background programs a
profile names, and sets the game's GPU preference; it starts the game,
watches it (through a launcher's hand-over to the real game) and, when the
game exits, puts the system back.

## Layout

- `src/` is the library, verified with Verus. It holds the decisions and the
  data: the profile model, the security guards, the launch as a state machine
  (`launch.rs`) and the process monitor (`monitor.rs`), the restore plan
  (`optimizer.rs`), the log buffer, the registry text encoding (`wide.rs`) and
  the profile list. Each public function states in its contract what it
  returns; the laws of the library (a launch only moves forward, a restore
  starts again every service the launch stopped, a registry value reads back
  as written, and others) are public proof functions.
- `app/` is the program around it: the window (eframe/egui), the Windows
  system calls, the files, and the loop that performs what a launch asks for
  and reports back.
- `tests/` runs the library on concrete values.
