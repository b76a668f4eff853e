# LiveSplit One

The core of the LiveSplit One desktop application, verified with Verus.

- `src/config.rs`: the configuration; loading it, saving it, setting up the log.
- `src/logging.rs`: how the log file is opened, its levels, timestamps and lines.
- `src/hotkeys.rs`: the hotkeys, their defaults, and the names of keys.
- `src/state.rs`: what the application holds, and what the window can ask of it.
- `src/protocol.rs`: commands to the window and its answers.
- `src/channel.rs`: the channel through which the replies of the window come.
- `src/sink.rs`: the commands that hotkeys send.
- `src/timer.rs`: the commands that the auto splitter sends, and the search for an answer.
- `src/updates.rs`: which updates of the auto splitter the log tells of.
- `src/next.rs`: how a procedure asks its caller for work on the outside world.

The library opens no file and no window. A procedure that needs such work hands out the step
to perform, and is resumed with what came of it. `app/` performs these steps. It needs tauri 1,
and a livesplit-core and livesplit-auto-splitting with command sinks and auto splitter
instances, which are newer than the releases that the library itself is built with.
