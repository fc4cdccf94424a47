# dev-hud

A heads-up display for coding-agent sessions on a Wayland layer surface, with shell
output widgets and a control socket (`dev-hud-ctl`).

`src/` is the verified library (Verus): the session-log parser, the session and
subagent state machine, the shell widget configuration and state, the HUD's message
handling, the control commands, the rules for what the display shows, and the
screenshot and GIF decoding (through `image`) with the pixels the adaptive theme samples. Each
public function's contract states its result over mathematical models of the data,
and proof functions state the properties that hold across calls.

`app/` is the program around it: iced and the layer shell, file and process I/O,
threads, and the floating-point parts (colors, font sizes, screen brightness).

`tests/` runs the library on concrete inputs.
