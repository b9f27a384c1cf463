# OpenLogi

A verified library for configuring Logitech mice, presenters and their overlays.
`src/` holds the logic: every function carries a contract, and Verus proves it for all
but a handful of calls into the standard library, `image` and `x11rb`.
`app/` is the process around it: threads, timers, the X server, and what the
system draws.

- `config`: what each device remembers, per application and per link.
- `agent`: button presses over time, the presenter runtime, the devices served.
- `device`: capturing controls and handing them back, report layouts, pointer speed.
- `hook`: the application in front, the window under the pointer, event taps.
- `ipc`: the handshake with the agent and the ledger of its states.
- `desktop`: the window's state, its panels, and its link to the agent.
- `overlay`, `presenter`, `action_ring`, `binding`: the values these share.

Public proof functions named `law_*` state what holds across functions.
