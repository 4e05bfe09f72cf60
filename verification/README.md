# pwacc

An automatic connection controller for PipeWire. It creates a pass-through
node of its own, watches the PipeWire registry, selects nodes whose
application name (and, on request, description) matches user supplied regular
expressions, and links their ports to the ports of its node on the same audio
channel.

- `src/` is the verified library: the model of the graph (`shared`), the
  reading of registry properties (`dict`, `object`, `handlers`, `constants`,
  `text`), pattern matching (`matching`), the link and node properties
  (`actions`) and the controller that decides what to link (`controller`).
- `app/` is the program around it: command line, PipeWire proxies, listeners
  and the main loop.
- `tests/` runs the library on concrete values.
