# rivctrl

Controller for the ReimageVideo serial status display.

- `src/` is the verified library: the display's command format
  (`command`), the colour rule, the clear command and the reading of
  `df --output=pcent` output (`util`), string helpers (`text`), the
  configuration types (`config`), and each display mode as a state machine
  whose step function gives the next action for the reply to the last one
  (`modes`).
- `app/` is the daemon: it opens the serial port, reads system figures
  (sysinfo, cpu-monitor, `df`), turns measured fractions into their
  displayed text, and performs the actions that the modes ask for.
- `tests/` runs the library on concrete inputs.
