# rabbit

The logic of the Rabbit network toolbox (ping, scan, HTTP and TFTP servers,
TFTP client, chat, reminders and settings), written in Verus and proved
against its contracts.

- `src/` is the verified library: the text buffers the services write and
  the window shows (`ui_state`, `rabbit_app_state`), the display refresh
  (`refresh`), what the application does with service messages and button
  clicks (`dispatch`, `tabs`, `rabbit_tabs`, `startup`), the option strings
  of the tabs (`options`, `defaults`), the plan task list and reminder
  (`plan`, `reminder`, `calendar`), the tray helper protocol
  (`tray_protocol`), update checking and installation (`upgrade`), and the
  platform texts (`platform`, `network`, `icon`).
- `tests/` runs the library on concrete values.
- `app/` is a small command-line front end: network access, files, processes
  and the helpers that compute with floating point numbers.
