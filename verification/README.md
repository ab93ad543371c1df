# Ronsole

The logic of a terminal emulator for Wayland, verified with Verus, and the program around it.

- `src/` is the library. Every function states in its contract what it returns or changes, and the
  laws that hold over several of them are public proof functions beside them.
  - `launch`, `platform`, `egl`: the command line, the hand-over to a running instance, processes,
    raising the window on KDE, the choice of the EGL vendor.
  - `input_types`, `input`, `interaction`, `pointer`: what keys, text and the pointer do to the
    terminal that is shown, and what it is sent for them.
  - `single_line_input`, `search`, `settings`, `tabs`, `terminal`: the fields, the search, the
    settings, the tabs and the screen.
  - `app`: the state of the window with all of that, and what is to be done outside it.
  - `graphics`: OpenGL versions and contexts, the places of pictures in textures, and which rows,
    cells and tabs are drawn.
  - `automation`: the scripted run that exercises the whole program.
  - `config`, `number`, `bytes`, `text`: the settings that are kept, the bits of their numbers and
    how texts write them, and helpers.
- `tests/` runs the library on concrete values.
- `app/` is the program: sockets, processes, the window, drawing, and the geometry, which is
  floating point.

Times are integers (microseconds, or milliseconds in the scripted run), paths are bytes, and the
numbers of the settings are the bits of floating point: the library reads, adds, rounds and
writes them as integers.
