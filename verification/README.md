# why

`why` runs a Linux command under `strace -f -tt -T` and explains where its
time went: file work, network work, process management or waiting.

The verified library lives in `src/`:

- `text` – character searches, whitespace, padding and decimal numbers.
- `category` – the four categories, classifying a trace line, and the
  diagnosis and hint texts.
- `trace` – the lines of a trace, the system call named on a line, its
  duration text, and the tally of a whole trace.
- `ranking` – the five most called system calls.
- `insights` – observations drawn from call counts and time shares.
- `watch` – when to stop waiting for the traced command.
- `cli` – the command line.
- `tui` – the dashboard's state and its answer to each key.
- `style`, `views`, `report` – styled text of the dashboard panels and the
  printed report.

`app/` holds the program around it: argument parsing with clap, running
strace, reading the trace file, the floating point sums of traced time,
printing with `colored`, and drawing with ratatui and crossterm.
