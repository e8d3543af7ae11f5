# frename

The verified logic of frename, a tool that tags video clips through their file names. Each
module states what it does in `requires` / `ensures` contracts over mathematical models
(sequences, sets, maps and views of its types), and Verus proves the code against them.

- `src/`: the library. Besides the contracts, the modules hold laws: public proof functions
  that state what holds across calls (one batch job at a time, run over its files in order and
  stopped by a cancel; moves in the tag grid that undo each other; a stale plan or estimate
  dropped; the file you leave saved before the next opens, once; a close that waits for the job
  and the video; and more).
- `tests/`: the library's tests, on concrete values.
- `app/`: the program around the library: start-up (crash guard, the bundled GStreamer's
  environment, demo mode's command line), the file system checks of the rename rules, and the
  batch job's loop.
