# oxidisk

A terminal front end for burning files to CDs, DVDs and Blu-ray discs, with
its decisions verified by Verus.

- `src/` is the verified library:
  - `ui.rs`: the dashboard's state (`App`), the panels and options, every
    key press and typed command (`handle_key`, `run_command`), and the
    messages of a running burn job.
  - `burn_logic.rs`: one burn job as a step function (`BurnSession::step`)
    that says which device work comes next and which messages to report,
    with a proof that every job ends.
  - `hw_enum.rs`: what the drive list shows of a recorder and its media.
  - `text.rs`: the std string functions the commands rely on, and decimal
    and hexadecimal rendering.
- `app/` is the program around it: the terminal, file dialogs, threads, the
  COM calls that enumerate recorders and write discs, and drawing.
- `tests/` exercises the library on concrete values.
