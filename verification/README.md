# swr_survival

A survival mode for "Scarlet Weather Rhapsody": a key on the scenario
selection screen switches the story mode into a run through all fifteen
characters, with generated scenario scripts and story table.

- `src/` is the Verus library: the generated texts (`scenario_txt`,
  `story_csv`, `text`), the near jump arithmetic and patch records
  (`tamperer`), the switch that holds the patches (`survival_manager`), the
  answers to the game's file requests (`file_hooks`, through `shift_jis` and
  `pattern`), the caption font and text (`text_texture`), the selection
  screen decisions (`select_scenario`) and the debugger text (`debug`).
- `app/` is the DLL around it: the Windows API, the memory patching and the
  calls into the game. It builds for 32-bit Windows only.
- `tests/` runs the library on concrete inputs.
