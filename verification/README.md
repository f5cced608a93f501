# coduchi

Generates Dev Container settings (`.devcontainer/devcontainer.json`,
`compose.yaml`, `Dockerfile`) for a project directory.

- `src/` is the library, verified with Verus: the configuration and its
  defaults, the rendering of the three files, the generation workflow as a
  state machine (`application::use_cases`), the reading of the GitHub
  template catalogue, overwrite checks and template selection. Properties
  that relate several functions are proved in `laws.rs` and next to the
  workflow.
- `app/` is the command-line program around it: argument parsing, the
  terminal prompts, the file system and the HTTP requests. It performs the
  actions that the workflow asks for and hands back their outcomes.
- `tests/` exercises the library on concrete values.
