# llama_server_loader

A terminal launcher for `llama-server`: pick a `.gguf` model, edit its
settings, start and stop the server, watch its log and the GPU.

The library (`src/`) holds the launcher's logic with Verus contracts:

- `model`, `config`: the settings, their defaults, the model files of a
  directory and the merge of saved settings with them.
- `server_manager`: the `llama-server` command line (only checked per-model
  parameters are passed) and the start/stop decisions.
- `fields`, `field_edit`: the Configure tab's fields, their text, checkboxes
  and writes.
- `app`, `keys`: the application state and what every key, click and wheel
  turn does to it.
- `monitor`, `views`: GPU histories, braille graphs, and the text of panes.
- `text`, `paths`: decimal rendering and parsing, whitespace splitting,
  string order, and Unix path joining.

`app/` is the program around it: terminal, event loop, configuration file,
child processes and NVML polling.
