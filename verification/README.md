# llama-monitor

A floating desktop widget that watches a llama.cpp (or vLLM, Ollama,
OpenAI-compatible) inference server: model, context usage, prefill and
generation speed, connection health.

- `src/` — the verified library (Verus): the response adapters (models,
  props, slots, Ollama `/api/ps`, cloud model lists), the Prometheus text
  grammar, the snapshot calculator and its smoothing window, the settings
  rules (URLs, migration, secret masking), the LAN discovery decisions and
  the command decisions (hotkey, theme, log tail).
- `tests/` — tests of the library on concrete values.
- `app/` — the Tauri program around it: window, tray, plugins, files,
  HTTP polling, JSON wire types and the floating-point speed arithmetic.
