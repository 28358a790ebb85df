# synap_forge_llm

The verified core of an OpenAI-style inference server for Llama, Mistral,
Gemma 3 and MedGemma models, and of the decisions of speech transcription and
translation requests.

- `src/` is the library, verified with Verus:
  - `config`: model families, element types, the load configuration and its
    built-in defaults, the family-indexed model and architecture enums.
  - `generation`: the token-generation state machine (which window of the
    token stream the model is fed, at which position, the repeat-penalty
    window, when generation stops), and starting a run from a tokenizer.
  - `sampling`: the sampling strategy and the request defaults.
  - `weights`: reading a checkpoint index's `weight_map`, choosing the
    weight files to fetch.
  - `loading`: resolving a model load, choosing the compute device.
  - `audio`: the speech endpoints' form reading, spectrogram sizing,
    language-detection rule, failure answers and responses.
- `app/` is the program around it: downloading, memory-mapping and running the
  models, sampling, reading speech forms, and starting the HTTP server (it
  mounts no endpoints of its own).
- `tests/` exercise the library on concrete values.
