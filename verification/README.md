# jso_protector

A client for the JavaScript Obfuscator HTTP API whose request and answer
logic is verified with Verus.

- `src/` — the verified library:
  - `request.rs`: checking a `ProtectRequest` (credentials, files, preset) and
    building the JSON body (`prepare_request`);
  - `response.rs`: reading the service's answer (`interpret_answer`,
    `finish_request`);
  - `presets.rs`: the three option presets;
  - `json.rs`: the JSON model `JsonValue` and its view `JsonView`;
  - `strmap.rs`: an insertion-ordered string map;
  - `text.rs`: trimming, case folding, decimal rendering;
  - `error.rs`: the errors and their messages;
  - `laws.rs`: properties proved for every input (overrides win over presets,
    the default preset, credential order, release label, answers).
- `app/` — the `Client` that reads the environment, sends the body with
  `ureq` and converts between `serde_json` values and the library's model.
- `tests/` — tests of the library.
