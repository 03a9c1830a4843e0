# sherlock-desktop

The verified core of the part of a photo classifier that talks to a local Ollama server and
runs helper processes. The library in `src/` decides; the code in `app/` reads files, sends
requests and spawns processes.

- `llm::budget`: visual tokens of an image, and the budget of a call.
- `llm::fit`: the dimensions at which an image fits a budget.
- `llm::image_prep`: what is sent for an image file.
- `llm::json`: the first JSON object in free-form text.
- `llm::base64_text`: Base64 text of binary data.
- `llm::client`: the steps of one `/api/generate` call.
- `platform::process`: waiting for a child with a deadline.

Properties that relate several functions are public proof functions whose names start with
`law_`. Functions marked `external_body`, and specifications assumed of other crates, state
what the proofs take on trust.
