# siglip-onnx-server

A CPU-only, text-only SigLIP embedding service over ONNX Runtime with an
OpenAI-compatible `/v1/embeddings` route.

- `src/` is the verified core: configuration, request validation, the soundness
  of the tokenizer, fixed-length tokenization, batch layout, admission, session
  leases, output checks, response encoding and error answers. Each function
  states in its contract what it returns; public proof functions state what
  holds of the service as a whole.
- `app/` reads the environment, runs the graph and speaks HTTP. Norms and
  quotients of vectors are computed there, as floating point; the core sees
  components by their bits.
- `tests/` runs the core on concrete values with the real tokenizer, semaphore
  and base64 crates.
