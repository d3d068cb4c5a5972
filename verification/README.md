# werk1112

The decisions of a program that runs language and media models on whatever runtime a machine
offers: which runtime serves a request, where its programs are, how they are called, what their
answers mean, and what to say when something is missing.

`src/` is the library. It is written in Verus: every function states in its contract what it
returns, and the contracts are proved. It does no input or output. Where a decision depends on a
file, a program or a server, the function takes what is known so far and says what to find out
next, until it has an answer.

- `text`, `paths`, `json`, `process`, `failure`: the values that everything else is made of.
- `shell`, `sse`, `http`: command lines, server-sent events, and the part of HTTP that is spoken
  with a model server.
- `model`, `inference`: models, requests, and the plan that picks a runtime.
- `backend`: the backends that generate text. `burn` and `onnxruntime` run a runner of their own,
  `external` runs the programs of llama.cpp and mlx-lm, and `vllm` starts and speaks with vLLM
  servers.
- `inference_service`, `api`: the resources of the host, and the routes of the HTTP server.

What holds across functions is stated by the public proof functions whose names begin with
`law_`. What the library takes on trust from the standard library and `serde_json` is marked
`external_body` or `assume_specification`, with a comment that says what is claimed.

`app/` is the program around the library: the environment, files, processes, sockets, the async
runtime and the HTTP server.
