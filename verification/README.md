# hidmaestro

Virtual game controllers, driven over a bridge process, and a server that lets an
agent drive them. The rules are a verified library; the processes, pipes and
threads around them are ordinary Rust.

- `src/` is the library. Each function says in its contract what it gives, and
  Verus proves it. The laws that hold across functions are the public proof
  functions whose names begin with `law_`.
- `app/` is the server program: it does the outside work that the library asks
  for and hands back the results. Its `client` does the same for a program that
  drives controllers itself, with calls that block.
- `tests/` runs the library on concrete values.

## How the parts fit

A state of a controller (`gamepad`) is changed by edits and patches (`patch`).
A session (`session`) numbers requests, keeps a mirror of each controller it
created, and says what becomes of each reply; `protocol` holds the messages,
`events` the bounded queue of output reports, `builder` the settings.

The server (`server`) takes one line of input at a time and answers with an
action: respond, connect, send a request, wait, stop the bridge. The program does
it and hands back the event (`work`). `tools` lists what an agent can call, and
`command` reads the arguments of a call.

Numbers with a fraction are held as the bit patterns of IEEE single precision
(`single`), and JSON documents as values of the library's own (`json`), which
`serde_json` reads and writes.
