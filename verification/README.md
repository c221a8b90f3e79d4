# mxsend

A one-shot Matrix notification sender: it logs in, delivers a message to a user or a room,
and logs out.

- `src/` is the verified library (Verus):
  - `ids` — user and room IDs, validated through ruma, and the server name of a user ID;
  - `recipient` — parsing a recipient by its sigil;
  - `text`, `message` — Unicode trimming and choosing the message body (argument or piped input);
  - `dm` — finding the direct chat with a user among the joined rooms and what to clean up;
  - `sender` — the options of a run and where its homeserver is;
  - `session` — each step of a run as a state machine, with its laws.
- `app/` is the command-line program: arguments, standard input, logging, and the matrix-sdk
  client that performs each action the library decides on.
- `tests/` exercises the library on concrete values.
