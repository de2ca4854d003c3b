# afri_mesh

A terminal chat node for classrooms: nodes find each other on the local
network (mDNS) and talk on one gossipsub channel, `classroom-chat`.

The library (`src/`) is verified with Verus:

- `app` — the chat session: key handling (`i` to edit, Enter to send, Esc to
  stop editing, `q` to quit), the history, the list of peers, and the
  reactions to network events, with the laws the session keeps.
- `ui` — what the terminal shows of a session, and where the cursor goes.
- `network` — subscription and publication on a gossipsub behaviour.
- `error` — the error type and its messages.
- `text` — decimal rendering and a few string operations.

`app/` is the program around it: the libp2p swarm, the terminal drawing with
ratatui, and the event loop.
