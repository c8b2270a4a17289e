# agent_threads

The threads of a client that talks to coding agents: what comes in for each of them while another
one is on screen, what is asked of the user, which background terminals run and whom to tell when
they end, and how commands of the user reach the server or a shell.

Everything that decides is in `src/` and is verified with Verus. Functions there take plain values
and return the next state together with the steps to carry out. `app/` carries the steps out: it
owns channels between tasks, reads the file system and the environment, and calls the server and
the screen that the embedding program provides.

- `cd`, `user_shell`: commands that the user runs in a shell of their own, and the plain `cd`
  that changes the directory of the session instead.
- `thread_events`, `terminal_ids`, `input_state`, `pending_replay`: the event store of a thread.
- `app_state`, `thread_routing`, `active_thread`, `replay`, `op_submission`, `server_events`: all
  threads of a client, and which of them is on screen.
- `interactive`, `listings`, `wakeups`, `agent_navigation`, `effects`: what the user is asked,
  shown and told.
- `thread_event_laws`, `routing_laws`, `metadata_laws`: what holds of them whatever happens.
