# scow

A small replicated key-value server in the style of Raft. Each server keeps a
local store and a state (role, term, vote); a leader passes client writes on
to the others in its heartbeats, and a follower that stops hearing from a
leader stands for election.

- `src/` is the verified library: the store (`db`), the messages, the
  decisions a server takes on each request (`scow_impl`), on each election
  round (`election`) and heartbeat round (`heartbeat`), the keeper of the
  state and the requests it sends (`state_handler`), the configuration
  (`config`), the peers' URIs (`client_tools`), and a server's view of its
  term (`consensus`). Laws of the protocol stand beside the functions they
  speak of, as proof functions.
- `app/` is the program around it: the gRPC wire format and service, the
  channels between the tasks, the election and heartbeat loops, and `main`.
- `tests/` runs the library on concrete values.
