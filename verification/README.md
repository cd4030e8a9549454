# side_conversation

Transient side conversations of a terminal chat client, written and verified in Verus.

A side conversation is an ephemeral fork of a thread, opened for a quick question while the main
thread keeps its focus. The library holds the state that decisions about side conversations read,
and answers each event with the next state and the work that is due. Every operation is stated over
a model of that state, and `src/laws.rs` proves what holds across operations: that at most one side
conversation is ever open, that a question typed by the user is asked or goes back to where it was
typed as long as that thread is shown or something is kept of it, that closing which failed brings
the conversation back.

- `src/` is the verified library.
- `tests/` runs it, with the outside crates it calls.
- `app/` drives it: the server, the screen and the waiting.
