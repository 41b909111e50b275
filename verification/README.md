# imap_session

The session logic of an IMAP server, written and verified in Verus.

A `Session` is a state machine. `Session::handle` takes the last thing that
happened (an `Event`) and says what is to be done next (an `Action`): send a
text, read a line, open a folder, look at the disk. It reads no stream and
touches no disk itself.

- `src/text.rs`, `src/path.rs`: strings and paths, over sequences of characters
- `src/pattern.rs`: regular expressions, from the `regex` crate
- `src/message.rs`, `src/command.rs`: flags; commands and their words
- `src/listing.rs`: the responses to a `LIST`
- `src/event.rs`, `src/action.rs`: what a session is told and what it asks for
- `src/model.rs`: the course of a session, as spec functions
- `src/session.rs`: the session, proved to follow the model
- `src/laws.rs`, `src/arguments.rs`, `src/replies.rs`, `src/courses.rs`: what
  holds of every step, of arguments, of every reply and of whole commands
- `app/`: the stream, the disk and the rest of the server around the library
