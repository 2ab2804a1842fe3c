# quetty

The interface logic of Quetty, a terminal queue manager for Azure Service Bus,
written in Verus: the functions in `src/` carry contracts that Verus proves; the few that read the clock say what holds whatever it reads. Error reports give the popup to show; `app/` hands it to the message channel.

- `src/` — the verified library: configuration and its validation, profiles and
  their cache, the setup wizard's decisions, key bindings, the message list, the
  message editor, the pickers and popups, help texts, error reporting and the
  message validators. Each component is a state with a key handler (`on`) whose
  contract says which state and which message follow from each key.
- `tests/` — unit tests of the library.
- `app/` — the program around it: command line, files and directories,
  environment, logging to disk, terminal input.

Verify with Verus on `src/lib.rs`; the tests run with `cargo test`.
