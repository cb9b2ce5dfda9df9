# cita_chain

Message forwarding for the chain service of a CITA node, with its decisions verified by Verus.

- `src/` is the verified library. `forward.rs` has the state, `dispatch.rs` the way of messages
  and of answers. `rpc.rs`, `consensus.rs`, `sync.rs`, `tx_hashes.rs` and `snapshot.rs` deal with
  one kind of message each. `conversation.rs` says what a message comes to once all that it makes
  the node ask has been answered, and the `laws` modules prove what holds of that.
- `src/outside.rs` has everything that is trusted: five functions of `protobuf::RepeatedField`
  and `cita_types::H256::from_slice`.
- `app/` runs the library on a node: it holds the channels, the lock of the block queue, the
  files and the JSON text. `app/node.rs` lists what it needs of the node.
- `tests/` runs the library on concrete messages.
