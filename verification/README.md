# mpi: point to point communication

A library for the point to point operations of the message passing interface, verified
with Verus.

Each operation is split in two:

- a verified function that decides which call of the interface to make, and with which
  ranks, tags, buffer layouts and handles: `Source` and `Destination` (probes, receives and
  sends in all modes, blocking or immediate), `Message` (receives of a matched message) and
  the `send_receive*` functions all yield an `Operation`;
- a verified function that turns what the call reported into the library's values:
  `Status` (source, tag, element count, description), the outcomes of immediate and matched
  probes, the receive of a matched message into a vector, and `ReceiveFuture`.

Layout:

- `src/`: the verified library (`raw`, `topology`, `datatype`, `request`,
  `point_to_point`, `decimal`);
- `tests/`: tests of the library on concrete values;
- `app/`: the calls of an MPICH-compatible implementation that perform each `Operation`.
