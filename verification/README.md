# arm-scmi

A library for the Arm System Control and Management Interface (SCMI), version 4.0 beta 0,
written in Verus: the encodings and decisions are verified against their contracts.

* `src/protocol.rs`: protocol identifiers, message identifiers, the message header, status
  codes, versions, the wire form of payloads (`Payload`, `Command`) and NUL terminated names.
* `src/protocol/{base,power_domain,system_power}.rs`: the Base, Power Domain Management and
  System Power Management protocols: their message identifiers, field types and commands.
* `src/transport.rs`: the `Transport` trait. Its contract speaks of a log, specification state
  of the transport: each call appends the command and how it ended. The contract is what an
  implementation promises; an implementation written outside Verus is not checked against it.
* `src/transport/shared_memory.rs`: the shared memory header, the framing of a command and of
  its response in a shared memory channel (status-only error responses and the variable-length
  protocol list included), and how a command ends once the platform releases the channel.
* `src/lib.rs`: `ScmiAgent` and the per-protocol agents. Their contracts state, over the
  transport's log, the one command that each method hands to the transport and how its result
  follows from that exchange.
* `app/lib.rs`: the shared memory transport itself (volatile memory accesses, busy-waiting,
  doorbell), and the error type with its messages.
