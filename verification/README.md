# jolt_vm

The orchestration layer of a zero-knowledge virtual machine, written in Verus. It
preprocesses a program, proves an execution of it and verifies the proof, out of four
argument systems that share one Fiat-Shamir transcript: bytecode, instruction lookups,
registers and RAM, and a constraint system.

A machine implements `Subprotocols` (its instruction set and the argument systems) and
gets `Jolt` on top. Nothing is promised of the argument systems. Every contract says
which values go into each call, in which order, with which transcript, and what becomes
of the values that come back.

- `src/vm.rs`: the trait `Jolt`
- `src/proving.rs`, `src/verification.rs`, `src/r1cs.rs`, `src/opening.rs`: what a run of
  the prover, of the verifier, of the constraint system's setup and of the transcript's
  opening is
- `src/commitments.rs`, `src/chunks.rs`, `src/instruction.rs`, `src/poly.rs`,
  `src/device.rs`, `src/transcript.rs`: the parts they work on
- `src/laws.rs`, `src/determinism.rs`: what holds of the library as a whole
- `src/outside.rs`: the contracts that are taken on trust
- `app/`: serialization, tracing spans and panics around the library
