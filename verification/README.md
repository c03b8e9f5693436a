# bios

Real-mode PC BIOS services, verified with Verus.

`src/` is the verified library. For each BIOS service it builds the interrupt
vector and register image to load (`BiosCall`), with a contract that names
every register, and it decodes the registers the BIOS hands back (carry and
zero flags, status bytes, byte and word fields). `mbr.rs` reads and writes the
master boot record and its partition entries, with proofs that reading and
writing are inverse.

`app/` executes the `int` instruction with inline assembly and offers the
services under their usual names and signatures, together with the
`#[repr(C, packed)]` layouts of the BIOS data structures.
