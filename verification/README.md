# phytium_mci

Driver core for the Phytium SD/MMC host controller (SDIF) and the GICv3
interrupt controller that serves it, written in Verus.

- `src/` is the verified library: byte-order helpers, transfer event flags,
  interrupt decoding, command conversion, GIC set-up decisions, the interrupt
  handler table, and the host configuration.  Register reads are handed in as
  closures or values; register writes come back as values.
- `app/` performs the hardware side: volatile register access, AArch64
  system registers, the global handler table and event object behind locks,
  and the memory pool.
- `tests/` runs the library on concrete values.
