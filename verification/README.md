# ws63_hal

Drivers for the HiSilicon WS63 / BS2X RISC-V SoCs, written in Verus.

- `src/` is the verified library: the RF power-up sequence, the shared-RAM
  ownership sequence, the PDM bring-up value, the USB presence test and the
  WLMAC diagnostic decoders, with contracts that state their results and
  laws over a model of the register fields they write. The constructors
  state which tokens the drivers hold.
- `app/` performs the register accesses, delays and critical sections that
  the library's steps ask for, through register-access traits that the
  SoC's peripheral access crate implements.
- `tests/` runs the library on concrete values.
