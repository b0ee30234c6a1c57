# soc

SoC support for a firmware project: the register-level drivers of several
systems on chip, written in Verus with their behaviour stated in contracts and
proved.

## Layout

- `src/mmio.rs`: the register model that the drivers work on. An `Mmio` holds
  the contents of 32-bit registers and the ordered list of writes made to them, each with its width;
  a `RegOp` sequence is a register program (writes, read-modify-writes, waits
  for bits) that the platform carries out in order.
- `src/pci.rs`: PCI configuration space on top of the register model.
- `src/intel`: Gemini Lake / Apollo Lake blocks: PCR access and the P2SB
  sideband transaction (a state machine driven by the platform), GPIO
  communities and pad configuration, ITSS, LPC, P2SB, PMC, memory init.
- `src/sunxi/d1`: Allwinner D1: GPIO pins, CCU gating and reset, UART, SPI
  (clock divider search, bring-up program, FIFO transfer session), CLINT,
  and the SD/MMC host (controller programs, card initialisation session, DMA
  descriptor chains; the card's CSD is decoded by `embedded-sdmmc`).
- `src/sunxi/board`: the D1 board's register map and CCU driver.
- `src/sifive`: FU540 DDR controller set-up.
- `src/starfive/jh7100`: JH7100 clock, reset, pad and system control fields
  and their drivers.
- `src/amd`: AMD PCI configuration addresses and the Rome mailboxes.
- `src/southbridge`: Intel 82371EB wake-up sleep type.
- `app/`: the platform layer: volatile bus access, the interpreters of the
  register and controller programs, the loops that feed the sessions, the
  loading of the registers that the GPIO driver reads, the FU540 DDR start-up,
  and the `embedded-hal` trait implementations.
- `tests/`: tests of the library on concrete values.

## How the drivers meet the hardware

A driver either updates an `Mmio` that the platform loads from and replays to
the bus, or appends to a program that the platform runs. Where a driver has to
decide on what the hardware answers as it goes (sideband transactions, SD card
initialisation, SPI FIFO transfers), it is a session: the platform performs
the action that the session asks for and hands back what it read.
