# viv32

The VIV-32 architecture's reference emulator and toolchain, as a library whose
behaviour is stated in `requires`/`ensures` contracts and proved with Verus.

- `src/isa` — instruction encoding and decoding (with the law that decoding an
  encoded instruction gives it back, an `addi`, `subi` or `cmpi` immediate
  from 0x8000 to 0xFFFF coming back sign-extended), assembly text and
  disassembly listings.
- `src/emulator` — the processor, its registers and exceptions, the system bus
  and the platform devices (RAM, clock, timer, serial port), and `Machine`.
- `src/assembler` — the assembler: source lines to a relocatable object, with
  the law that its tables hold each name at most once.
- `src/vo` — the relocatable object format, with the law that an object written
  and read again is the same object.
- `src/ld` — the linker: objects to a binary image.
- `src/text.rs`, `src/word.rs` — text and 32-bit word helpers shared by the above.
- `app/` — the command-line tools (`run`, `asm`, `ld`, `dis`): files, standard
  input and output, and the TOML machine description.
- `tests/` — tests of the library on concrete values.
