# cicasm

The assembler of the Cicada-16 fantasy console, as a library whose behaviour
is stated in contracts and proved with Verus, and a small command line
program around it.

- `src/parser/`: the assembly language. `line.rs` cuts a source line into its
  label, its mnemonic or directive name and its operand texts; `program.rs`
  groups lines into items (header and interrupt table blocks become one
  item); `ast_builder/` builds each instruction and directive; `mod.rs`
  parses whole files and expands `.include` and `.incbin`.
- `src/assembler/`: constants (`preprocessor/`), pass 1 (`symbol_pass.rs`,
  the symbol table), pass 2 (`code_pass.rs`, the rom image), the instruction
  encoder (`encoder/`), the laws that tie the two passes together
  (`passes.rs`) and the conversion of images to tile data
  (`tile_converter.rs`).
- `src/file_reader.rs`: where source files come from, and an in-memory file
  system for tests.
- `app/`: the command line program: argument handling, reading and writing
  files, loading images.
