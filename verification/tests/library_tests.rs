use cicasm::assemble;
use cicasm::assembler::build_symbol_table;
use cicasm::assembler::constant_table::ConstantTable;
use cicasm::ast::AssemblyLine;
use cicasm::assembler::encoder::{calculate_instruction_size, encode_instruction};
use cicasm::assembler::symbol_table::{Symbol, SymbolTable};
use cicasm::assembler::tile_converter::{PixelImage, TileConverter};
use cicasm::ast::{ConditionCode, Directive, Instruction, Operand, Register};
use cicasm::errors::AssemblyError;
use cicasm::file_reader::{FileReader, MockFileReader};
use cicasm::parser::{incbin_line, parse_source, parse_source_recursive};

const BANK_SIZE: usize = 16384;

fn reader_with(files: &[(&str, &str)]) -> MockFileReader {
    let mut reader = MockFileReader::default();
    for (path, text) in files {
        reader.add_file(path, text);
    }
    reader
}

fn solid_image(width: u32, height: u32, r: u8, g: u8, b: u8) -> PixelImage {
    let mut rgba = Vec::new();
    for _ in 0..(width * height) {
        rgba.extend_from_slice(&[r, g, b, 255]);
    }
    PixelImage { width, height, rgba }
}

// ---- laws on concrete values ----

#[test]
fn law_encoding_length_is_instruction_size() {
    let mut symbol_table = SymbolTable::new();
    symbol_table.insert("FAR".to_string(), Symbol { logical_address: 0x4100, bank: 2 });
    symbol_table.insert("NEAR".to_string(), Symbol { logical_address: 0x0010, bank: 0 });
    let instructions = vec![
        Instruction::Nop,
        Instruction::AndReg(Register::R1, Register::R2),
        Instruction::LdiB(Register::R3, Operand::Immediate(7)),
        Instruction::CallccI(ConditionCode::Z, Operand::Label("NEAR".to_string())),
        Instruction::CallFar("FAR".to_string()),
        Instruction::JmpFar("FAR".to_string()),
    ];
    for instruction in instructions {
        let bytes = encode_instruction(&instruction, &symbol_table, &0, &1, &1).unwrap();
        assert_eq!(bytes.len() as u32, calculate_instruction_size(&instruction));
    }
}

#[test]
fn law_rom_is_whole_banks_padded_with_ff() {
    let reader = reader_with(&[("test.asm", ".bank 2\n.org 0x4000\nNOP\n")]);
    let rom = assemble("test.asm", 0x7FFF, None, None, &reader).unwrap();
    assert_eq!(rom.len() % BANK_SIZE, 0);
    assert_eq!(rom.len(), BANK_SIZE * 3);
    assert_eq!(rom[0], 0xFF);
    assert_eq!(rom[2 * BANK_SIZE], 0x00);
    assert_eq!(rom[2 * BANK_SIZE + 1], 0xFF);
}

#[test]
fn law_empty_program_is_two_blank_banks() {
    let reader = reader_with(&[("test.asm", "; nothing here\n")]);
    let rom = assemble("test.asm", 0x7FFF, None, None, &reader).unwrap();
    assert_eq!(rom.len(), BANK_SIZE * 2);
    assert!(rom.iter().all(|b| *b == 0xFF));
}

#[test]
fn law_label_address_is_where_its_code_lands() {
    let reader = reader_with(&[(
        "test.asm",
        "NOP\n.org 0x0010\nL1:\n.byte 1, 2, 3\nL2: HALT\n.align 4\nL3:\nJMP L1\nJMP L2\nJMP L3\n",
    )]);
    let rom = assemble("test.asm", 0x3FFF, None, None, &reader).unwrap();
    assert_eq!(rom[0x0000], 0x00);
    assert!(rom[0x0001..0x0010].iter().all(|b| *b == 0x00));
    assert_eq!(&rom[0x0010..0x0013], &[1, 2, 3]);
    assert_eq!(rom[0x0013], 0x0F);
    assert_eq!(&rom[0x0014..0x0017], &[0x51, 0x10, 0x00]);
    assert_eq!(&rom[0x0017..0x001A], &[0x51, 0x13, 0x00]);
    assert_eq!(&rom[0x001A..0x001D], &[0x51, 0x14, 0x00]);
}

#[test]
fn law_calculated_size_is_tile_data_length() {
    let img = solid_image(24, 16, 10, 20, 30);
    let tiles = TileConverter::convert_image_to_tiles(&img, None, None, None, None, 1).unwrap();
    let size = TileConverter::calculate_size(&img, None, None, None, None, 1).unwrap();
    assert_eq!(tiles.len() as u32, size);
    assert_eq!(size, 6 * 32);
}

#[test]
fn law_mock_reader_reads_back_what_was_added() {
    let mut reader = MockFileReader::default();
    reader.add_file("a.asm", "first");
    reader.add_file("a.asm", "second");
    reader.add_binary_file("b.bin", &[1, 2, 3]);
    assert_eq!(reader.read_to_string("a.asm"), Ok("second".to_string()));
    assert_eq!(reader.read_binary("b.bin"), Ok(vec![1, 2, 3]));
}

#[test]
fn law_included_lines_replace_the_include() {
    let reader = reader_with(&[("main.asm", "NOP\n.include \"inc.asm\"\nHALT\n"), ("inc.asm", "RET\n")]);
    let mut stack = Vec::new();
    let lines = parse_source_recursive("main.asm", &mut stack, &reader).unwrap();
    assert!(stack.is_empty());
    let instructions: Vec<Instruction> = lines.iter().map(|l| l.instruction.clone().unwrap()).collect();
    assert_eq!(instructions, vec![Instruction::Nop, Instruction::Ret, Instruction::Halt]);
}

// ---- parsing ----

#[test]
fn parse_label_and_instruction_on_one_line() {
    let lines = parse_source("START: NOP ; the first line\n").unwrap();
    assert_eq!(lines.len(), 2);
    assert_eq!(lines[0].label, Some("START".to_string()));
    assert_eq!(lines[0].line_number, 1);
    assert_eq!(lines[0].instruction, None);
    assert_eq!(lines[1].instruction, Some(Instruction::Nop));
    assert_eq!(lines[1].line_number, 1);
    assert_eq!(lines[1].label, None);
}

#[test]
fn parse_keeps_include_directive() {
    let lines = parse_source("\n.include \"other.asm\"\n").unwrap();
    assert_eq!(lines.len(), 1);
    assert_eq!(lines[0].line_number, 2);
    assert_eq!(lines[0].directive, Some(Directive::Include("other.asm".to_string())));
}

#[test]
fn parse_far_call_via() {
    let lines = parse_source("call.far TARGET via TRAMP\n").unwrap();
    assert_eq!(
        lines[0].instruction,
        Some(Instruction::CallFarVia("TARGET".to_string(), "TRAMP".to_string()))
    );
}

#[test]
fn parse_unknown_instruction_is_syntax_error() {
    let result = parse_source("NOP\nFOO r1\n");
    assert_eq!(
        result.unwrap_err(),
        AssemblyError::SyntaxError { line: 2, reason: "Unknown instruction: foo".to_string() }
    );
}

#[test]
fn parse_unknown_directive_is_syntax_error() {
    let result = parse_source(".frobnicate 1\n");
    assert_eq!(
        result.unwrap_err(),
        AssemblyError::SyntaxError { line: 1, reason: "Unknown directive: .frobnicate".to_string() }
    );
}

#[test]
fn parse_label_inside_block_is_error() {
    let result = parse_source(".header_start\nX: .title \"a\"\n.header_end\n");
    assert_eq!(
        result.unwrap_err(),
        AssemblyError::SyntaxError {
            line: 2,
            reason: "A label cannot stand inside a .header_start or .interrupt_table block.".to_string(),
        }
    );
}

#[test]
fn parse_instruction_inside_block_is_error() {
    let result = parse_source(".interrupt_table\nNOP\n.table_end\n");
    assert_eq!(
        result.unwrap_err(),
        AssemblyError::SyntaxError {
            line: 2,
            reason: "Only directives can stand inside a .header_start or .interrupt_table block.".to_string(),
        }
    );
}

#[test]
fn parse_unterminated_table_is_error() {
    let result = parse_source("NOP\n.interrupt_table\n.word 1\n");
    assert_eq!(
        result.unwrap_err(),
        AssemblyError::SyntaxError {
            line: 2,
            reason: "Unterminated .interrupt_table block: .table_end is missing.".to_string(),
        }
    );
}

#[test]
fn parse_unterminated_header_is_error() {
    let result = parse_source(".header_start\n.version 1\n");
    assert_eq!(
        result.unwrap_err(),
        AssemblyError::SyntaxError {
            line: 1,
            reason: "Unterminated .header_start block: .header_end is missing.".to_string(),
        }
    );
}

#[test]
fn parse_short_interrupt_table_is_error() {
    let result = parse_source(".interrupt_table\n.word 1, 2\n.table_end\n");
    assert_eq!(
        result.unwrap_err(),
        AssemblyError::StructuralError {
            line: 1,
            reason: "Vector interrupt table must contain at least 12 entries and at most 16 entries.".to_string(),
        }
    );
}

#[test]
fn parse_circular_include_is_error() {
    let reader = reader_with(&[("a.asm", ".include \"b.asm\"\n"), ("b.asm", "NOP\n.include \"a.asm\"\n")]);
    let mut stack = Vec::new();
    let result = parse_source_recursive("a.asm", &mut stack, &reader);
    assert_eq!(
        result.unwrap_err(),
        AssemblyError::CircularIncludeError { line: 2, reason: "Circular include detected. (a.asm)".to_string() }
    );
}

#[test]
fn parse_missing_file_is_error() {
    let reader = MockFileReader::default();
    let mut stack = Vec::new();
    let result = parse_source_recursive("missing.asm", &mut stack, &reader);
    assert_eq!(
        result.unwrap_err(),
        AssemblyError::FileError { reason: "Failed to read input file: missing.asm".to_string() }
    );
}

#[test]
fn parse_missing_binary_is_error() {
    let reader = reader_with(&[("test.asm", ".incbin \"gone.bin\"\n")]);
    let mut stack = Vec::new();
    let result = parse_source_recursive("test.asm", &mut stack, &reader);
    assert_eq!(
        result.unwrap_err(),
        AssemblyError::FileError { reason: "Failed to read binary file: gone.bin".to_string() }
    );
}

#[test]
fn incbin_becomes_byte_directive() {
    let line = incbin_line(7, &vec![0x00, 0x7F, 0xFF]);
    assert_eq!(line.line_number, 7);
    assert_eq!(line.label, None);
    assert_eq!(
        line.directive,
        Some(Directive::Byte(vec![Operand::Immediate(0), Operand::Immediate(127), Operand::Immediate(255)]))
    );
}

// ---- the mock file reader ----

#[test]
fn mock_reader_messages() {
    let mut reader = MockFileReader::default();
    reader.add_file("t.asm", "NOP");
    reader.add_binary_file("d.bin", &[9]);
    assert_eq!(reader.read_to_string("x.asm"), Err("Mock file not found: x.asm".to_string()));
    assert_eq!(reader.read_binary("x.bin"), Err("Mock file not found: x.bin".to_string()));
    assert_eq!(reader.read_to_string("d.bin"), Err("Cannot read binary file as string: d.bin".to_string()));
    assert_eq!(reader.read_binary("t.asm"), Err("Cannot read text file as binary: t.asm".to_string()));
}

// ---- assembling ----

#[test]
fn assemble_undefined_label_is_semantic_error() {
    let reader = reader_with(&[("test.asm", "NOP\nJMP NOWHERE\n")]);
    let result = assemble("test.asm", 0x3FFF, None, None, &reader);
    assert_eq!(
        result,
        Err(AssemblyError::SemanticError { line: 2, reason: "Undefined label: NOWHERE".to_string() })
    );
}

#[test]
fn assemble_duplicate_label_is_semantic_error() {
    let reader = reader_with(&[("test.asm", "A:\nNOP\nA:\n")]);
    let result = assemble("test.asm", 0x3FFF, None, None, &reader);
    assert_eq!(
        result,
        Err(AssemblyError::SemanticError { line: 3, reason: "Duplicate label definition: A".to_string() })
    );
}

#[test]
fn assemble_missing_header_is_error() {
    let reader = reader_with(&[("test.asm", "NOP\n")]);
    let result = assemble("test.asm", 0x7FFF, None, Some(0x0000), &reader);
    assert_eq!(
        result,
        Err(AssemblyError::StructuralErrorNoLine { reason: "Expected cartridge rom header at 0x0000".to_string() })
    );
}

#[test]
fn assemble_unclosed_section_is_error() {
    let reader = reader_with(&[("test.asm", ".section name=\"main\"\nNOP\n")]);
    let result = assemble("test.asm", 0x7FFF, None, None, &reader);
    assert_eq!(
        result,
        Err(AssemblyError::StructuralErrorNoLine {
            reason: "section \"main\" has no matching .section_end statement.".to_string(),
        })
    );
}

#[test]
fn assemble_word_data_is_little_endian() {
    let reader = reader_with(&[("test.asm", ".word 0x1234, LBL\nLBL:\n.byte 7\n")]);
    let rom = assemble("test.asm", 0x3FFF, None, None, &reader).unwrap();
    assert_eq!(&rom[0..5], &[0x34, 0x12, 0x04, 0x00, 0x07]);
    assert_eq!(rom[5], 0xFF);
}

// ---- tile conversion ----

#[test]
fn tiles_white_and_black() {
    let mut img = solid_image(16, 8, 255, 255, 255);
    for row in 0..8 {
        for col in 8..16 {
            let o = (row * 16 + col) * 4;
            img.rgba[o] = 0;
            img.rgba[o + 1] = 0;
            img.rgba[o + 2] = 0;
        }
    }
    let tiles = TileConverter::convert_image_to_tiles(&img, None, None, None, None, 3).unwrap();
    assert_eq!(tiles.len(), 64);
    assert!(tiles[0..32].iter().all(|b| *b == 0xFF));
    assert!(tiles[32..64].iter().all(|b| *b == 0x00));
}

#[test]
fn tiles_mid_grey_sets_three_planes() {
    let img = solid_image(8, 8, 128, 128, 128);
    let tiles = TileConverter::convert_image_to_tiles(&img, None, None, None, None, 3).unwrap();
    assert!(tiles[0..24].iter().all(|b| *b == 0xFF));
    assert!(tiles[24..32].iter().all(|b| *b == 0x00));
}

#[test]
fn tiles_left_column_sets_high_bit() {
    let mut img = solid_image(8, 8, 0, 0, 0);
    for row in 0..8 {
        let o = row * 8 * 4;
        img.rgba[o] = 255;
        img.rgba[o + 1] = 255;
        img.rgba[o + 2] = 255;
    }
    let tiles = TileConverter::convert_image_to_tiles(&img, None, None, None, None, 3).unwrap();
    assert!(tiles.iter().all(|b| *b == 0x80));
}

#[test]
fn tiles_region_is_cut_from_the_image() {
    let mut img = solid_image(16, 16, 0, 0, 0);
    let o = (8 * 16 + 8) * 4;
    img.rgba[o] = 255;
    img.rgba[o + 1] = 255;
    img.rgba[o + 2] = 255;
    let tiles = TileConverter::convert_image_to_tiles(&img, Some(8), Some(8), Some(8), Some(8), 3).unwrap();
    assert_eq!(tiles.len(), 32);
    for plane in 0..4 {
        assert_eq!(tiles[plane * 8], 0x80);
        assert_eq!(tiles[plane * 8 + 1], 0x00);
    }
}

#[test]
fn tiles_dimension_errors() {
    let img = solid_image(8, 8, 0, 0, 0);
    let cases = vec![
        (Some(4), Some(0), Some(8), Some(8), "X coordinate 4 must be a multiple of 8"),
        (Some(0), Some(3), Some(8), Some(8), "Y coordinate 3 must be a multiple of 8"),
        (Some(0), Some(0), Some(12), Some(8), "Width 12 must be a multiple of 8"),
        (Some(0), Some(0), Some(8), Some(9), "Height 9 must be a multiple of 8"),
        (Some(8), Some(0), Some(8), Some(8), "Region exceeds image width (x=8, width=8, image_width=8)"),
        (Some(0), Some(0), Some(8), Some(16), "Region exceeds image height (y=0, height=16, image_height=8)"),
    ];
    for (x, y, w, h, msg) in cases {
        let expected = Err(AssemblyError::ImageDimensionError { line: 5, reason: msg.to_string() });
        assert_eq!(TileConverter::convert_image_to_tiles(&img, x, y, w, h, 5), expected);
        let size_expected = Err(AssemblyError::ImageDimensionError { line: 5, reason: msg.to_string() });
        assert_eq!(TileConverter::calculate_size(&img, x, y, w, h, 5), size_expected);
    }
}

#[test]
fn tiles_partial_region_uses_whole_image() {
    let img = solid_image(16, 8, 0, 0, 0);
    assert_eq!(TileConverter::calculate_size(&img, Some(8), None, None, None, 1), Ok(64));
}

#[test]
fn parse_self_include_is_circular() {
    let reader = reader_with(&[("a.asm", ".include \"a.asm\"\n")]);
    let mut stack = Vec::new();
    let result = parse_source_recursive("a.asm", &mut stack, &reader);
    assert_eq!(
        result.unwrap_err(),
        AssemblyError::CircularIncludeError { line: 1, reason: "Circular include detected. (a.asm)".to_string() }
    );
}

#[test]
fn label_free_encoding_ignores_address_and_symbols() {
    let mut symbols = SymbolTable::new();
    symbols.insert("X".to_string(), Symbol { logical_address: 0x1234, bank: 3 });
    let empty = SymbolTable::new();
    let instruction = Instruction::JrI(Operand::Immediate(-2));
    assert_eq!(
        encode_instruction(&instruction, &symbols, &0x4321, &3, &1),
        encode_instruction(&instruction, &empty, &0, &0, &1)
    );
}

#[test]
fn paths_naming_the_same_file_agree() {
    let mut reader = MockFileReader::default();
    reader.add_file("lib/a.asm", "NOP\n");
    assert_eq!(reader.read_to_string("lib//a.asm"), Ok("NOP\n".to_string()));
    assert_eq!(reader.read_to_string("lib/./a.asm"), Ok("NOP\n".to_string()));
    assert_eq!(reader.read_to_string("lib/a.asm/"), Ok("NOP\n".to_string()));
    assert!(reader.read_to_string("/lib/a.asm").is_err());
    reader.add_file("lib//a.asm", "HALT\n");
    assert_eq!(reader.read_to_string("lib/a.asm"), Ok("HALT\n".to_string()));
}

#[test]
fn circular_include_through_another_spelling() {
    let reader = reader_with(&[("x/a.asm", ".include \"x//a.asm\"\n")]);
    let mut stack = Vec::new();
    let result = parse_source_recursive("x/a.asm", &mut stack, &reader);
    assert_eq!(
        result.unwrap_err(),
        AssemblyError::CircularIncludeError { line: 1, reason: "Circular include detected. (x//a.asm)".to_string() }
    );
}

#[test]
fn highest_bank_that_fits_is_accepted() {
    let constants = ConstantTable::new();
    let lines = vec![
        AssemblyLine {
            line_number: 1,
            label: None,
            instruction: None,
            directive: Some(Directive::Bank(Operand::Immediate(262143))),
        },
        AssemblyLine { line_number: 2, label: Some("TOP".to_string()), instruction: None, directive: None },
    ];
    let table = build_symbol_table(&lines, &0x7FFF, None, None, &constants).unwrap();
    assert_eq!(table.get(&"TOP".to_string()), Some(&Symbol { logical_address: 0, bank: 262143 }));
    let beyond = vec![AssemblyLine {
        line_number: 1,
        label: None,
        instruction: None,
        directive: Some(Directive::Bank(Operand::Immediate(262144))),
    }];
    match build_symbol_table(&beyond, &0x7FFF, None, None, &constants) {
        Ok(_) => panic!("a bank beyond the 32 bit range was accepted"),
        Err(e) => assert_eq!(
            e,
            AssemblyError::StructuralError { line: 1, reason: "ROM bank 262144 overflow.".to_string() }
        ),
    }
}
