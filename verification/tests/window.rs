use dmg_2025::window::instructions::{
    digit_runs_within, hex_digit, parse_opcode, InstructionDB, InstructionInfo, RawEntry,
    MAX_DIGIT_RUN,
};
use dmg_2025::window::menu::{step_palette, step_scale, step_slot, MenuPage};

fn info(mnemonic: &str, bytes: u8) -> InstructionInfo {
    InstructionInfo::new(mnemonic.to_string(), format!("what {} does", mnemonic), bytes)
}

#[test]
fn instruction_info_keeps_its_parts() {
    let nop = InstructionInfo::new("NOP".to_string(), "No operation".to_string(), 1);
    assert_eq!(nop.mnemonic, "NOP");
    assert_eq!(nop.desc, "No operation");
    assert_eq!(nop.bytes, 1);
}

#[test]
fn hexadecimal_digits() {
    assert_eq!(hex_digit(b'0'), Some(0));
    assert_eq!(hex_digit(b'9'), Some(9));
    assert_eq!(hex_digit(b'A'), Some(10));
    assert_eq!(hex_digit(b'F'), Some(15));
    assert_eq!(hex_digit(b'a'), Some(10));
    assert_eq!(hex_digit(b'f'), Some(15));
    for c in [b'/', b':', b'@', b'G', b'`', b'g', b' ', 0u8, 0xFF] {
        assert_eq!(hex_digit(c), None);
    }
}

#[test]
fn opcodes_named_in_text() {
    assert_eq!(parse_opcode(b"00"), Some((0x00, false)));
    assert_eq!(parse_opcode(b"3E"), Some((0x3E, false)));
    assert_eq!(parse_opcode(b"fe"), Some((0xFE, false)));
    assert_eq!(parse_opcode(b"F"), Some((0x0F, false)));
    assert_eq!(parse_opcode(b"CB00"), Some((0x00, true)));
    assert_eq!(parse_opcode(b"CB7C"), Some((0x7C, true)));
    assert_eq!(parse_opcode(b"CBF"), Some((0x0F, true)));
    // The escape byte alone is the mark with nothing behind it
    assert_eq!(parse_opcode(b"CB"), None);
    // The mark is in capitals
    assert_eq!(parse_opcode(b"cb"), Some((0xCB, false)));
    assert_eq!(parse_opcode(b""), None);
    assert_eq!(parse_opcode(b"0x3E"), None);
    assert_eq!(parse_opcode(b"3G"), None);
    assert_eq!(parse_opcode(b"123"), None);
    assert_eq!(parse_opcode(b"CB123"), None);
    assert_eq!(parse_opcode(b"CBZZ"), None);
}

#[test]
fn opcodes_are_read_as_hexadecimal_numbers() {
    // A plus sign may stand before the digits, and zeros may lead
    assert_eq!(parse_opcode(b"+7F"), Some((0x7F, false)));
    assert_eq!(parse_opcode(b"07F"), Some((0x7F, false)));
    assert_eq!(parse_opcode(b"0000FF"), Some((0xFF, false)));
    assert_eq!(parse_opcode(b"+0"), Some((0x00, false)));
    assert_eq!(parse_opcode(b"CB+7C"), Some((0x7C, true)));
    assert_eq!(parse_opcode(b"CB007C"), Some((0x7C, true)));
    // The number has to fit a byte
    assert_eq!(parse_opcode(b"100"), None);
    assert_eq!(parse_opcode(b"0100"), None);
    assert_eq!(parse_opcode(b"FFFFFFFFFFFFFFFFFFFFFFFF"), None);
    // A sign alone is no number, and there is no minus sign
    assert_eq!(parse_opcode(b"+"), None);
    assert_eq!(parse_opcode(b"CB+"), None);
    assert_eq!(parse_opcode(b"-1"), None);
    assert_eq!(parse_opcode(b"++1"), None);
    // Nothing may stand around the digits
    assert_eq!(parse_opcode(b" 7F"), None);
    assert_eq!(parse_opcode(b"7F "), None);
    assert_eq!(parse_opcode(b"7_F"), None);
    for text in ["0", "7", "a", "1f", "+1F", "00", "ff", "+ff", "0ff", "1ff", "g0", "", "+"] {
        assert_eq!(
            parse_opcode(text.as_bytes()).map(|(opcode, _)| opcode),
            u8::from_str_radix(text, 16).ok(),
            "text {:?}",
            text
        );
    }
}

#[test]
fn rows_of_digits_are_measured() {
    assert!(digit_runs_within(b"", 0));
    assert!(digit_runs_within(b"abc", 0));
    assert!(!digit_runs_within(b"a1c", 0));
    assert!(digit_runs_within(b"12.345e67", 3));
    assert!(!digit_runs_within(b"12.3456e67", 3));
    assert!(digit_runs_within(b"123x123x123", 3));
    assert!(!digit_runs_within(b"x1234", 3));
    assert!(!digit_runs_within(b"1234x", 3));
    // Only the ten digits count
    assert!(digit_runs_within(b"/:/:/:/:", 0));
    assert!(digit_runs_within(b"abcdefABCDEF", 0));
}

fn zeros_behind_the_point(count: usize) -> String {
    format!("[{{\"opCode\": \"00\", \"mnemonic\": \"NOP\", \"description\": \"\", \"bytes\": 1}}, 0.{}]", "0".repeat(count))
}

#[test]
fn a_text_with_too_long_a_row_of_digits_is_not_read() {
    match InstructionDB::from_json(&zeros_behind_the_point(MAX_DIGIT_RUN)) {
        Some(db) => assert_eq!(db.get(0x00, false).mnemonic, "NOP"),
        None => panic!("text refused"),
    }
    assert!(InstructionDB::from_json(&zeros_behind_the_point(MAX_DIGIT_RUN + 1)).is_none());
    assert!(InstructionDB::from_json(&zeros_behind_the_point(MAX_DIGIT_RUN + 2)).is_none());
    assert!(InstructionDB::from_json(&"7".repeat(40000)).is_none());
    assert!(InstructionDB::from_json(&format!("1e{}", "9".repeat(40000))).is_none());
}

#[test]
fn the_byte_count_is_a_plain_integer() {
    let text = r#"[
        {"opCode": "01", "mnemonic": "a", "description": "", "bytes": 3},
        {"opCode": "02", "mnemonic": "b", "description": "", "bytes": 1.0},
        {"opCode": "03", "mnemonic": "c", "description": "", "bytes": 1e1},
        {"opCode": "04", "mnemonic": "d", "description": "", "bytes": -1},
        {"opCode": "05", "mnemonic": "e", "description": "", "bytes": "2"},
        {"opCode": "06", "mnemonic": "f", "description": "", "bytes": 256},
        {"opCode": "07", "mnemonic": "g", "description": "", "bytes": 255},
        {"opCode": "08", "mnemonic": "h", "description": "", "bytes": 20e-1},
        {"opCode": "+9", "mnemonic": "i", "description": "", "bytes": 0},
        {"opCode": "0A", "mnemonic": "j", "description": "", "bytes": 1.5e1},
        {"opCode": "0B", "mnemonic": "k", "description": "", "bytes": 0.0}
    ]"#;
    let db = match InstructionDB::from_json(text) {
        Some(db) => db,
        None => panic!("text refused"),
    };
    assert_eq!(db.get(0x01, false).bytes, 3);
    assert_eq!(db.get(0x07, false).bytes, 255);
    assert_eq!(db.get(0x09, false).bytes, 0);
    // A fraction and an exponent that cancel out leave a plain integer
    assert_eq!(db.get(0x0A, false).bytes, 15);
    for opcode in [0x02u8, 0x03, 0x04, 0x05, 0x06, 0x08, 0x0B] {
        assert!(!db.contains(opcode, false), "opcode {:#04X}", opcode);
    }
    assert_eq!(db.opcodes_8.len(), 4);
}

#[test]
fn the_database_keeps_two_tables() {
    let mut db = InstructionDB::new();
    assert!(!db.contains(0x00, false));
    assert!(db.find(0x00, false).is_none());
    db.insert(0x00, false, info("NOP", 1));
    db.insert(0x00, true, info("RLC B", 2));
    db.insert(0x3E, false, info("LD A,d8", 2));
    assert!(db.contains(0x00, false));
    assert!(db.contains(0x00, true));
    assert!(!db.contains(0x3E, true));
    assert_eq!(db.get(0x00, false).mnemonic, "NOP");
    assert_eq!(db.get(0x00, true).mnemonic, "RLC B");
    assert_eq!(db.get(0x00, true).bytes, 2);
    assert_eq!(db.get(0x3E, false).desc, "what LD A,d8 does");
    assert!(db.find(0x3E, true).is_none());
    // A second entry takes the place of the first
    db.insert(0x00, false, info("NOP again", 1));
    assert_eq!(db.get(0x00, false).mnemonic, "NOP again");
    assert_eq!(db.opcodes_8.len(), 2);
    assert_eq!(db.opcodes_16.len(), 1);
}

fn entry(op_code: &str, mnemonic: &str, bytes: Option<u8>) -> RawEntry {
    RawEntry {
        op_code: op_code.to_string(),
        mnemonic: mnemonic.to_string(),
        description: format!("what {} does", mnemonic),
        bytes,
    }
}

#[test]
fn entries_are_filed_under_the_opcode_they_name() {
    let mut db = InstructionDB::new();
    assert!(db.file(&entry("76", "HALT", Some(1))));
    assert!(db.file(&entry("CB37", "SWAP A", Some(2))));
    assert!(!db.file(&entry("CB", "PREFIX", Some(1))));
    assert!(!db.file(&entry("XX", "?", Some(1))));
    assert!(!db.file(&entry("00", "NOP", None)));
    assert_eq!(db.get(0x76, false).mnemonic, "HALT");
    assert_eq!(db.get(0x37, true).mnemonic, "SWAP A");
    assert_eq!(db.get(0x37, true).desc, "what SWAP A does");
    assert_eq!(db.opcodes_8.len(), 1);
    assert_eq!(db.opcodes_16.len(), 1);
}

#[test]
fn of_two_entries_for_an_opcode_the_later_stays() {
    let entries = vec![
        Some(entry("3E", "LD A,d8", Some(2))),
        Some(entry("CB3E", "SRL (HL)", Some(2))),
        Some(entry("3E", "LD A,n", Some(2))),
        Some(entry("zz", "?", Some(1))),
    ];
    let db = InstructionDB::from_entries(&entries);
    assert_eq!(db.opcodes_8.len(), 1);
    assert_eq!(db.opcodes_16.len(), 1);
    assert_eq!(db.get(0x3E, false).mnemonic, "LD A,n");
    assert_eq!(db.get(0x3E, true).mnemonic, "SRL (HL)");
    assert!(InstructionDB::from_entries(&Vec::new()).opcodes_8.is_empty());
}

#[test]
fn the_first_gap_ends_the_filing() {
    let members = vec![
        Some(entry("00", "NOP", Some(1))),
        Some(entry("CB00", "RLC B", Some(2))),
        None,
        Some(entry("01", "LD BC,d16", Some(3))),
        None,
        Some(entry("CB01", "RLC C", Some(2))),
    ];
    let db = InstructionDB::from_entries(&members);
    assert_eq!(db.opcodes_8.len(), 1);
    assert_eq!(db.opcodes_16.len(), 1);
    assert_eq!(db.get(0x00, false).mnemonic, "NOP");
    assert_eq!(db.get(0x00, true).mnemonic, "RLC B");
    assert!(!db.contains(0x01, false));
    assert!(!db.contains(0x01, true));

    let db = InstructionDB::from_entries(&vec![None, Some(entry("00", "NOP", Some(1)))]);
    assert!(db.opcodes_8.is_empty());
    // An entry that is passed over is no gap
    let db = InstructionDB::from_entries(&vec![
        Some(entry("zz", "?", Some(1))),
        Some(entry("00", "NOP", None)),
        Some(entry("76", "HALT", Some(1))),
    ]);
    assert_eq!(db.opcodes_8.len(), 1);
    assert_eq!(db.get(0x76, false).mnemonic, "HALT");
}

const DATABASE: &str = r#"[
    {"opCode": "00", "mnemonic": "NOP", "description": "No operation", "bytes": 1},
    {"opCode": "C3", "mnemonic": "JP a16", "description": "Jump to address", "bytes": 3},
    {"opCode": "CB", "mnemonic": "PREFIX CB", "description": "Escape", "bytes": 1},
    {"opCode": "CB7C", "mnemonic": "BIT 7,H", "description": "Test bit 7 of H", "bytes": 2},
    {"opCode": "D3", "mnemonic": "-", "description": "No instruction"},
    {"opCode": "E8", "mnemonic": "ADD SP,r8", "description": "Add to SP", "bytes": 300},
    {"mnemonic": "lost", "description": "No opcode", "bytes": 1},
    null,
    {"opCode": "76", "mnemonic": "HALT", "description": "Halt \"until\" interrupt", "bytes": 1}
]"#;

#[test]
fn the_database_is_read_from_json() {
    let db = match InstructionDB::from_json(DATABASE) {
        Some(db) => db,
        None => panic!("text refused"),
    };
    assert_eq!(db.opcodes_8.len(), 2);
    assert_eq!(db.opcodes_16.len(), 1);
    assert_eq!(db.get(0x00, false).mnemonic, "NOP");
    assert_eq!(db.get(0x00, false).desc, "No operation");
    assert_eq!(db.get(0x00, false).bytes, 1);
    assert_eq!(db.get(0xC3, false).mnemonic, "JP a16");
    assert_eq!(db.get(0xC3, false).bytes, 3);
    assert_eq!(db.get(0x7C, true).mnemonic, "BIT 7,H");
    // The escape byte names no opcode, and an entry without a byte count, or
    // with one that is no byte, is passed over
    assert!(!db.contains(0xCB, false));
    assert!(!db.contains(0xD3, false));
    assert!(!db.contains(0xE8, false));
    // The member that is null ends the filing: what follows it is not read
    assert!(!db.contains(0x76, false));
    let without_gap = DATABASE.replace("null,", "");
    match InstructionDB::from_json(&without_gap) {
        Some(db) => {
            assert_eq!(db.opcodes_8.len(), 3);
            assert_eq!(db.get(0x76, false).desc, "Halt \"until\" interrupt");
        },
        None => panic!("text refused"),
    }
}

#[test]
fn what_is_no_json_gives_no_database() {
    assert!(InstructionDB::from_json("[{\"opCode\": \"00\"").is_none());
    assert!(InstructionDB::from_json("").is_none());
    assert!(InstructionDB::from_json("NOP").is_none());
    // A text that is JSON but no array holds no entry
    for text in ["{}", "null", "7", "\"00\"", "[]"] {
        match InstructionDB::from_json(text) {
            Some(db) => assert!(db.opcodes_8.is_empty() && db.opcodes_16.is_empty()),
            None => panic!("text refused"),
        }
    }
}

#[test]
fn slots_go_round() {
    let mut slot = 1;
    let mut seen = Vec::new();
    for _ in 0..9 {
        seen.push(slot);
        slot = step_slot(slot, true);
    }
    assert_eq!(seen, vec![1, 2, 3, 4, 5, 6, 7, 8, 9]);
    assert_eq!(slot, 1);
    assert_eq!(step_slot(1, false), 9);
    assert_eq!(step_slot(9, false), 8);
    assert_eq!(step_slot(9, true), 1);
    // What is no slot leads back among the slots
    assert_eq!(step_slot(0, true), 1);
    assert_eq!(step_slot(0, false), 9);
    assert_eq!(step_slot(200, true), 1);
    assert_eq!(step_slot(200, false), 9);
}

#[test]
fn the_scale_stops_at_its_limits() {
    assert_eq!(step_scale(4, true), 5);
    assert_eq!(step_scale(4, false), 3);
    assert_eq!(step_scale(8, true), 8);
    assert_eq!(step_scale(2, false), 2);
    assert_eq!(step_scale(7, true), 8);
    assert_eq!(step_scale(3, false), 2);
}

#[test]
fn palettes_go_round() {
    assert_eq!(step_palette(0, true), 1);
    assert_eq!(step_palette(1, true), 2);
    assert_eq!(step_palette(2, true), 0);
    assert_eq!(step_palette(0, false), 2);
    assert_eq!(step_palette(2, false), 1);
    assert_eq!(step_palette(1, false), 0);
    assert_eq!(step_palette(77, true), 0);
    assert_eq!(step_palette(77, false), 2);
}

#[test]
fn menu_pages_are_told_apart() {
    let pages = [MenuPage::Main, MenuPage::Input, MenuPage::Options, MenuPage::Info];
    for (i, a) in pages.iter().enumerate() {
        for (j, b) in pages.iter().enumerate() {
            assert_eq!(a == b, i == j);
        }
    }
}
