//! A table of what is known about each instruction, for display: its
//! mnemonic, a description and its length. The table is filled from a JSON
//! text, an array of entries that name their opcode in text.
use std::collections::HashMap;
use vstd::prelude::*;

verus! {

broadcast use vstd::std_specs::hash::group_hash_axioms;

/// Information about a specific instruction
/// Accessed from InstructionDB using the opcode as a key
#[derive(Debug)]
pub struct InstructionInfo {
    pub mnemonic: String,
    pub desc: String,
    pub bytes: u8,
}

impl InstructionInfo {
    /// An entry with the parts given.
    pub fn new(mnemonic: String, desc: String, bytes: u8) -> (r: InstructionInfo)
        ensures
            r.mnemonic == mnemonic,
            r.desc == desc,
            r.bytes == bytes,
    {
        InstructionInfo { mnemonic, desc, bytes }
    }
}

/// Contains information about CPU instructions, used only for debugging.
pub struct InstructionDB {
    /// Regular one byte long opcodes
    pub opcodes_8: HashMap<u8, InstructionInfo>,
    /// Two byte long opcodes, where the first byte is 0xCB
    pub opcodes_16: HashMap<u8, InstructionInfo>,
}

/// An entry of the database as the JSON text gives it: what the entry's
/// members of the four names hold. The three texts are the members as they
/// print. `bytes` is there where the member is a number without a minus sign
/// whose digits, with the decimal point taken out, make a number from 0 to
/// 255, and whose exponent, less the count of digits behind the point, is
/// zero. So `3` gives 3 and `1.5e1` gives 15, while `1.0`, `1e1` and `-1`
/// give none.
pub struct RawEntry {
    pub op_code: String,
    pub mnemonic: String,
    pub description: String,
    pub bytes: Option<u8>,
}

/// The two tables of a database.
pub struct Tables {
    /// The one byte opcodes.
    pub short: Map<u8, InstructionInfo>,
    /// The opcodes behind the escape byte.
    pub long: Map<u8, InstructionInfo>,
}

/// The names of the four members that make an entry.
pub const OP_CODE_KEY: &'static str = "opCode";

pub const MNEMONIC_KEY: &'static str = "mnemonic";

pub const DESCRIPTION_KEY: &'static str = "description";

pub const BYTES_KEY: &'static str = "bytes";

/// The longest row of decimal digits that a text may hold to be read as
/// JSON. The reader counts the digits of a fraction in a 16-bit number.
pub const MAX_DIGIT_RUN: usize = 32767;

/// Whether a byte is a decimal digit.
pub open spec fn spec_is_decimal(c: u8) -> bool {
    0x30 <= c <= 0x39
}

/// The length of the row of decimal digits that ends just before the byte at
/// `end`.
pub open spec fn spec_digit_run(text: Seq<u8>, end: int) -> nat
    decreases end,
{
    if end <= 0 || end > text.len() || !spec_is_decimal(text[end - 1]) {
        0
    } else {
        1 + spec_digit_run(text, end - 1)
    }
}

/// Whether no run of decimal digits in `text` is longer than `limit`.
pub open spec fn spec_digit_runs_within(text: Seq<u8>, limit: nat) -> bool {
    forall|end: int| 0 <= end <= text.len() ==> #[trigger] spec_digit_run(text, end) <= limit
}

/// Whether no run of decimal digits in `text` is longer than `limit`.
pub fn digit_runs_within(text: &[u8], limit: usize) -> (r: bool)
    ensures
        r == spec_digit_runs_within(text@, limit as nat),
{
    let mut run: usize = 0;
    let mut i: usize = 0;
    while i < text.len()
        invariant
            i <= text@.len(),
            run == spec_digit_run(text@, i as int),
            run <= i,
            forall|end: int| 0 <= end <= i ==> #[trigger] spec_digit_run(text@, end) <= limit,
        decreases text@.len() - i,
    {
        if text[i] >= 0x30 && text[i] <= 0x39 {
            run = run + 1;
        } else {
            run = 0;
        }
        i += 1;
        assert(run == spec_digit_run(text@, i as int));
        if run > limit {
            return false;
        }
    }
    true
}

/// The members of the array that the JSON text `text` holds, or nothing if
/// `text` is no JSON text: what `json::parse` makes of the text, as far as it
/// is read under the four member names given. A member that is `null` is no
/// entry and stands as a gap.
pub uninterp spec fn spec_json_entries(
    text: Seq<char>,
    op_code: Seq<char>,
    mnemonic: Seq<char>,
    description: Seq<char>,
    bytes: Seq<char>,
) -> Option<Seq<Option<RawEntry>>>;

/// Calls `json::parse` on the text and, where that succeeds, goes through
/// the members of the value that it returns (`JsonValue::members`, which
/// gives none for a value that is no array). A member that `is_null` gives
/// a gap. From every other it takes the four parts of an entry: the members
/// of the first three names as `to_string` prints them, and the member of the
/// fourth name as `as_u8` reads it. None of this is proved. The contract claims one thing of it: the entries are a
/// function of the text and the names. A text with a row of more than 32767
/// decimal digits is left out: the reader counts the digits of a fraction in
/// a 16-bit number without a check, and with more of them it stops with a
/// panic or counts wrongly.
#[verifier::external_body]
fn json_entries(text: &str, op_code: &str, mnemonic: &str, description: &str, bytes: &str) -> (r:
    Option<Vec<Option<RawEntry>>>)
    requires
        spec_digit_runs_within(vstd::utf8::encode_utf8(text@), MAX_DIGIT_RUN as nat),
    ensures
        match r {
            Some(members) => spec_json_entries(text@, op_code@, mnemonic@, description@, bytes@)
                == Some(members@),
            None => spec_json_entries(text@, op_code@, mnemonic@, description@, bytes@) is None,
        },
{
    let document = json::parse(text).ok()?;
    let entry = |member: &json::JsonValue|
        RawEntry {
            op_code: member[op_code].to_string(),
            mnemonic: member[mnemonic].to_string(),
            description: member[description].to_string(),
            bytes: member[bytes].as_u8(),
        };
    Some(
        document.members().map(
            |member| if member.is_null() { None } else { Some(entry(member)) },
        ).collect(),
    )
}

/// The plus sign that may stand before the digits of a number.
pub const PLUS: u8 = 0x2B;

/// The two letters, `CB`, that mark an opcode of the secondary table.
pub const PREFIX_MARK: [u8; 2] = [0x43, 0x42];

/// The value of a hexadecimal digit, of either case.
pub open spec fn spec_hex_digit(c: u8) -> Option<u8> {
    if 0x30 <= c <= 0x39 {
        Some((c - 0x30) as u8)
    } else if 0x41 <= c <= 0x46 {
        Some((c - 0x41 + 10) as u8)
    } else if 0x61 <= c <= 0x66 {
        Some((c - 0x61 + 10) as u8)
    } else {
        None
    }
}

/// The number that a row of hexadecimal digits stands for, the first digit
/// counting most; nothing where a byte of the row is no digit. The empty row
/// stands for zero.
pub open spec fn spec_hex_number(digits: Seq<u8>) -> Option<nat>
    decreases digits.len(),
{
    if digits.len() == 0 {
        Some(0)
    } else {
        match (spec_hex_number(digits.drop_last()), spec_hex_digit(digits.last())) {
            (Some(high), Some(low)) => Some(16 * high + low as nat),
            _ => None,
        }
    }
}

/// The text without the plus sign that may stand before the digits.
pub open spec fn spec_unsigned(text: Seq<u8>) -> Seq<u8> {
    if text.len() > 0 && text[0] == PLUS {
        text.subrange(1, text.len() as int)
    } else {
        text
    }
}

/// The byte that a text stands for in hexadecimal: after a plus sign, if one
/// is there, at least one digit and nothing but digits, which together stand
/// for a number up to 255. Zeros may lead. Any other text stands for nothing.
pub open spec fn spec_hex_byte(text: Seq<u8>) -> Option<u8> {
    let digits = spec_unsigned(text);
    if digits.len() == 0 {
        None
    } else {
        match spec_hex_number(digits) {
            Some(number) => if number <= 255 {
                Some(number as u8)
            } else {
                None
            },
            None => None,
        }
    }
}

/// Every start of a row of digits stands for a number, and for none greater
/// than the row itself: a digit more never makes the number smaller, and a
/// byte that is no digit spoils every row that holds it.
pub proof fn lemma_hex_number_grows(digits: Seq<u8>, k: int)
    requires
        0 <= k <= digits.len(),
        spec_hex_number(digits) is Some,
    ensures
        spec_hex_number(digits.take(k)) is Some,
        spec_hex_number(digits.take(k))->Some_0 <= spec_hex_number(digits)->Some_0,
    decreases digits.len(),
{
    if k == digits.len() {
        assert(digits.take(k) =~= digits);
    } else {
        assert(digits.drop_last().take(k) =~= digits.take(k));
        lemma_hex_number_grows(digits.drop_last(), k);
    }
}

/// Whether the text starts with the letters `CB`, which mark an opcode of the
/// secondary table.
pub open spec fn spec_has_prefix(text: Seq<u8>) -> bool {
    text.len() >= 2 && text[0] == 0x43 && text[1] == 0x42
}

/// The opcode that a text names, and whether it belongs to the secondary
/// table: after the mark of the secondary table, if it is there, a byte in
/// hexadecimal.
pub open spec fn spec_parse_opcode(text: Seq<u8>) -> Option<(u8, bool)> {
    if spec_has_prefix(text) {
        match spec_hex_byte(text.subrange(2, text.len() as int)) {
            Some(opcode) => Some((opcode, true)),
            None => None,
        }
    } else {
        match spec_hex_byte(text) {
            Some(opcode) => Some((opcode, false)),
            None => None,
        }
    }
}

/// The value of a hexadecimal digit, of either case.
#[verifier::when_used_as_spec(spec_hex_digit)]
pub fn hex_digit(c: u8) -> (r: Option<u8>)
    ensures
        r == spec_hex_digit(c),
        r matches Some(v) ==> v < 16,
{
    match c {
        0x30..=0x39 => Some(c - 0x30),
        0x41..=0x46 => Some(c - 0x41 + 10),
        0x61..=0x66 => Some(c - 0x61 + 10),
        _ => None,
    }
}

/// Reads a byte in hexadecimal from `text`, from `start` to its end.
fn hex_byte(text: &[u8], start: usize) -> (r: Option<u8>)
    requires
        start <= text@.len(),
    ensures
        r == spec_hex_byte(text@.subrange(start as int, text@.len() as int)),
{
    let len = text.len();
    let ghost whole = text@.subrange(start as int, len as int);
    let first: usize = if start < len && text[start] == PLUS { start + 1 } else { start };
    let ghost digits = text@.subrange(first as int, len as int);
    assert(digits =~= spec_unsigned(whole));
    if first == len {
        return None;
    }
    let mut number: u16 = 0;
    let mut i: usize = first;
    assert(digits.take(0) =~= Seq::<u8>::empty());
    while i < len
        invariant
            first <= i <= len,
            len == text@.len(),
            start <= first,
            digits == text@.subrange(first as int, len as int),
            digits == spec_unsigned(text@.subrange(start as int, len as int)),
            number <= 255,
            spec_hex_number(digits.take(i - first)) == Some(number as nat),
        decreases len - i,
    {
        let ghost longer = digits.take(i - first + 1);
        assert(longer.drop_last() =~= digits.take(i - first));
        assert(longer.last() == text@[i as int]);
        assert(spec_hex_number(longer) == match spec_hex_digit(text@[i as int]) {
            Some(low) => Some(16 * (number as nat) + low as nat),
            None => None,
        });
        match hex_digit(text[i]) {
            Some(digit) => {
                number = 16 * number + (digit as u16);
                if number > 255 {
                    proof {
                        if spec_hex_number(digits) is Some {
                            lemma_hex_number_grows(digits, i - first + 1);
                        }
                    }
                    return None;
                }
            },
            None => {
                proof {
                    if spec_hex_number(digits) is Some {
                        lemma_hex_number_grows(digits, i - first + 1);
                    }
                }
                return None;
            },
        }
        i += 1;
    }
    assert(digits.take(len - first) =~= digits);
    Some(number as u8)
}

/// Reads the opcode that a text names.
pub fn parse_opcode(text: &[u8]) -> (r: Option<(u8, bool)>)
    ensures
        r == spec_parse_opcode(text@),
{
    let long_opcode = text.len() >= 2 && text[0] == PREFIX_MARK[0] && text[1] == PREFIX_MARK[1];
    let start: usize = if long_opcode { 2 } else { 0 };
    assert(!long_opcode ==> text@.subrange(0, text@.len() as int) =~= text@);
    match hex_byte(text, start) {
        Some(opcode) => Some((opcode, long_opcode)),
        None => None,
    }
}

/// The place of the first gap among the members from `start` on, or the
/// number of members if there is none.
pub open spec fn spec_gap_from(members: Seq<Option<RawEntry>>, start: int) -> int
    decreases members.len() - start,
{
    if start < 0 || start >= members.len() || members[start] is None {
        start
    } else {
        spec_gap_from(members, start + 1)
    }
}

/// The entries that stand before the first gap: filing stops there.
pub open spec fn spec_leading(members: Seq<Option<RawEntry>>) -> Seq<RawEntry> {
    Seq::new(spec_gap_from(members, 0) as nat, |i: int| members[i]->Some_0)
}

impl Tables {
    /// The tables without an entry.
    pub open spec fn empty() -> Tables {
        Tables { short: Map::empty(), long: Map::empty() }
    }

    /// The tables with what is known of an opcode entered.
    pub open spec fn insert(self, opcode: u8, long_opcode: bool, info: InstructionInfo) -> Tables {
        if long_opcode {
            Tables { long: self.long.insert(opcode, info), ..self }
        } else {
            Tables { short: self.short.insert(opcode, info), ..self }
        }
    }

    /// The tables after an entry has been filed: under the opcode that it
    /// names, if it names one and says how many bytes the instruction takes;
    /// an entry that does not is passed over.
    pub open spec fn file(self, entry: RawEntry) -> Tables {
        match (spec_parse_opcode(vstd::utf8::encode_utf8(entry.op_code@)), entry.bytes) {
            (Some((opcode, long_opcode)), Some(bytes)) => self.insert(
                opcode,
                long_opcode,
                InstructionInfo { mnemonic: entry.mnemonic, desc: entry.description, bytes },
            ),
            _ => self,
        }
    }

    /// The tables after the entries have been filed one after the other, so
    /// that of two entries for one opcode the later one stays.
    pub open spec fn filed(entries: Seq<RawEntry>) -> Tables
        decreases entries.len(),
    {
        if entries.len() == 0 {
            Tables::empty()
        } else {
            Tables::filed(entries.drop_last()).file(entries.last())
        }
    }
}

impl InstructionDB {
    /// The two tables of the database.
    pub open spec fn tables(&self) -> Tables {
        Tables { short: self.opcodes_8@, long: self.opcodes_16@ }
    }

    /// Files one entry.
    pub fn file(&mut self, entry: &RawEntry) -> (entered: bool)
        ensures
            final(self).tables() == old(self).tables().file(*entry),
            entered == (spec_parse_opcode(vstd::utf8::encode_utf8(entry.op_code@)) is Some && entry.bytes
                is Some),
    {
        match (parse_opcode(entry.op_code.as_str().as_bytes()), entry.bytes) {
            (Some((opcode, long_opcode)), Some(bytes)) => {
                let info = InstructionInfo::new(
                    entry.mnemonic.clone(),
                    entry.description.clone(),
                    bytes,
                );
                self.insert(opcode, long_opcode, info);
                true
            },
            _ => false,
        }
    }

    /// The database that the members of an array make: the entries are
    /// filed one after the other, and the first gap ends the filing.
    pub fn from_entries(members: &Vec<Option<RawEntry>>) -> (r: InstructionDB)
        ensures
            r.tables() == Tables::filed(spec_leading(members@)),
    {
        let mut database = InstructionDB::new();
        let mut i: usize = 0;
        let ghost entry = |j: int| members@[j]->Some_0;
        assert(Seq::new(0, entry) =~= Seq::<RawEntry>::empty());
        while i < members.len()
            invariant
                i <= members.len(),
                entry == |j: int| members@[j]->Some_0,
                spec_gap_from(members@, 0) == spec_gap_from(members@, i as int),
                database.tables() == Tables::filed(Seq::new(i as nat, entry)),
            decreases members.len() - i,
        {
            match &members[i] {
                Some(found) => {
                    database.file(found);
                    assert(Seq::new((i + 1) as nat, entry).drop_last() =~= Seq::new(
                        i as nat,
                        entry,
                    ));
                    assert(Seq::new((i + 1) as nat, entry).last() == *found);
                },
                None => {
                    return database;
                },
            }
            i += 1;
        }
        database
    }

    /// Whether a text can be handed to the JSON reader: no row of decimal
    /// digits in it is too long.
    pub open spec fn readable(text: Seq<char>) -> bool {
        spec_digit_runs_within(vstd::utf8::encode_utf8(text), MAX_DIGIT_RUN as nat)
    }

    /// The members of the array that a JSON database holds, read under the
    /// names that the members of an entry have.
    pub open spec fn entries(text: Seq<char>) -> Option<Seq<Option<RawEntry>>> {
        spec_json_entries(text, OP_CODE_KEY@, MNEMONIC_KEY@, DESCRIPTION_KEY@, BYTES_KEY@)
    }

    /// Converts a JSON database into the two tables. The entries of the array
    /// are filed up to its first `null` member. A text that is no JSON text
    /// gives nothing, and neither does a text with a row of more than 32767
    /// decimal digits, which is not handed to the reader.
    pub fn from_json(text: &str) -> (r: Option<InstructionDB>)
        ensures
            !Self::readable(text@) ==> r is None,
            Self::readable(text@) ==> match Self::entries(text@) {
                Some(members) => r is Some && r->Some_0.tables() == Tables::filed(
                    spec_leading(members),
                ),
                None => r is None,
            },
    {
        if !digit_runs_within(text.as_bytes(), MAX_DIGIT_RUN) {
            return None;
        }
        match json_entries(text, OP_CODE_KEY, MNEMONIC_KEY, DESCRIPTION_KEY, BYTES_KEY) {
            Some(members) => Some(InstructionDB::from_entries(&members)),
            None => None,
        }
    }

    /// The table of the one byte opcodes, or with `long_opcode` that of the
    /// opcodes behind the escape byte.
    pub open spec fn table(&self, long_opcode: bool) -> Map<u8, InstructionInfo> {
        if long_opcode {
            self.opcodes_16@
        } else {
            self.opcodes_8@
        }
    }

    /// A database without an entry.
    pub fn new() -> (r: InstructionDB)
        ensures
            r.table(false) == Map::<u8, InstructionInfo>::empty(),
            r.table(true) == Map::<u8, InstructionInfo>::empty(),
    {
        InstructionDB { opcodes_8: HashMap::new(), opcodes_16: HashMap::new() }
    }

    /// Enters what is known of an opcode, in place of what was known before.
    pub fn insert(&mut self, opcode: u8, long_opcode: bool, info: InstructionInfo)
        ensures
            final(self).table(long_opcode) == old(self).table(long_opcode).insert(opcode, info),
            final(self).table(!long_opcode) == old(self).table(!long_opcode),
    {
        if long_opcode {
            self.opcodes_16.insert(opcode, info);
        } else {
            self.opcodes_8.insert(opcode, info);
        }
    }

    /// Whether the database knows the opcode.
    pub fn contains(&self, opcode: u8, long_opcode: bool) -> (r: bool)
        ensures
            r == self.table(long_opcode).contains_key(opcode),
    {
        if long_opcode {
            self.opcodes_16.contains_key(&opcode)
        } else {
            self.opcodes_8.contains_key(&opcode)
        }
    }

    /// What is known of the opcode, if anything is.
    pub fn find(&self, opcode: u8, long_opcode: bool) -> (r: Option<&InstructionInfo>)
        ensures
            match r {
                Some(info) => self.table(long_opcode).contains_key(opcode) && *info == self.table(
                    long_opcode,
                )[opcode],
                None => !self.table(long_opcode).contains_key(opcode),
            },
    {
        if long_opcode {
            self.opcodes_16.get(&opcode)
        } else {
            self.opcodes_8.get(&opcode)
        }
    }

    /// What is known of an opcode that the database knows.
    pub fn get(&self, opcode: u8, long_opcode: bool) -> (r: &InstructionInfo)
        requires
            self.table(long_opcode).contains_key(opcode),
        ensures
            *r == self.table(long_opcode)[opcode],
    {
        self.find(opcode, long_opcode).unwrap()
    }
}

} // verus!
