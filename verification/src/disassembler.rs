//! Assembler text for instruction words.
use vstd::prelude::*;
use vstd::string::{StrSliceExecFns, StringExecFns};

use crate::cpu::Xlen;
use crate::instructions::btype::btype_operation;
use crate::instructions::citype::citype_operation;
use crate::instructions::ciwtype::ciwtype_operation;
use crate::instructions::crtype::crtype_operation;
use crate::instructions::decoder::{
    decodable, decode_instruction, is_decodable, spec_decode_instruction, DecodedInstruction,
};
use crate::instructions::itype::itype_operation;
use crate::instructions::rtype::rtype_operation;
use crate::instructions::{instruction_of, InstructionSelector};
use crate::numerals::{digits_value, parse_radix, radix_digit};
use crate::pipeline::{raw_of, RawInstruction};

verus! {

/// The character of a decimal digit.
pub open spec fn digit_char(d: nat) -> char {
    if d == 0 {
        '0'
    } else if d == 1 {
        '1'
    } else if d == 2 {
        '2'
    } else if d == 3 {
        '3'
    } else if d == 4 {
        '4'
    } else if d == 5 {
        '5'
    } else if d == 6 {
        '6'
    } else if d == 7 {
        '7'
    } else if d == 8 {
        '8'
    } else {
        '9'
    }
}

/// The decimal numeral of `n`, without leading zeros.
pub open spec fn decimal(n: nat) -> Seq<char>
    decreases n,
{
    if n < 10 {
        seq![digit_char(n)]
    } else {
        decimal(n / 10).push(digit_char(n % 10))
    }
}

/// The numeral of a decimal digit.
fn digit_text(d: u64) -> (s: &'static str)
    requires
        d < 10,
    ensures
        s@ == seq![digit_char(d as nat)],
{
    proof {
        reveal_strlit("0");
        reveal_strlit("1");
        reveal_strlit("2");
        reveal_strlit("3");
        reveal_strlit("4");
        reveal_strlit("5");
        reveal_strlit("6");
        reveal_strlit("7");
        reveal_strlit("8");
        reveal_strlit("9");
    }
    if d == 0 {
        "0"
    } else if d == 1 {
        "1"
    } else if d == 2 {
        "2"
    } else if d == 3 {
        "3"
    } else if d == 4 {
        "4"
    } else if d == 5 {
        "5"
    } else if d == 6 {
        "6"
    } else if d == 7 {
        "7"
    } else if d == 8 {
        "8"
    } else {
        "9"
    }
}

/// The digits of a decimal numeral spell its number.
proof fn lemma_decimal_digits(n: nat)
    ensures
        decimal(n).len() > 0,
        '0' <= decimal(n)[0] <= '9',
        digits_value(decimal(n), 10) == Some(n),
    decreases n,
{
    let d = n % 10;
    assert(radix_digit(digit_char(d), 10) == Some(d));
    if n < 10 {
        assert(decimal(n).drop_last() =~= Seq::<char>::empty());
        assert(decimal(n).last() == digit_char(d));
        assert(digits_value(Seq::<char>::empty(), 10) == Some(0nat));
    } else {
        lemma_decimal_digits(n / 10);
        assert(decimal(n).drop_last() =~= decimal(n / 10));
        assert(decimal(n).last() == digit_char(d));
        assert((n / 10) * 10 + n % 10 == n) by (nonlinear_arith);
        assert(digits_value(decimal(n), 10) == Some(((n / 10) * 10 + d) as nat));
    }
}

/// Reading back the decimal numeral of a number gives the number.
pub proof fn lemma_decimal_reads_back(n: u64)
    ensures
        parse_radix(decimal(n as nat), 10) == Some(n),
{
    lemma_decimal_digits(n as nat);
}

/// Appends the decimal numeral of `n` to `s`.
pub fn append_decimal(s: &mut String, n: u64)
    ensures
        final(s)@ == old(s)@ + decimal(n as nat),
    decreases n,
{
    if n >= 10 {
        append_decimal(s, n / 10);
    }
    s.append(digit_text(n % 10));
    assert(final(s)@ =~= old(s)@ + decimal(n as nat));
}

/// `text` with every space replaced by `gap`.
pub open spec fn spaces_replaced(text: Seq<char>, gap: Seq<char>) -> Seq<char>
    decreases text.len(),
{
    if text.len() == 0 {
        text
    } else {
        spaces_replaced(text.drop_last(), gap) + if text.last() == ' ' {
            gap
        } else {
            seq![text.last()]
        }
    }
}

/// The characters of `text` before its first space.
pub open spec fn first_word(text: Seq<char>) -> Seq<char>
    decreases text.len(),
{
    if text.len() == 0 || text[0] == ' ' {
        Seq::empty()
    } else {
        seq![text[0]] + first_word(text.drop_first())
    }
}

/// The text laid out in columns: the spaces become tabs, two of them after a mnemonic shorter
/// than four characters.
pub open spec fn columns(text: Seq<char>) -> Seq<char> {
    if first_word(text).len() < 4 {
        spaces_replaced(text, seq!['\t', '\t'])
    } else {
        spaces_replaced(text, seq!['\t'])
    }
}

/// The number of characters of `text` before its first space.
fn first_word_len(text: &str) -> (n: usize)
    ensures
        n == first_word(text@).len(),
{
    let len = text.unicode_len();
    let mut i: usize = 0;
    while i < len && text.get_char(i) != ' '
        invariant
            len == text@.len(),
            i <= len,
            forall|j: int| 0 <= j < i ==> text@[j] != ' ',
        decreases len - i,
    {
        i = i + 1;
    }
    proof {
        lemma_first_word(text@, i as int);
    }
    i
}

/// `first_word` of a text whose first space is at `i` (or that has none, for `i` its length).
proof fn lemma_first_word(text: Seq<char>, i: int)
    requires
        0 <= i <= text.len(),
        i < text.len() ==> text[i] == ' ',
        forall|j: int| 0 <= j < i ==> text[j] != ' ',
    ensures
        first_word(text).len() == i,
    decreases i,
{
    if i > 0 {
        lemma_first_word(text.drop_first(), i - 1);
    }
}

/// `text` with every space replaced by `gap`.
fn replace_spaces(text: &str, gap: &str) -> (r: String)
    ensures
        r@ == spaces_replaced(text@, gap@),
{
    let len = text.unicode_len();
    let mut out = String::new();
    let mut i: usize = 0;
    while i < len
        invariant
            len == text@.len(),
            i <= len,
            out@ == spaces_replaced(text@.take(i as int), gap@),
        decreases len - i,
    {
        let ghost before = out@;
        assert(text@.take(i + 1).drop_last() =~= text@.take(i as int));
        if text.get_char(i) == ' ' {
            out.append(gap);
        } else {
            out.append(text.substring_char(i, i + 1));
            assert(text@.subrange(i as int, i + 1) =~= seq![text@[i as int]]);
        }
        i = i + 1;
    }
    assert(text@.take(len as int) =~= text@);
    out
}

/// The assembler text of the instruction a word encodes, when its operation has one.
pub open spec fn instruction_text(decoded: DecodedInstruction) -> Seq<char> {
    match decoded {
        DecodedInstruction::I(a) => instruction_of(itype_operation(a).unwrap(), a).text(),
        DecodedInstruction::CI(a) => instruction_of(citype_operation(a).unwrap(), a).text(),
        DecodedInstruction::CR(a) => instruction_of(crtype_operation(a).unwrap(), a).text(),
        DecodedInstruction::B(a) => instruction_of(btype_operation(a).unwrap(), a).text(),
        DecodedInstruction::R(a) => instruction_of(rtype_operation(a).unwrap(), a).text(),
        DecodedInstruction::CIW(a) => instruction_of(ciwtype_operation(a).unwrap(), a).text(),
        _ => Seq::empty(),
    }
}

/// Whether a word can be disassembled: it decodes, and into arguments of an operation that has
/// an assembler text (the I, CI, CR, B, R and CIW formats).
pub open spec fn disassemblable(word: u32) -> bool {
    let raw = raw_of(word, 0);
    &&& decodable(raw)
    &&& match spec_decode_instruction(raw) {
        DecodedInstruction::I(a) => itype_operation(a) is Some,
        DecodedInstruction::CI(a) => citype_operation(a) is Some,
        DecodedInstruction::CR(a) => crtype_operation(a) is Some,
        DecodedInstruction::B(a) => btype_operation(a) is Some,
        DecodedInstruction::R(a) => rtype_operation(a) is Some,
        DecodedInstruction::CIW(a) => ciwtype_operation(a) is Some,
        _ => false,
    }
}

/// Disassembles instruction words.
pub struct Disassembler {}

impl Disassembler {
    /// The assembler text of the instruction `word` encodes, laid out in columns, if it has
    /// one; `None` otherwise.
    pub fn try_disassemble(word: u32, xlen: Xlen) -> (s: Option<String>)
        ensures
            match s {
                Some(text) => disassemblable(word) && text@ == columns(
                    instruction_text(spec_decode_instruction(raw_of(word, 0))),
                ),
                None => !disassemblable(word),
            },
    {
        let raw = RawInstruction::from_word(word, 0);
        assert(raw == raw_of(word, 0));
        if !is_decodable(raw) {
            return None;
        }
        let selects = match decode_instruction(raw) {
            DecodedInstruction::I(a) => a.selects(xlen),
            DecodedInstruction::CI(a) => a.selects(xlen),
            DecodedInstruction::CR(a) => a.selects(xlen),
            DecodedInstruction::B(a) => a.selects(xlen),
            DecodedInstruction::R(a) => a.selects(xlen),
            DecodedInstruction::CIW(a) => a.selects(xlen),
            _ => false,
        };
        if selects {
            Some(Disassembler::disassemble(word, xlen))
        } else {
            None
        }
    }

    /// The assembler text of the instruction `word` encodes, laid out in columns.
    pub fn disassemble(word: u32, xlen: Xlen) -> (s: String)
        requires
            disassemblable(word),
        ensures
            s@ == columns(instruction_text(spec_decode_instruction(raw_of(word, 0)))),
    {
        let raw = RawInstruction::from_word(word, 0);
        assert(raw == raw_of(word, 0));
        let decoded = decode_instruction(raw);
        let s = match decoded {
            DecodedInstruction::I(inst) => inst.select(xlen).to_string(),
            DecodedInstruction::CI(param) => param.select(xlen).to_string(),
            DecodedInstruction::CR(param) => param.select(xlen).to_string(),
            DecodedInstruction::B(param) => param.select(xlen).to_string(),
            DecodedInstruction::R(param) => param.select(xlen).to_string(),
            DecodedInstruction::CIW(param) => param.select(xlen).to_string(),
            _ => unreached(),
        };
        assert(s@ == instruction_text(decoded));
        proof {
            reveal_strlit("\t\t");
            reveal_strlit("\t");
            assert("\t\t"@ =~= seq!['\t', '\t']);
            assert("\t"@ =~= seq!['\t']);
        }
        if first_word_len(s.as_str()) < 4 {
            replace_spaces(s.as_str(), "\t\t")
        } else {
            replace_spaces(s.as_str(), "\t")
        }
    }
}

} // verus!
