//! Plain text for decoded lines: the line itself, then the direction, the
//! register's address and name, and its fields.
use vstd::prelude::*;
use vstd::string::{StringExecFns, StringSliceAdditionalSpecFns};
use crate::context::DecodeContext;
use crate::decoder::{decode_line, spec_decode_line, LineOutcome};
use crate::fields::{extract, field_bits, BitField, FieldStyle};
use crate::parser::{parse_spec, Direction};
use crate::registers::{ap_label, spec_ap_label, Register};

verus! {

/// The digit that stands for `d`, upper case from ten on.
pub open spec fn digit_char(d: nat) -> char {
    if d == 0 {
        '0'
    } else if d == 1 {
        '1'
    } else if d == 2 {
        '2'
    } else if d == 3 {
        '3'
    } else if d == 4 {
        '4'
    } else if d == 5 {
        '5'
    } else if d == 6 {
        '6'
    } else if d == 7 {
        '7'
    } else if d == 8 {
        '8'
    } else if d == 9 {
        '9'
    } else if d == 10 {
        'A'
    } else if d == 11 {
        'B'
    } else if d == 12 {
        'C'
    } else if d == 13 {
        'D'
    } else if d == 14 {
        'E'
    } else {
        'F'
    }
}

/// `n` in base 16 where `hex` is set and in base 10 where it is not, without
/// leading zeros.
pub open spec fn spec_number(n: nat, hex: bool) -> Seq<char>
    decreases n,
{
    if hex {
        if n < 16 {
            seq![digit_char(n)]
        } else {
            spec_number(n / 16, hex).push(digit_char(n % 16))
        }
    } else {
        if n < 10 {
            seq![digit_char(n)]
        } else {
            spec_number(n / 10, hex).push(digit_char(n % 10))
        }
    }
}

/// The lowest `width` hexadecimal digits of `v`, with leading zeros.
pub open spec fn spec_hex_fixed(v: nat, width: nat) -> Seq<char>
    decreases width,
{
    if width == 0 {
        Seq::empty()
    } else {
        spec_hex_fixed(v / 16, (width - 1) as nat).push(digit_char(v % 16))
    }
}

/// One field of `data`: its name, a colon and its value, in base 16 for a
/// field of that style and in base 10 for the others.
pub open spec fn spec_field_text(field: BitField, data: u32) -> Seq<char> {
    field.name@ + ":"@ + spec_number(
        field_bits(data, field.msb, field.lsb) as nat,
        field.style == FieldStyle::Hex,
    )
}

/// The fields of `data` in the order of `fields`, with `sep` between one and
/// the next; where `brief_only` is set, only those of the short summary.
pub open spec fn spec_fields_text(
    fields: Seq<BitField>,
    data: u32,
    brief_only: bool,
    sep: Seq<char>,
) -> Seq<char>
    decreases fields.len(),
{
    if fields.len() == 0 {
        Seq::empty()
    } else {
        let before = spec_fields_text(fields.drop_last(), data, brief_only, sep);
        if brief_only && !fields.last().brief {
            before
        } else if before.len() == 0 {
            spec_field_text(fields.last(), data)
        } else {
            before + sep + spec_field_text(fields.last(), data)
        }
    }
}

/// The short summary of `data` read as `register`: the name, then the fields
/// of the summary in brackets.
pub open spec fn spec_brief_text(register: Register, data: u32) -> Seq<char> {
    register.spec_name()@ + " ("@ + spec_fields_text(register.spec_layout(), data, true, ", "@)
        + ")"@
}

/// What is shown of `data` read as `register`: every field, or the word in
/// eight hexadecimal digits where the register has no fields.
pub open spec fn spec_value_text(register: Register, data: u32) -> Seq<char> {
    if register.spec_layout().len() == 0 {
        spec_hex_fixed(data as nat, 8)
    } else {
        spec_fields_text(register.spec_layout(), data, false, " "@)
    }
}

/// The arrow that shows a transaction's direction.
pub open spec fn spec_arrow(direction: Direction) -> Seq<char> {
    match direction {
        Direction::Read => "<-- "@,
        Direction::Write => "--> "@,
    }
}

/// The label of the access port that a select write names, in brackets;
/// empty for any other register and for an access port without a label.
pub open spec fn spec_label_text(register: Register, data: u32) -> Seq<char> {
    if register == Register::Select && spec_ap_label(field_bits(data, 31, 24) as u8) is Some {
        " ("@ + spec_ap_label(field_bits(data, 31, 24) as u8).unwrap()@ + ")"@
    } else {
        Seq::empty()
    }
}

/// The summary of the core debug register behind a data window; empty
/// where there is none.
pub open spec fn spec_target_text(target: Option<Register>, data: u32) -> Seq<char> {
    match target {
        Some(register) => "    "@ + spec_brief_text(register, data),
        None => Seq::empty(),
    }
}

/// The marker of a transaction whose register the catalog does not know.
pub open spec fn spec_unknown_marker() -> Seq<char> {
    "(unknown register)"@
}

/// What is appended to a line for its outcome; nothing for a line that is no
/// transaction.
pub open spec fn spec_annotation(outcome: LineOutcome) -> Seq<char> {
    match outcome {
        LineOutcome::NotATransaction => Seq::empty(),
        LineOutcome::UnknownRegister { op, address } => "  "@ + spec_arrow(op.direction) + "R:"@
            + spec_hex_fixed(address as nat, 2) + " "@ + spec_unknown_marker() + " "@
            + spec_hex_fixed(op.data as nat, 8),
        LineOutcome::Decoded { op, address, register, target } => "  "@ + spec_arrow(op.direction)
            + "R:"@ + spec_hex_fixed(address as nat, 2) + " "@ + register.spec_name()@ + " "@
            + spec_value_text(register, op.data) + spec_label_text(register, op.data)
            + spec_target_text(target, op.data),
    }
}

/// The fixed-width form has the width asked for.
pub proof fn lemma_hex_fixed_len(v: nat, width: nat)
    ensures
        spec_hex_fixed(v, width).len() == width,
    decreases width,
{
    if width > 0 {
        lemma_hex_fixed_len(v / 16, (width - 1) as nat);
    }
}

/// A transaction whose register is unknown is marked as such where it is
/// written out: the marker stands in what is appended to the line, behind
/// the direction and the address.
pub proof fn lemma_unknown_is_marked(outcome: LineOutcome)
    requires
        outcome is UnknownRegister,
    ensures
        spec_annotation(outcome).len() >= 11 + spec_unknown_marker().len(),
        spec_annotation(outcome).subrange(11, 11 + spec_unknown_marker().len() as int)
            == spec_unknown_marker(),
{
    reveal_strlit("  ");
    reveal_strlit("<-- ");
    reveal_strlit("--> ");
    reveal_strlit("R:");
    reveal_strlit(" ");
    let (op, address) = match outcome {
        LineOutcome::UnknownRegister { op, address } => (op, address),
        _ => arbitrary(),
    };
    lemma_hex_fixed_len(address as nat, 2);
    let head = "  "@ + spec_arrow(op.direction) + "R:"@ + spec_hex_fixed(address as nat, 2) + " "@;
    assert(head.len() == 11);
    let text = spec_annotation(outcome);
    assert(text =~= head + spec_unknown_marker() + (" "@ + spec_hex_fixed(op.data as nat, 8)));
    assert(text.subrange(11, 11 + spec_unknown_marker().len() as int) =~= spec_unknown_marker());
}

/// The string of one character that stands for the digit `d`.
fn digit_str(d: u32) -> (r: &'static str)
    requires
        d < 16,
    ensures
        r@ == seq![digit_char(d as nat)],
{
    let r = if d == 0 {
        "0"
    } else if d == 1 {
        "1"
    } else if d == 2 {
        "2"
    } else if d == 3 {
        "3"
    } else if d == 4 {
        "4"
    } else if d == 5 {
        "5"
    } else if d == 6 {
        "6"
    } else if d == 7 {
        "7"
    } else if d == 8 {
        "8"
    } else if d == 9 {
        "9"
    } else if d == 10 {
        "A"
    } else if d == 11 {
        "B"
    } else if d == 12 {
        "C"
    } else if d == 13 {
        "D"
    } else if d == 14 {
        "E"
    } else {
        "F"
    };
    proof {
        reveal_strlit("0");
        reveal_strlit("1");
        reveal_strlit("2");
        reveal_strlit("3");
        reveal_strlit("4");
        reveal_strlit("5");
        reveal_strlit("6");
        reveal_strlit("7");
        reveal_strlit("8");
        reveal_strlit("9");
        reveal_strlit("A");
        reveal_strlit("B");
        reveal_strlit("C");
        reveal_strlit("D");
        reveal_strlit("E");
        reveal_strlit("F");
        assert(r@ =~= seq![digit_char(d as nat)]);
    }
    r
}

/// Appends `n` to `text`, in base 16 where `hex` is set and in base 10 where
/// it is not, without leading zeros.
pub fn push_number(text: &mut String, n: u32, hex: bool)
    ensures
        final(text)@ == old(text)@ + spec_number(n as nat, hex),
    decreases n,
{
    let radix: u32 = if hex {
        16
    } else {
        10
    };
    if n >= radix {
        push_number(text, n / radix, hex);
    }
    text.append(digit_str(n % radix));
    assert(final(text)@ =~= old(text)@ + spec_number(n as nat, hex));
}

/// Appends the lowest `width` hexadecimal digits of `v` to `text`, with
/// leading zeros.
pub fn push_hex_fixed(text: &mut String, v: u32, width: u8)
    ensures
        final(text)@ == old(text)@ + spec_hex_fixed(v as nat, width as nat),
    decreases width,
{
    if width > 0 {
        push_hex_fixed(text, v / 16, width - 1);
        text.append(digit_str(v % 16));
    }
    assert(final(text)@ =~= old(text)@ + spec_hex_fixed(v as nat, width as nat));
}

/// The fields of `data` read as `register`, with `sep` between one and the
/// next; where `brief_only` is set, only those of the short summary.
pub fn fields_text(register: Register, data: u32, brief_only: bool, sep: &str) -> (text: String)
    ensures
        text@ == spec_fields_text(register.spec_layout(), data, brief_only, sep@),
{
    let layout = register.layout();
    let mut text = String::new();
    let mut i: usize = 0;
    assert(layout@.subrange(0, 0) =~= Seq::<BitField>::empty());
    while i < layout.len()
        invariant
            i <= layout@.len(),
            text@ == spec_fields_text(layout@.subrange(0, i as int), data, brief_only, sep@),
        decreases layout@.len() - i,
    {
        let field = layout[i];
        proof {
            assert(layout@.subrange(0, i + 1).drop_last() =~= layout@.subrange(0, i as int));
            assert(layout@.subrange(0, i + 1).last() == field);
        }
        if !brief_only || field.brief {
            let ghost before = text@;
            if !text.as_str().is_empty() {
                text.append(sep);
            }
            text.append(field.name);
            text.append(":");
            let hex = match field.style {
                FieldStyle::Hex => true,
                _ => false,
            };
            push_number(&mut text, extract(data, field.msb, field.lsb), hex);
            assert(text@ =~= if before.len() == 0 {
                spec_field_text(field, data)
            } else {
                before + sep@ + spec_field_text(field, data)
            });
        }
        i += 1;
    }
    assert(layout@.subrange(0, i as int) =~= layout@);
    text
}

/// The short summary of `data` read as `register`.
pub fn brief_text(register: Register, data: u32) -> (text: String)
    ensures
        text@ == spec_brief_text(register, data),
{
    let mut text = String::from_str(register.name());
    text.append(" (");
    let inner = fields_text(register, data, true, ", ");
    text.append(inner.as_str());
    text.append(")");
    text
}

/// What is appended to a line for its outcome.
pub fn annotation(outcome: &LineOutcome) -> (text: String)
    ensures
        text@ == spec_annotation(*outcome),
{
    match *outcome {
        LineOutcome::NotATransaction => String::new(),
        LineOutcome::UnknownRegister { op, address } => {
            let mut text = String::from_str("  ");
            text.append(
                match op.direction {
                    Direction::Read => "<-- ",
                    Direction::Write => "--> ",
                },
            );
            text.append("R:");
            push_hex_fixed(&mut text, address as u32, 2);
            text.append(" ");
            text.append("(unknown register)");
            text.append(" ");
            push_hex_fixed(&mut text, op.data, 8);
            text
        },
        LineOutcome::Decoded { op, address, register, target } => {
            let mut text = String::from_str("  ");
            text.append(
                match op.direction {
                    Direction::Read => "<-- ",
                    Direction::Write => "--> ",
                },
            );
            text.append("R:");
            push_hex_fixed(&mut text, address as u32, 2);
            text.append(" ");
            text.append(register.name());
            text.append(" ");
            if register.layout().len() == 0 {
                push_hex_fixed(&mut text, op.data, 8);
            } else {
                let shown = fields_text(register, op.data, false, " ");
                text.append(shown.as_str());
            }
            let ghost valued = text@;
            match register {
                Register::Select => {
                    match ap_label(extract(op.data, 31, 24) as u8) {
                        Some(label) => {
                            text.append(" (");
                            text.append(label);
                            text.append(")");
                        },
                        None => {},
                    }
                },
                _ => {},
            }
            assert(text@ =~= valued + spec_label_text(register, op.data));
            match target {
                Some(core) => {
                    text.append("    ");
                    let summary = brief_text(core, op.data);
                    text.append(summary.as_str());
                },
                None => {},
            }
            assert(text@ =~= valued + spec_label_text(register, op.data) + spec_target_text(
                target,
                op.data,
            ));
            text
        },
    }
}

/// The line with what its outcome appends: the line itself where it is no
/// transaction.
pub fn annotate(line: &str, outcome: &LineOutcome) -> (text: String)
    ensures
        text@ == line@ + spec_annotation(*outcome),
        *outcome is NotATransaction ==> text@ == line@,
{
    let mut text = String::from_str(line);
    let tail = annotation(outcome);
    text.append(tail.as_str());
    assert(line@ + Seq::<char>::empty() =~= line@);
    text
}

/// Decodes one line of a log under `ctx`, moves `ctx` on past it and gives
/// the line as it is written out. A line that is no transaction comes back
/// as it is.
pub fn annotate_line(ctx: &mut DecodeContext, line: &str) -> (text: String)
    ensures
        text@ == line@ + spec_annotation(spec_decode_line(*old(ctx), line.spec_bytes())),
        parse_spec(line.spec_bytes()) is None ==> text@ == line@ && *final(ctx) == *old(ctx),
        *final(ctx) == crate::decoder::spec_context_after_line(*old(ctx), line.spec_bytes()),
{
    let outcome = decode_line(ctx, line);
    annotate(line, &outcome)
}

} // verus!
