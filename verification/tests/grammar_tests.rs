use nom::branch::alt;
use nom::bytes::complete::tag;
use nom::character::complete::{digit1, hex_digit1, space0};
use nom::combinator::value;
use nom::IResult;
use swd_decode::parser::{parse, AccessRegister, Direction, SwdOperation};

fn blanks(s: &str) -> &str {
    let skipped: IResult<&str, &str> = space0(s);
    skipped.map(|(rest, _)| rest).unwrap_or(s)
}

fn word<'a>(s: &'a str, text: &'static str) -> Option<&'a str> {
    let found: IResult<&str, &str> = tag(text)(s);
    found.ok().map(|(rest, _)| rest)
}

fn combinator_access(s: &str) -> Option<(&str, AccessRegister)> {
    let found: IResult<&str, AccessRegister> = alt((
        value(AccessRegister::AccessPort, tag("AP")),
        value(AccessRegister::DebugPort, tag("DP")),
    ))(s);
    found.ok()
}

fn combinator_direction(s: &str) -> Option<(&str, Direction)> {
    let found: IResult<&str, Direction> =
        alt((value(Direction::Write, tag("WR")), value(Direction::Read, tag("RD"))))(s);
    found.ok()
}

fn decimal(s: &str) -> Option<(&str, &str)> {
    let found: IResult<&str, &str> = digit1(s);
    found.ok()
}

fn hexadecimal(s: &str) -> Option<(&str, &str)> {
    let found: IResult<&str, &str> = hex_digit1(s);
    found.ok()
}

/// The grammar written with parser combinators, with the address held to one
/// digit from 0 to 3.
fn by_combinators(line: &str) -> Option<(&str, SwdOperation)> {
    let (s, access) = combinator_access(blanks(line))?;
    let (s, direction) = combinator_direction(blanks(s))?;
    let s = word(blanks(s), "A:")?;
    let (s, digits) = decimal(s)?;
    if digits.len() != 1 {
        return None;
    }
    let address_2_3: u8 = digits.parse().ok()?;
    if address_2_3 > 3 {
        return None;
    }
    let s = word(blanks(s), "ACK:")?;
    let (s, digits) = decimal(s)?;
    let ack: u8 = digits.parse().ok()?;
    let s = word(blanks(s), "OK Data:h")?;
    let (s, digits) = hexadecimal(s)?;
    let data = u32::from_str_radix(digits, 16).ok()?;
    Some((s, SwdOperation { access, direction, address_2_3, ack, data }))
}

const PIECES: [&str; 40] = [
    "AP", "DP", "WR", "RD", "A:", "ACK:", "OK Data:h", "OK", "Data:h", " ", "  ", "\t", "", "0",
    "1", "2", "3", "4", "9", "00", "07", "255", "256", "a", "F", "g", "61000003", "FFFFFFFF",
    "100000000", "deadBEEF", "\n", "\u{e9}", "ap", "A", ":", "h", "WAIT", "OK  Data:h", "x", "-",
];

fn next(state: &mut u64) -> usize {
    *state = state.wrapping_mul(6364136223846793005).wrapping_add(1442695040888963407);
    (*state >> 33) as usize
}

fn pick(state: &mut u64, from: &[&'static str]) -> &'static str {
    from[next(state) % from.len()]
}

#[test]
fn parse_agrees_with_the_combinator_grammar_on_mixed_lines() {
    let mut state: u64 = 7;
    for _ in 0..20000 {
        let mut line = String::new();
        for _ in 0..(next(&mut state) % 12) {
            line.push_str(pick(&mut state, &PIECES));
        }
        assert_eq!(parse(&line), by_combinators(&line), "{:?}", line);
    }
}

#[test]
fn parse_agrees_with_the_combinator_grammar_on_near_transactions() {
    let gaps = ["", " ", "  ", "\t", " \t "];
    let accesses = ["AP", "DP", "XP", "ap"];
    let directions = ["WR", "RD", "RW"];
    let addresses = ["A:0", "A:1", "A:2", "A:3", "A:4", "A:12", "A:", "A:x"];
    let acks = ["ACK:0", "ACK:1", "ACK:007", "ACK:255", "ACK:256", "ACK:", "ACK:1a"];
    let datas = [
        "OK Data:h0",
        "OK Data:h61000003",
        "OK Data:hffffFFFF",
        "OK Data:h100000000",
        "OK Data:h",
        "OK Data:hxyz",
        "OK Data:h12 rest",
        "OK\tData:h12",
        "WAIT",
    ];
    let mut state: u64 = 11;
    let mut accepted = 0;
    for _ in 0..20000 {
        let line = format!(
            "{}{}{}{}{}{}{}{}{}{}",
            pick(&mut state, &gaps),
            pick(&mut state, &accesses),
            pick(&mut state, &gaps),
            pick(&mut state, &directions),
            pick(&mut state, &gaps),
            pick(&mut state, &addresses),
            pick(&mut state, &gaps),
            pick(&mut state, &acks),
            pick(&mut state, &gaps),
            pick(&mut state, &datas),
        );
        let found = parse(&line);
        assert_eq!(found, by_combinators(&line), "{:?}", line);
        if found.is_some() {
            accepted += 1;
        }
    }
    assert!(accepted > 100);
}
