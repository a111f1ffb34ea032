use swd_decode::parser::{
    access, ack, address_2_3, direction, match_tag, ok_respose_data, parse, parse_bytes,
    read_number, scan, AccessRegister, ByteClass, Direction, SwdOperation,
};

fn rest<T>(line: &str, found: Option<(T, usize)>) -> Option<(&str, T)> {
    found.map(|(value, end)| (&line[end..], value))
}

#[test]
fn parse_access() {
    assert_eq!(rest("AP", access("AP".as_bytes(), 0)), Some(("", AccessRegister::AccessPort)));
    assert_eq!(rest("DP", access("DP".as_bytes(), 0)), Some(("", AccessRegister::DebugPort)));
}

#[test]
fn parse_direction() {
    assert_eq!(rest("WR", direction("WR".as_bytes(), 0)), Some(("", Direction::Write)));
    assert_eq!(rest("RD", direction("RD".as_bytes(), 0)), Some(("", Direction::Read)));
}

#[test]
fn parse_address_2_3() {
    assert_eq!(rest("A:0", address_2_3("A:0".as_bytes(), 0)), Some(("", 0)));
    assert_eq!(rest("A:1", address_2_3("A:1".as_bytes(), 0)), Some(("", 1)));
    assert_eq!(rest("A:2", address_2_3("A:2".as_bytes(), 0)), Some(("", 2)));
    assert_eq!(rest("A:3", address_2_3("A:3".as_bytes(), 0)), Some(("", 3)));
}

#[test]
fn parse_ack() {
    assert_eq!(rest("ACK:0", ack("ACK:0".as_bytes(), 0)), Some(("", 0)));
    assert_eq!(rest("ACK:1", ack("ACK:1".as_bytes(), 0)), Some(("", 1)));
    assert_eq!(rest("ACK:2", ack("ACK:2".as_bytes(), 0)), Some(("", 2)));
}

#[test]
fn parse_response_data() {
    assert_eq!(
        rest("OK Data:h00030003", ok_respose_data("OK Data:h00030003".as_bytes(), 0)),
        Some(("", 0x0003_0003))
    );
}

#[test]
fn parse_op() {
    assert_eq!(
        parse("AP RD A:1 ACK:1 OK Data:h61000003"),
        Some((
            "",
            SwdOperation {
                access: AccessRegister::AccessPort,
                direction: Direction::Read,
                address_2_3: 1,
                ack: 1,
                data: 0x61000003,
            }
        ))
    );
}

#[test]
fn parse_debug_port_write() {
    assert_eq!(
        parse("DP WR A:2 ACK:1 OK Data:h04000010"),
        Some((
            "",
            SwdOperation {
                access: AccessRegister::DebugPort,
                direction: Direction::Write,
                address_2_3: 2,
                ack: 1,
                data: 0x0400_0010,
            }
        ))
    );
}

#[test]
fn parse_takes_spaces_and_tabs_between_tokens() {
    let line = " \t AP\t\tWR   A:3\tACK:07 \t OK Data:hdeadBEEF";
    assert_eq!(
        parse(line),
        Some((
            "",
            SwdOperation {
                access: AccessRegister::AccessPort,
                direction: Direction::Write,
                address_2_3: 3,
                ack: 7,
                data: 0xDEAD_BEEF,
            }
        ))
    );
}

#[test]
fn parse_needs_no_blank_between_tokens() {
    assert_eq!(
        parse("DPRDA:0ACK:1OK Data:h1"),
        Some((
            "",
            SwdOperation {
                access: AccessRegister::DebugPort,
                direction: Direction::Read,
                address_2_3: 0,
                ack: 1,
                data: 1,
            }
        ))
    );
}

#[test]
fn parse_leaves_what_follows_the_data() {
    let found = parse("AP RD A:1 ACK:1 OK Data:h61000003 ; note");
    assert_eq!(found.map(|(rest, _)| rest), Some(" ; note"));
    assert_eq!(found.map(|(_, op)| op.data), Some(0x6100_0003));
    let line = "AP RD A:1 ACK:1 OK Data:h12\u{e9}";
    assert_eq!(parse(line).map(|(rest, op)| (rest, op.data)), Some(("\u{e9}", 0x12)));
    assert_eq!(parse_bytes(line.as_bytes()).map(|(end, _)| end), Some(27));
}

#[test]
fn parse_rejects_lines_that_are_no_transaction() {
    assert_eq!(parse("Sheet1"), None);
    assert_eq!(parse(""), None);
    assert_eq!(parse("   \t "), None);
    assert_eq!(parse("AP"), None);
    assert_eq!(parse("AP RD"), None);
    assert_eq!(parse("AP RD A:1"), None);
    assert_eq!(parse("AP RD A:1 ACK:1"), None);
    assert_eq!(parse("AP RD A:1 ACK:1 OK Data:h"), None);
    assert_eq!(parse("RD AP A:1 ACK:1 OK Data:h61000003"), None);
    assert_eq!(parse("AP RD A:1 ACK:1 Data:h61000003"), None);
    assert_eq!(parse("AP RD A:1 ACK:1 WAIT"), None);
    assert_eq!(parse("AP RD A:1 ACK:1 OK  Data:h61000003"), None);
    assert_eq!(parse("AP RD A:1 ACK:1 OK Data:61000003"), None);
    assert_eq!(parse("ap rd A:1 ACK:1 OK Data:h61000003"), None);
    assert_eq!(parse("XP RD A:1 ACK:1 OK Data:h61000003"), None);
    assert_eq!(parse("AP RW A:1 ACK:1 OK Data:h61000003"), None);
    assert_eq!(parse("AP RD A: 1 ACK:1 OK Data:h61000003"), None);
    assert_eq!(parse("AP RD A:1 ACK: OK Data:h61000003"), None);
    assert_eq!(parse("AP\nRD A:1 ACK:1 OK Data:h61000003"), None);
    assert_eq!(parse("\u{a0}AP RD A:1 ACK:1 OK Data:h61000003"), None);
}

#[test]
fn parse_rejects_address_outside_the_bank() {
    assert_eq!(parse("AP RD A:4 ACK:1 OK Data:h0"), None);
    assert_eq!(parse("AP RD A:9 ACK:1 OK Data:h0"), None);
    assert_eq!(parse("AP RD A:12 ACK:1 OK Data:h0"), None);
    assert_eq!(parse("AP RD A:01 ACK:1 OK Data:h0"), None);
    assert_eq!(parse("AP RD A:x ACK:1 OK Data:h0"), None);
}

#[test]
fn parse_ack_is_a_byte() {
    assert_eq!(parse("AP RD A:1 ACK:255 OK Data:h0").map(|(_, op)| op.ack), Some(255));
    assert_eq!(parse("AP RD A:1 ACK:000255 OK Data:h0").map(|(_, op)| op.ack), Some(255));
    assert_eq!(parse("AP RD A:1 ACK:256 OK Data:h0"), None);
    assert_eq!(parse("AP RD A:1 ACK:99999999999999999999999 OK Data:h0"), None);
    assert_eq!(parse("AP RD A:1 ACK:1F OK Data:h0"), None);
}

#[test]
fn parse_data_is_a_word() {
    assert_eq!(parse("DP RD A:3 ACK:1 OK Data:hFFFFFFFF").map(|(_, op)| op.data), Some(u32::MAX));
    assert_eq!(parse("DP RD A:3 ACK:1 OK Data:hffffffff").map(|(_, op)| op.data), Some(u32::MAX));
    assert_eq!(
        parse("DP RD A:3 ACK:1 OK Data:h0000000012345678").map(|(_, op)| op.data),
        Some(0x1234_5678)
    );
    assert_eq!(parse("DP RD A:3 ACK:1 OK Data:h100000000"), None);
    assert_eq!(parse("DP RD A:3 ACK:1 OK Data:h61000003abc"), None);
    assert_eq!(parse("DP RD A:3 ACK:1 OK Data:hG"), None);
    assert_eq!(parse("DP RD A:3 ACK:1 OK Data:h1G").map(|(rest, op)| (rest, op.data)), Some(("G", 1)));
}

#[test]
fn parse_gives_only_whole_records() {
    let lines = [
        "AP RD A:0 ACK:1 OK Data:h0",
        "DP WR A:3 ACK:2 OK Data:hFFFFFFFF",
        "DP WR A:7 ACK:2 OK Data:hFFFFFFFF",
        "Sheet1",
        "AP WR A:2 ACK:1 OK Data:hE000EDF0 trailing",
    ];
    for line in lines {
        if let Some((rest, op)) = parse(line) {
            assert!(op.address_2_3 <= 3);
            assert!(line.ends_with(rest));
            assert!(matches!(op.access, AccessRegister::AccessPort | AccessRegister::DebugPort));
            assert!(matches!(op.direction, Direction::Read | Direction::Write));
        }
    }
}

#[test]
fn parse_bytes_agrees_with_parse() {
    let line = "DP WR A:2 ACK:1 OK Data:h07000000";
    assert_eq!(parse_bytes(line.as_bytes()).map(|(end, op)| (&line[end..], op)), parse(line));
    assert_eq!(parse_bytes(line.as_bytes()).map(|(end, _)| end), Some(line.len()));
    assert_eq!(parse_bytes(&[0xFF, 0xFE]), None);
    assert_eq!(parse_bytes(&[]), None);
}

#[test]
fn tokens_are_read_where_they_stand() {
    let line = "xx AP WR A:2 ACK:12 OK Data:h1f";
    let b = line.as_bytes();
    assert_eq!(access(b, 3), Some((AccessRegister::AccessPort, 5)));
    assert_eq!(access(b, 0), None);
    assert_eq!(access(b, 1000), None);
    assert_eq!(direction(b, 6), Some((Direction::Write, 8)));
    assert_eq!(direction(b, 5), None);
    assert_eq!(address_2_3(b, 9), Some((2, 12)));
    assert_eq!(address_2_3(b, 8), None);
    assert_eq!(ack(b, 13), Some((12, 19)));
    assert_eq!(ack(b, 12), None);
    assert_eq!(ok_respose_data(b, 20), Some((0x1F, 31)));
    assert_eq!(ok_respose_data(b, 19), None);
    assert_eq!(ok_respose_data(b, 1000), None);
}

#[test]
fn scan_ends_a_run_at_the_first_other_byte() {
    assert_eq!(scan(b"  \t x", 0, ByteClass::Blank), 4);
    assert_eq!(scan(b"  \t x", 4, ByteClass::Blank), 4);
    assert_eq!(scan(b"   ", 1, ByteClass::Blank), 3);
    assert_eq!(scan(b"0129a", 0, ByteClass::Digit), 4);
    assert_eq!(scan(b"09afAFg", 0, ByteClass::HexDigit), 6);
    assert_eq!(scan(b"/:@G`g", 0, ByteClass::HexDigit), 0);
    assert_eq!(scan(b"", 0, ByteClass::Digit), 0);
}

#[test]
fn match_tag_compares_bytes_in_place() {
    assert!(match_tag(b"ACK:1", 0, b"ACK:"));
    assert!(match_tag(b" ACK:1", 1, b"ACK:"));
    assert!(!match_tag(b" ACK:1", 0, b"ACK:"));
    assert!(!match_tag(b"ACK", 0, b"ACK:"));
    assert!(match_tag(b"ACK", 3, b""));
    assert!(!match_tag(b"ACK", 4, b""));
}

#[test]
fn read_number_gives_the_value_up_to_the_bound() {
    assert_eq!(read_number(b"x255", 1, 4, false, 255), Some(255));
    assert_eq!(read_number(b"x256", 1, 4, false, 255), None);
    assert_eq!(read_number(b"0042", 0, 4, false, 255), Some(42));
    assert_eq!(read_number(b"fF", 0, 2, true, u32::MAX), Some(255));
    assert_eq!(read_number(b"FFFFFFFF", 0, 8, true, u32::MAX), Some(u32::MAX));
    assert_eq!(read_number(b"100000000", 0, 9, true, u32::MAX), None);
    assert_eq!(read_number(b"4294967295", 0, 10, false, u32::MAX), Some(u32::MAX));
    assert_eq!(read_number(b"4294967296", 0, 10, false, u32::MAX), None);
    assert_eq!(read_number(b"12", 1, 1, false, 255), Some(0));
}

#[test]
fn read_number_takes_digits_only() {
    assert_eq!(read_number(b"1F", 0, 2, false, 255), None);
    assert_eq!(read_number(b"1F", 0, 2, true, 255), Some(0x1F));
    assert_eq!(read_number(b"1g", 0, 2, true, 255), None);
    assert_eq!(read_number(b"x1", 0, 2, false, 255), None);
    assert_eq!(read_number(b"1 ", 0, 2, false, 255), None);
    assert_eq!(read_number(b"12", 0, 3, false, 255), None);
    assert_eq!(read_number(b"12", 2, 1, false, 255), None);
}

#[test]
fn scan_outside_the_input_stays_where_it_is() {
    assert_eq!(scan(b"   ", 3, ByteClass::Blank), 3);
    assert_eq!(scan(b"   ", 7, ByteClass::Blank), 7);
}
