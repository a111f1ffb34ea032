//! Grammar of one logged bus transaction.
//!
//! A transaction line reads, left to right and with any run of spaces and
//! tabs before each token:
//!
//! ```text
//! <AP|DP> <WR|RD> A:<0-3> ACK:<digits> OK Data:h<hex digits>
//! ```
//!
//! The grammar is stated over the bytes of the line. Every token is ASCII, so
//! a byte of a multi-byte character never matches one.
use vstd::prelude::*;
use vstd::string::StringSliceAdditionalSpecFns;
use vstd::utf8::{
    encode_utf8_valid_utf8, is_char_boundary, is_char_boundary_iff_not_is_continuation_byte,
    length_of_first_scalar, pop_first_scalar, valid_utf8,
};

verus! {

/// Which register set a transaction addresses.
#[derive(Copy, Clone, Eq, PartialEq, Ord, PartialOrd, Hash, Debug, Structural)]
pub enum AccessRegister {
    DebugPort,
    AccessPort,
}

/// Whether the host writes to the target or reads from it.
#[derive(Copy, Clone, Eq, PartialEq, Ord, PartialOrd, Hash, Debug, Structural)]
pub enum Direction {
    Write,
    Read,
}

/// One bus transaction as the capture tool logged it.
#[derive(Copy, Clone, Eq, PartialEq, Ord, PartialOrd, Hash, Debug, Structural)]
pub struct SwdOperation {
    pub access: AccessRegister,
    pub direction: Direction,
    /// Bits 2 and 3 of the register's offset within its 16-byte bank.
    pub address_2_3: u8,
    pub ack: u8,
    pub data: u32,
}

impl SwdOperation {
    /// The two address bits select one of four words.
    pub open spec fn wf(&self) -> bool {
        self.address_2_3 <= 3
    }
}

/// The classes of bytes that the grammar takes in runs.
#[derive(Copy, Clone, Eq, PartialEq, Debug, Structural)]
pub enum ByteClass {
    /// Space or horizontal tab.
    Blank,
    /// `0` to `9`.
    Digit,
    /// `0` to `9`, `A` to `F`, `a` to `f`.
    HexDigit,
}

pub open spec fn in_class(class: ByteClass, b: u8) -> bool {
    match class {
        ByteClass::Blank => b == 0x20 || b == 0x09,
        ByteClass::Digit => 0x30 <= b <= 0x39,
        ByteClass::HexDigit => (0x30 <= b <= 0x39) || (0x41 <= b <= 0x46) || (0x61 <= b <= 0x66),
    }
}

/// End of the longest run of bytes of `class` that starts at `i`.
pub open spec fn run_end(s: Seq<u8>, i: int, class: ByteClass) -> int
    decreases s.len() - i,
{
    if 0 <= i < s.len() && in_class(class, s[i]) {
        run_end(s, i + 1, class)
    } else {
        i
    }
}

/// `tag` stands in `s` at `i`.
pub open spec fn has_tag(s: Seq<u8>, i: int, tag: Seq<u8>) -> bool {
    0 <= i && i + tag.len() <= s.len() && s.subrange(i, i + tag.len()) == tag
}

/// Value of one hexadecimal (or decimal) digit.
pub open spec fn digit_value(b: u8) -> nat {
    if b <= 0x39 {
        (b - 0x30) as nat
    } else if b <= 0x46 {
        (b - 0x41 + 10) as nat
    } else {
        (b - 0x61 + 10) as nat
    }
}

/// Value of a run of digits read in base `radix`, most significant first.
pub open spec fn number_value(digits: Seq<u8>, radix: nat) -> nat
    decreases digits.len(),
{
    if digits.len() == 0 {
        0
    } else {
        number_value(digits.drop_last(), radix) * radix + digit_value(digits.last())
    }
}

/// `AP`
pub open spec fn tag_ap() -> Seq<u8> {
    seq![0x41u8, 0x50u8]
}

/// `DP`
pub open spec fn tag_dp() -> Seq<u8> {
    seq![0x44u8, 0x50u8]
}

/// `WR`
pub open spec fn tag_wr() -> Seq<u8> {
    seq![0x57u8, 0x52u8]
}

/// `RD`
pub open spec fn tag_rd() -> Seq<u8> {
    seq![0x52u8, 0x44u8]
}

/// `A:`
pub open spec fn tag_address() -> Seq<u8> {
    seq![0x41u8, 0x3Au8]
}

/// `ACK:`
pub open spec fn tag_ack() -> Seq<u8> {
    seq![0x41u8, 0x43u8, 0x4Bu8, 0x3Au8]
}

/// `OK Data:h`, with exactly one space in it.
pub open spec fn tag_ok_data() -> Seq<u8> {
    seq![0x4Fu8, 0x4Bu8, 0x20u8, 0x44u8, 0x61u8, 0x74u8, 0x61u8, 0x3Au8, 0x68u8]
}

pub open spec fn access_at(s: Seq<u8>, i: int) -> Option<AccessRegister> {
    if has_tag(s, i, tag_ap()) {
        Some(AccessRegister::AccessPort)
    } else if has_tag(s, i, tag_dp()) {
        Some(AccessRegister::DebugPort)
    } else {
        None
    }
}

pub open spec fn direction_at(s: Seq<u8>, i: int) -> Option<Direction> {
    if has_tag(s, i, tag_wr()) {
        Some(Direction::Write)
    } else if has_tag(s, i, tag_rd()) {
        Some(Direction::Read)
    } else {
        None
    }
}

/// The address token at `i`: `A:` and one digit from `0` to `3`.
pub open spec fn address_at(s: Seq<u8>, i: int) -> Option<u8> {
    if has_tag(s, i, tag_address()) && i + 2 < s.len() && 0x30 <= s[i + 2] <= 0x33 {
        Some((s[i + 2] - 0x30) as u8)
    } else {
        None
    }
}

/// The class of the digits of base 16 where `hex` is set, of base 10 where
/// it is not.
pub open spec fn digit_class(hex: bool) -> ByteClass {
    if hex {
        ByteClass::HexDigit
    } else {
        ByteClass::Digit
    }
}

/// The base that goes with `hex`.
pub open spec fn radix_of(hex: bool) -> nat {
    if hex {
        16
    } else {
        10
    }
}

/// Whether every byte of `digits` is a digit of the base that goes with
/// `hex`.
pub open spec fn all_digits(digits: Seq<u8>, hex: bool) -> bool {
    forall|j: int| 0 <= j < digits.len() ==> in_class(digit_class(hex), #[trigger] digits[j])
}

/// The value of the digits from `start` to `end` of `s`; `None` where that
/// is no range of `s`, holds a byte that is no digit, or has a value above
/// `max`.
pub open spec fn number_in(s: Seq<u8>, start: int, end: int, hex: bool, max: nat) -> Option<u32> {
    if 0 <= start <= end <= s.len() && all_digits(s.subrange(start, end), hex) && number_value(
        s.subrange(start, end),
        radix_of(hex),
    ) <= max {
        Some(number_value(s.subrange(start, end), radix_of(hex)) as u32)
    } else {
        None
    }
}

/// A number token at `i`: `tag`, then the longest run of digits, at least
/// one, whose value is at most `max`. Gives the value and where the token
/// ends.
pub open spec fn number_at(s: Seq<u8>, i: int, tag: Seq<u8>, hex: bool, max: nat) -> Option<
    (nat, int),
> {
    let start = i + tag.len();
    let end = run_end(s, start, digit_class(hex));
    let value = number_value(s.subrange(start, end), radix_of(hex));
    if has_tag(s, i, tag) && start < end && value <= max {
        Some((value, end))
    } else {
        None
    }
}

/// The acknowledge token at `i`: `ACK:` and a decimal number up to 255.
pub open spec fn ack_at(s: Seq<u8>, i: int) -> Option<(nat, int)> {
    number_at(s, i, tag_ack(), false, 0xFF)
}

/// The data token at `i`: `OK Data:h` and a hexadecimal number of 32 bits.
pub open spec fn data_at(s: Seq<u8>, i: int) -> Option<(nat, int)> {
    number_at(s, i, tag_ok_data(), true, 0xFFFF_FFFF)
}

/// The transaction that `s` starts with, and the number of bytes it takes;
/// `None` where `s` does not start with one. What follows the data token is
/// not looked at.
pub open spec fn parse_spec(s: Seq<u8>) -> Option<(int, SwdOperation)> {
    let a = run_end(s, 0, ByteClass::Blank);
    let d = run_end(s, a + 2, ByteClass::Blank);
    let r = run_end(s, d + 2, ByteClass::Blank);
    let k = run_end(s, r + 3, ByteClass::Blank);
    if access_at(s, a) is Some && direction_at(s, d) is Some && address_at(s, r) is Some && ack_at(
        s,
        k,
    ) is Some {
        let (ack, ack_end) = ack_at(s, k).unwrap();
        let o = run_end(s, ack_end, ByteClass::Blank);
        if data_at(s, o) is Some {
            let (data, data_end) = data_at(s, o).unwrap();
            Some(
                (
                    data_end,
                    SwdOperation {
                        access: access_at(s, a).unwrap(),
                        direction: direction_at(s, d).unwrap(),
                        address_2_3: address_at(s, r).unwrap(),
                        ack: ack as u8,
                        data: data as u32,
                    },
                ),
            )
        } else {
            None
        }
    } else {
        None
    }
}

/// A run never ends before it starts nor after the input.
pub proof fn lemma_run_end_bounds(s: Seq<u8>, i: int, class: ByteClass)
    requires
        0 <= i <= s.len(),
    ensures
        i <= run_end(s, i, class) <= s.len(),
        forall|j: int| i <= j < run_end(s, i, class) ==> in_class(class, #[trigger] s[j]),
        run_end(s, i, class) < s.len() ==> !in_class(class, s[run_end(s, i, class)]),
    decreases s.len() - i,
{
    if i < s.len() && in_class(class, s[i]) {
        lemma_run_end_bounds(s, i + 1, class);
    }
}

/// A number is at least each of its prefixes.
pub proof fn lemma_number_value_prefix(digits: Seq<u8>, k: int, radix: nat)
    requires
        0 <= k <= digits.len(),
        radix >= 1,
    ensures
        number_value(digits.subrange(0, k), radix) <= number_value(digits, radix),
    decreases digits.len(),
{
    if k == digits.len() {
        assert(digits.subrange(0, k) =~= digits);
    } else {
        lemma_number_value_prefix(digits.drop_last(), k, radix);
        assert(digits.drop_last().subrange(0, k) =~= digits.subrange(0, k));
        let v = number_value(digits.drop_last(), radix);
        assert(v * radix >= v) by (nonlinear_arith)
            requires
                radix >= 1,
                v >= 0,
        ;
    }
}

/// In well-formed UTF-8 the position behind an ASCII byte is a character
/// boundary.
pub proof fn lemma_boundary_behind_ascii(bytes: Seq<u8>, i: int)
    requires
        valid_utf8(bytes),
        0 <= i < bytes.len(),
        bytes[i] <= 0x7F,
    ensures
        is_char_boundary(bytes, i + 1),
    decreases bytes.len(),
{
    reveal_with_fuel(is_char_boundary, 2);
    reveal_with_fuel(valid_utf8, 2);
    is_char_boundary_iff_not_is_continuation_byte(bytes, i);
    let first = length_of_first_scalar(bytes);
    let rest = pop_first_scalar(bytes);
    if i == 0 {
        assert(is_char_boundary(rest, 0));
    } else {
        assert(is_char_boundary(rest, i - first));
        assert(rest[i - first] == bytes[i]);
        lemma_boundary_behind_ascii(rest, i - first);
    }
}

/// Whatever the input, the grammar gives either no record or a whole one:
/// its two address bits are a number from 0 to 3, and it ends within the
/// input, behind a hexadecimal digit.
pub proof fn lemma_parse_spec_whole(s: Seq<u8>)
    ensures
        parse_spec(s) is Some ==> parse_spec(s).unwrap().1.wf() && 0 < parse_spec(s).unwrap().0
            <= s.len() && in_class(ByteClass::HexDigit, s[parse_spec(s).unwrap().0 - 1]),
{
    if parse_spec(s) is Some {
        let a = run_end(s, 0, ByteClass::Blank);
        let d = run_end(s, a + 2, ByteClass::Blank);
        let r = run_end(s, d + 2, ByteClass::Blank);
        let k = run_end(s, r + 3, ByteClass::Blank);
        let ack_end = ack_at(s, k).unwrap().1;
        lemma_run_end_bounds(s, k + 4, ByteClass::Digit);
        lemma_run_end_bounds(s, ack_end, ByteClass::Blank);
        let o = run_end(s, ack_end, ByteClass::Blank);
        lemma_run_end_bounds(s, o + 9, ByteClass::HexDigit);
    }
}

/// Position after the longest run of bytes of `class` that starts at `i`;
/// `i` itself where it is no position in `b`.
pub fn scan(b: &[u8], i: usize, class: ByteClass) -> (end: usize)
    ensures
        end == run_end(b@, i as int, class),
        i <= end,
        i <= b@.len() ==> end <= b@.len(),
        b@.len() <= usize::MAX,
{
    let len: usize = b.len();
    let mut j: usize = i;
    while j < len
        invariant
            len == b@.len(),
            i <= j,
            i <= b@.len() ==> j <= b@.len(),
            run_end(b@, i as int, class) == run_end(b@, j as int, class),
        decreases b@.len() - j,
    {
        let c: u8 = b[j];
        let inside = match class {
            ByteClass::Blank => c == 0x20 || c == 0x09,
            ByteClass::Digit => 0x30 <= c && c <= 0x39,
            ByteClass::HexDigit => (0x30 <= c && c <= 0x39) || (0x41 <= c && c <= 0x46) || (0x61
                <= c && c <= 0x66),
        };
        if !inside {
            return j;
        }
        j += 1;
    }
    j
}

/// Whether `tag` stands in `b` at `i`.
pub fn match_tag(b: &[u8], i: usize, tag: &[u8]) -> (found: bool)
    ensures
        found == has_tag(b@, i as int, tag@),
        found ==> i + tag@.len() <= b@.len() <= usize::MAX,
{
    if i > b.len() || tag.len() > b.len() - i {
        return false;
    }
    let mut k: usize = 0;
    while k < tag.len()
        invariant
            i + tag@.len() <= b@.len() <= usize::MAX,
            k <= tag@.len(),
            b@.subrange(i as int, i + k) == tag@.subrange(0, k as int),
        decreases tag@.len() - k,
    {
        if b[i + k] != tag[k] {
            assert(b@.subrange(i as int, i + tag@.len())[k as int] != tag@[k as int]);
            return false;
        }
        k += 1;
        assert(b@.subrange(i as int, i + k) =~= b@.subrange(i as int, i + k - 1).push(
            b@[i + k - 1],
        ));
        assert(tag@.subrange(0, k as int) =~= tag@.subrange(0, k - 1).push(tag@[k - 1]));
    }
    assert(tag@.subrange(0, k as int) =~= tag@);
    true
}

/// Value of the digits `b[start..end]`, in base 16 where `hex` is set and in
/// base 10 where it is not; `None` where that is no range of `b`, holds a
/// byte that is no digit, or has a value above `max`.
pub fn read_number(b: &[u8], start: usize, end: usize, hex: bool, max: u32) -> (value: Option<u32>)
    ensures
        value == number_in(b@, start as int, end as int, hex, max as nat),
{
    if start > end || end > b.len() {
        return None;
    }
    let radix: u64 = if hex {
        16
    } else {
        10
    };
    let ghost digits = b@.subrange(start as int, end as int);
    let mut acc: u64 = 0;
    let mut j: usize = start;
    while j < end
        invariant
            start <= j <= end <= b@.len(),
            radix == radix_of(hex),
            digits == b@.subrange(start as int, end as int),
            all_digits(digits.subrange(0, j - start), hex),
            acc == number_value(digits.subrange(0, j - start), radix_of(hex)),
            acc <= max,
        decreases end - j,
    {
        let c: u8 = b[j];
        assert(digits[j - start] == c);
        let d: u8 = if 0x30 <= c && c <= 0x39 {
            c - 0x30
        } else if hex && 0x41 <= c && c <= 0x46 {
            c - 0x41 + 10
        } else if hex && 0x61 <= c && c <= 0x66 {
            c - 0x61 + 10
        } else {
            return None;
        };
        proof {
            let next = digits.subrange(0, j - start + 1);
            assert(next.drop_last() =~= digits.subrange(0, j - start));
            assert(next.last() == c);
            assert forall|k: int| 0 <= k < next.len() implies in_class(
                digit_class(hex),
                #[trigger] next[k],
            ) by {
                if k < j - start {
                    assert(next[k] == digits.subrange(0, j - start)[k]);
                }
            }
            assert(acc * radix <= 0xFFFF_FFFF * 16) by (nonlinear_arith)
                requires
                    0 <= acc <= 0xFFFF_FFFF,
                    0 <= radix <= 16,
            ;
            lemma_number_value_prefix(digits, j - start + 1, radix_of(hex));
        }
        let next: u64 = acc * radix + (d as u64);
        if next > max as u64 {
            return None;
        }
        acc = next;
        j += 1;
    }
    assert(digits.subrange(0, j - start) =~= digits);
    Some(acc as u32)
}

/// Reads a number token at `i`: `tag`, then digits of base 16 where `hex` is
/// set and of base 10 where it is not.
fn number_token(b: &[u8], i: usize, tag: &[u8], hex: bool, max: u32) -> (r: Option<(u32, usize)>)
    ensures
        r is Some <==> number_at(b@, i as int, tag@, hex, max as nat) is Some,
        r is Some ==> r.unwrap().0 == number_at(b@, i as int, tag@, hex, max as nat).unwrap().0
            && r.unwrap().1 == number_at(b@, i as int, tag@, hex, max as nat).unwrap().1,
        r is Some ==> i < r.unwrap().1 <= b@.len() && r.unwrap().0 <= max,
{
    if !match_tag(b, i, tag) {
        return None;
    }
    let class = if hex {
        ByteClass::HexDigit
    } else {
        ByteClass::Digit
    };
    let start: usize = i + tag.len();
    let end: usize = scan(b, start, class);
    if end == start {
        return None;
    }
    proof {
        lemma_run_end_bounds(b@, start as int, class);
    }
    match read_number(b, start, end, hex, max) {
        Some(value) => Some((value, end)),
        None => None,
    }
}

/// Reads the access token at `i`; gives it with the position after it.
pub fn access(b: &[u8], i: usize) -> (r: Option<(AccessRegister, usize)>)
    ensures
        r == match access_at(b@, i as int) {
            Some(found) => Some((found, (i + 2) as usize)),
            None => None,
        },
        r is Some ==> i + 2 <= b@.len(),
{
    let tag_ap: [u8; 2] = [0x41, 0x50];
    let tag_dp: [u8; 2] = [0x44, 0x50];
    proof {
        assert(tag_ap@ =~= self::tag_ap());
        assert(tag_dp@ =~= self::tag_dp());
    }
    if match_tag(b, i, tag_ap.as_slice()) {
        Some((AccessRegister::AccessPort, i + 2))
    } else if match_tag(b, i, tag_dp.as_slice()) {
        Some((AccessRegister::DebugPort, i + 2))
    } else {
        None
    }
}

/// Reads the direction token at `i`; gives it with the position after it.
pub fn direction(b: &[u8], i: usize) -> (r: Option<(Direction, usize)>)
    ensures
        r == match direction_at(b@, i as int) {
            Some(found) => Some((found, (i + 2) as usize)),
            None => None,
        },
        r is Some ==> i + 2 <= b@.len(),
{
    let tag_wr: [u8; 2] = [0x57, 0x52];
    let tag_rd: [u8; 2] = [0x52, 0x44];
    proof {
        assert(tag_wr@ =~= self::tag_wr());
        assert(tag_rd@ =~= self::tag_rd());
    }
    if match_tag(b, i, tag_wr.as_slice()) {
        Some((Direction::Write, i + 2))
    } else if match_tag(b, i, tag_rd.as_slice()) {
        Some((Direction::Read, i + 2))
    } else {
        None
    }
}

/// Reads the address token at `i`; gives the two address bits with the
/// position after the token.
pub fn address_2_3(b: &[u8], i: usize) -> (r: Option<(u8, usize)>)
    ensures
        r == match address_at(b@, i as int) {
            Some(found) => Some((found, (i + 3) as usize)),
            None => None,
        },
        r is Some ==> i + 3 <= b@.len() && r.unwrap().0 <= 3,
{
    let tag_address: [u8; 2] = [0x41, 0x3A];
    proof {
        assert(tag_address@ =~= self::tag_address());
    }
    if !match_tag(b, i, tag_address.as_slice()) {
        return None;
    }
    if i + 2 >= b.len() {
        return None;
    }
    let digit: u8 = b[i + 2];
    if digit < 0x30 || digit > 0x33 {
        return None;
    }
    Some((digit - 0x30, i + 3))
}

/// Reads the acknowledge token at `i`; gives the code with the position
/// after the token.
pub fn ack(b: &[u8], i: usize) -> (r: Option<(u8, usize)>)
    ensures
        r is Some <==> ack_at(b@, i as int) is Some,
        r is Some ==> r.unwrap().0 == ack_at(b@, i as int).unwrap().0 && r.unwrap().1 == ack_at(
            b@,
            i as int,
        ).unwrap().1,
        r is Some ==> i < r.unwrap().1 <= b@.len(),
{
    let tag_ack: [u8; 4] = [0x41, 0x43, 0x4B, 0x3A];
    proof {
        assert(tag_ack@ =~= self::tag_ack());
    }
    match number_token(b, i, tag_ack.as_slice(), false, 0xFF) {
        Some((value, end)) => Some((value as u8, end)),
        None => None,
    }
}

/// Reads the data token at `i`; gives the word with the position after the
/// token.
pub fn ok_respose_data(b: &[u8], i: usize) -> (r: Option<(u32, usize)>)
    ensures
        r is Some <==> data_at(b@, i as int) is Some,
        r is Some ==> r.unwrap().0 == data_at(b@, i as int).unwrap().0 && r.unwrap().1 == data_at(
            b@,
            i as int,
        ).unwrap().1,
        r is Some ==> i < r.unwrap().1 <= b@.len(),
{
    let tag_ok_data: [u8; 9] = [0x4F, 0x4B, 0x20, 0x44, 0x61, 0x74, 0x61, 0x3A, 0x68];
    proof {
        assert(tag_ok_data@ =~= self::tag_ok_data());
    }
    number_token(b, i, tag_ok_data.as_slice(), true, 0xFFFF_FFFF)
}

/// Reads the transaction that `b` starts with. Gives it with the number of
/// bytes it takes, or `None` where `b` does not start with one.
pub fn parse_bytes(b: &[u8]) -> (r: Option<(usize, SwdOperation)>)
    ensures
        r is Some <==> parse_spec(b@) is Some,
        r is Some ==> r.unwrap().0 == parse_spec(b@).unwrap().0 && r.unwrap().1 == parse_spec(
            b@,
        ).unwrap().1,
        r is Some ==> r.unwrap().0 <= b@.len() && r.unwrap().1.wf(),
{
    let a: usize = scan(b, 0, ByteClass::Blank);
    let (access, after_access) = match self::access(b, a) {
        Some(found) => found,
        None => {
            return None;
        },
    };
    let d: usize = scan(b, after_access, ByteClass::Blank);
    let (direction, after_direction) = match self::direction(b, d) {
        Some(found) => found,
        None => {
            return None;
        },
    };
    let r: usize = scan(b, after_direction, ByteClass::Blank);
    let (address_2_3, after_address) = match self::address_2_3(b, r) {
        Some(found) => found,
        None => {
            return None;
        },
    };
    let k: usize = scan(b, after_address, ByteClass::Blank);
    let (ack, after_ack) = match self::ack(b, k) {
        Some(found) => found,
        None => {
            return None;
        },
    };
    let o: usize = scan(b, after_ack, ByteClass::Blank);
    let (data, after_data) = match ok_respose_data(b, o) {
        Some(found) => found,
        None => {
            return None;
        },
    };
    Some((after_data, SwdOperation { access, direction, address_2_3, ack, data }))
}

/// Reads the transaction that the line starts with, as [`parse_bytes`] does
/// on the line's bytes. Gives it with the rest of the line, or `None` where
/// the line does not start with one.
pub fn parse(s: &str) -> (r: Option<(&str, SwdOperation)>)
    ensures
        r is Some <==> parse_spec(s.spec_bytes()) is Some,
        r is Some ==> r.unwrap().0.spec_bytes() == s.spec_bytes().subrange(
            parse_spec(s.spec_bytes()).unwrap().0,
            s.spec_bytes().len() as int,
        ) && r.unwrap().1 == parse_spec(s.spec_bytes()).unwrap().1,
        r is Some ==> r.unwrap().1.wf(),
{
    match parse_bytes(s.as_bytes()) {
        Some((end, op)) => {
            proof {
                encode_utf8_valid_utf8(s@);
                lemma_parse_spec_whole(s.spec_bytes());
                lemma_boundary_behind_ascii(s.spec_bytes(), end - 1);
            }
            let (_, rest) = s.split_at(end);
            Some((rest, op))
        },
        None => None,
    }
}

} // verus!
