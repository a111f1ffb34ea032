//! Decoding of transactions against the catalog, under the context that
//! earlier transactions left.
use vstd::prelude::*;
use vstd::string::StringSliceAdditionalSpecFns;
use crate::context::DecodeContext;
use crate::fields::{extract, field_bits, BitField, FieldStyle};
use crate::parser::{parse, parse_spec, AccessRegister, SwdOperation};
use crate::registers::{ap_space, lookup, spec_ap_space, spec_lookup, Register, Space};

verus! {

/// What decoding one line of a log gives.
#[derive(Copy, Clone, Eq, PartialEq, Debug)]
pub enum LineOutcome {
    /// The line is no transaction.
    NotATransaction,
    /// The line is a transaction at `address`, where the catalog knows no
    /// register that it could mean.
    UnknownRegister { op: SwdOperation, address: u8 },
    /// The line is a transaction that means `register` at `address`. Where
    /// the register is a data window onto the target's memory and the latched
    /// target address is that of a core debug register, `target` is that
    /// register.
    Decoded { op: SwdOperation, address: u8, register: Register, target: Option<Register> },
}

/// The value of one bit field of a word.
#[derive(Copy, Clone, Debug)]
pub struct FieldValue {
    pub name: &'static str,
    pub value: u32,
    pub style: FieldStyle,
    pub brief: bool,
}

/// The space in which a transaction's register is looked up under `ctx`.
pub open spec fn spec_space_of(ctx: DecodeContext, op: SwdOperation) -> Space {
    match op.access {
        AccessRegister::DebugPort => Space::DebugPort,
        AccessRegister::AccessPort => spec_ap_space(ctx.apsel),
    }
}

/// The register that `op` means under `ctx`, where the catalog knows one.
pub open spec fn spec_resolve(ctx: DecodeContext, op: SwdOperation) -> Option<Register> {
    spec_lookup(spec_space_of(ctx, op), ctx.spec_bank_address(op) as u32, op.direction, ctx)
}

/// Whether `register` is a window onto the memory at the latched target
/// address.
pub open spec fn is_data_window(register: Register) -> bool {
    register == Register::Drw || register == Register::Bd0
}

/// The core debug register that an access to `register` reaches under `ctx`,
/// where there is one.
pub open spec fn spec_target(ctx: DecodeContext, op: SwdOperation, register: Register) -> Option<
    Register,
> {
    if is_data_window(register) {
        spec_lookup(Space::CoreDebug, ctx.tar, op.direction, ctx)
    } else {
        None
    }
}

/// What `op` decodes to under `ctx`.
pub open spec fn spec_decode(ctx: DecodeContext, op: SwdOperation) -> LineOutcome {
    match spec_resolve(ctx, op) {
        Some(register) => LineOutcome::Decoded {
            op,
            address: ctx.spec_bank_address(op),
            register,
            target: spec_target(ctx, op, register),
        },
        None => LineOutcome::UnknownRegister { op, address: ctx.spec_bank_address(op) },
    }
}

/// What a line with the bytes `line` decodes to under `ctx`.
pub open spec fn spec_decode_line(ctx: DecodeContext, line: Seq<u8>) -> LineOutcome {
    match parse_spec(line) {
        Some((_, op)) => spec_decode(ctx, op),
        None => LineOutcome::NotATransaction,
    }
}

/// The context after a line with the bytes `line` was decoded under `ctx`.
pub open spec fn spec_context_after_line(ctx: DecodeContext, line: Seq<u8>) -> DecodeContext {
    match parse_spec(line) {
        Some((_, op)) => ctx.spec_update(op),
        None => ctx,
    }
}

/// The context after the first `n` of `lines` were decoded in turn, starting
/// under `ctx`.
pub open spec fn spec_context_after(ctx: DecodeContext, lines: Seq<&str>, n: int) -> DecodeContext
    decreases n,
{
    if n <= 0 {
        ctx
    } else {
        spec_context_after_line(spec_context_after(ctx, lines, n - 1), lines[n - 1].spec_bytes())
    }
}

/// One field of `data`, as `field` lays it out.
pub open spec fn spec_field_value(field: BitField, data: u32) -> FieldValue {
    FieldValue {
        name: field.name,
        value: field_bits(data, field.msb, field.lsb),
        style: field.style,
        brief: field.brief,
    }
}

/// The register that `op` means under `ctx`, where the catalog knows one.
pub fn resolve(ctx: &DecodeContext, op: SwdOperation) -> (found: Option<Register>)
    ensures
        found == spec_resolve(*ctx, op),
{
    let space = match op.access {
        AccessRegister::DebugPort => Space::DebugPort,
        AccessRegister::AccessPort => ap_space(ctx.apsel),
    };
    lookup(space, ctx.bank_address(op) as u32, op.direction, ctx)
}

/// Decodes one transaction under `ctx`, which stays as it is.
pub fn decode(ctx: &DecodeContext, op: SwdOperation) -> (outcome: LineOutcome)
    ensures
        outcome == spec_decode(*ctx, op),
        outcome is UnknownRegister <==> spec_resolve(*ctx, op) is None,
        !(outcome is NotATransaction),
{
    let address: u8 = ctx.bank_address(op);
    match resolve(ctx, op) {
        Some(register) => {
            let target = match register {
                Register::Drw | Register::Bd0 => lookup(
                    Space::CoreDebug,
                    ctx.tar,
                    op.direction,
                    ctx,
                ),
                _ => None,
            };
            LineOutcome::Decoded { op, address, register, target }
        },
        None => LineOutcome::UnknownRegister { op, address },
    }
}

/// Decodes one line of a log under `ctx` and moves `ctx` on past it. A line
/// that is no transaction leaves the context as it was; a transaction is
/// decoded under the context as it was before, and then observed, whether or
/// not the catalog knew its register.
pub fn decode_line(ctx: &mut DecodeContext, line: &str) -> (outcome: LineOutcome)
    ensures
        outcome == spec_decode_line(*old(ctx), line.spec_bytes()),
        *final(ctx) == spec_context_after_line(*old(ctx), line.spec_bytes()),
        outcome is NotATransaction <==> parse_spec(line.spec_bytes()) is None,
        outcome is NotATransaction ==> *final(ctx) == *old(ctx),
        old(ctx).wf() ==> final(ctx).wf(),
{
    match parse(line) {
        Some((_, op)) => {
            let outcome = decode(ctx, op);
            *ctx = ctx.update(op);
            outcome
        },
        None => LineOutcome::NotATransaction,
    }
}

/// Decodes the lines of a log in turn, starting under `ctx`. There is one
/// outcome for each line, whatever the lines before it held.
pub fn decode_log(ctx: &mut DecodeContext, lines: &[&str]) -> (outcomes: Vec<LineOutcome>)
    ensures
        outcomes@.len() == lines@.len(),
        forall|i: int|
            0 <= i < lines@.len() ==> #[trigger] outcomes@[i] == spec_decode_line(
                spec_context_after(*old(ctx), lines@, i),
                lines@[i].spec_bytes(),
            ),
        *final(ctx) == spec_context_after(*old(ctx), lines@, lines@.len() as int),
{
    let ghost start = *ctx;
    let mut outcomes: Vec<LineOutcome> = Vec::new();
    let mut i: usize = 0;
    while i < lines.len()
        invariant
            i <= lines@.len(),
            outcomes@.len() == i,
            *ctx == spec_context_after(start, lines@, i as int),
            forall|j: int|
                0 <= j < i ==> #[trigger] outcomes@[j] == spec_decode_line(
                    spec_context_after(start, lines@, j),
                    lines@[j].spec_bytes(),
                ),
        decreases lines@.len() - i,
    {
        let outcome = decode_line(ctx, lines[i]);
        outcomes.push(outcome);
        i += 1;
    }
    outcomes
}

/// The fields of `data` as `register` lays them out, in the layout's order.
pub fn field_values(register: Register, data: u32) -> (values: Vec<FieldValue>)
    ensures
        values@.len() == register.spec_layout().len(),
        forall|i: int|
            0 <= i < values@.len() ==> #[trigger] values@[i] == spec_field_value(
                register.spec_layout()[i],
                data,
            ),
{
    let layout = register.layout();
    let mut values: Vec<FieldValue> = Vec::new();
    let mut i: usize = 0;
    while i < layout.len()
        invariant
            i <= layout@.len(),
            layout@ =~= register.spec_layout(),
            values@.len() == i,
            forall|j: int|
                0 <= j < i ==> #[trigger] values@[j] == spec_field_value(layout@[j], data),
        decreases layout@.len() - i,
    {
        let field = layout[i];
        values.push(
            FieldValue {
                name: field.name,
                value: extract(data, field.msb, field.lsb),
                style: field.style,
                brief: field.brief,
            },
        );
        i += 1;
    }
    values
}

impl LineOutcome {
    /// The access port that the line selected, where it wrote the select
    /// register.
    pub open spec fn spec_selected_ap(self) -> Option<u8> {
        match self {
            LineOutcome::Decoded { op, register: Register::Select, .. } => Some(
                field_bits(op.data, 31, 24) as u8,
            ),
            _ => None,
        }
    }

    /// The access port that the line selected, where it wrote the select
    /// register.
    pub fn selected_ap(&self) -> (apsel: Option<u8>)
        ensures
            apsel == self.spec_selected_ap(),
    {
        match self {
            LineOutcome::Decoded { op, register: Register::Select, .. } => Some(
                extract(op.data, 31, 24) as u8,
            ),
            _ => None,
        }
    }
}

/// The access ports seen so far once `outcome` is counted in: `seen`, with
/// the access port that `outcome` selected behind it where it selected one
/// that `seen` does not hold.
pub open spec fn spec_note_selected(seen: Seq<u8>, outcome: LineOutcome) -> Seq<u8> {
    match outcome.spec_selected_ap() {
        Some(apsel) => if seen.contains(apsel) {
            seen
        } else {
            seen.push(apsel)
        },
        None => seen,
    }
}

/// Counts the access port that `outcome` selected, if any, into the list of
/// those seen: each stands in the list once, in the order in which it was
/// selected first.
pub fn note_selected(seen: &mut Vec<u8>, outcome: &LineOutcome)
    ensures
        final(seen)@ == spec_note_selected(old(seen)@, *outcome),
        old(seen)@.no_duplicates() ==> final(seen)@.no_duplicates(),
{
    match outcome.selected_ap() {
        Some(apsel) => {
            let mut i: usize = 0;
            while i < seen.len()
                invariant
                    i <= seen@.len(),
                    seen@ == old(seen)@,
                    outcome.spec_selected_ap() == Some(apsel),
                    forall|j: int| 0 <= j < i ==> seen@[j] != apsel,
                decreases seen@.len() - i,
            {
                if seen[i] == apsel {
                    assert(seen@[i as int] == apsel);
                    return ;
                }
                i += 1;
            }
            seen.push(apsel);
        },
        None => {},
    }
}

/// A Debug-Port access at bank offset 0x04 means the control and status
/// register while the selected `ctrlsel` is 0 and the wire control register
/// while it is 1, whatever its direction and its data.
pub proof fn lemma_ctrlsel_picks_register(ctx: DecodeContext, op: SwdOperation)
    requires
        op.access == AccessRegister::DebugPort,
        op.address_2_3 == 1,
    ensures
        spec_resolve(ctx, op) == Some(
            if ctx.ctrlsel {
                Register::Wcr
            } else {
                Register::CtrlStat
            },
        ),
{
    assert(1u8 << 2 == 0x04u8) by (bit_vector);
    let register = if ctx.ctrlsel {
        Register::Wcr
    } else {
        Register::CtrlStat
    };
    crate::registers::lemma_lookup_is(register, Space::DebugPort, 0x04, op.direction, ctx);
}

/// A transaction whose register the catalog does not know is still
/// observed: the context moves on as for any other transaction.
pub proof fn lemma_unknown_register_is_observed(ctx: DecodeContext, line: Seq<u8>)
    requires
        spec_decode_line(ctx, line) is UnknownRegister,
    ensures
        parse_spec(line) is Some,
        spec_context_after_line(ctx, line) == ctx.spec_update(parse_spec(line).unwrap().1),
{
}

/// An Access-Port access at an offset where the generic access port has no
/// register is an unknown register.
pub proof fn lemma_unknown_access_port_register(ctx: DecodeContext, op: SwdOperation)
    requires
        op.access == AccessRegister::AccessPort,
        forall|register: Register|
            !#[trigger] register.spec_applies(
                spec_ap_space(ctx.apsel),
                ctx.spec_bank_address(op) as u32,
                op.direction,
                ctx,
            ),
    ensures
        spec_decode(ctx, op) == (LineOutcome::UnknownRegister {
            op,
            address: ctx.spec_bank_address(op),
        }),
{
}

} // verus!
