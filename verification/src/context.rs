//! What earlier transactions left selected: the state that later register
//! accesses are read against.
use vstd::prelude::*;
use crate::fields::{extract, field_bits};
use crate::parser::{AccessRegister, Direction, SwdOperation};

verus! {

/// Offset of the Debug-Port SELECT register within its bank.
pub const DP_SELECT_ADDRESS: u8 = 0x08;

/// Offset of the Access-Port TAR register within the access port.
pub const AP_TAR_ADDRESS: u8 = 0x04;

/// The fields last written to the Debug-Port SELECT register and the value
/// last written to the Access-Port TAR register.
#[derive(Copy, Clone, Eq, PartialEq, Debug, Structural)]
pub struct DecodeContext {
    pub ctrlsel: bool,
    /// Selected register bank of the access port, four bits.
    pub apbanksel: u8,
    /// Selected access port.
    pub apsel: u8,
    /// Latched target address.
    pub tar: u32,
}

/// Offset of an Access-Port register within the access port: the selected
/// bank in bits 7:4, the transaction's two address bits in bits 3:2.
pub open spec fn spec_mem_ap_address(apbanksel: u8, address_2_3: u8) -> u8 {
    (apbanksel << 4) | (address_2_3 << 2)
}

/// Offset of an Access-Port register within the access port: the selected
/// bank in bits 7:4, the transaction's two address bits in bits 3:2.
#[verifier::when_used_as_spec(spec_mem_ap_address)]
pub fn mem_ap_address(apbanksel: u8, address_2_3: u8) -> (r: u8)
    ensures
        r == spec_mem_ap_address(apbanksel, address_2_3),
        apbanksel <= 0xF && address_2_3 <= 3 ==> r == apbanksel * 16 + address_2_3 * 4,
{
    assert(apbanksel <= 0xF && address_2_3 <= 3 ==> (apbanksel << 4) | (address_2_3 << 2)
        == apbanksel * 16 + address_2_3 * 4) by (bit_vector);
    (apbanksel << 4) | (address_2_3 << 2)
}

/// Offset of a Debug-Port register within its bank.
pub open spec fn spec_dp_address(address_2_3: u8) -> u8 {
    address_2_3 << 2
}

/// Offset of a Debug-Port register within its bank.
#[verifier::when_used_as_spec(spec_dp_address)]
pub fn dp_address(address_2_3: u8) -> (r: u8)
    ensures
        r == spec_dp_address(address_2_3),
        address_2_3 <= 3 ==> r == address_2_3 * 4,
{
    assert(address_2_3 <= 3 ==> address_2_3 << 2 == address_2_3 * 4) by (bit_vector);
    address_2_3 << 2
}

impl DecodeContext {
    /// The context at the start of a log: nothing selected, nothing latched.
    pub fn new() -> (ctx: Self)
        ensures
            ctx == (DecodeContext { ctrlsel: false, apbanksel: 0, apsel: 0, tar: 0 }),
            ctx.wf(),
    {
        DecodeContext { ctrlsel: false, apbanksel: 0, apsel: 0, tar: 0 }
    }

    /// The bank index has four bits.
    pub open spec fn wf(&self) -> bool {
        self.apbanksel <= 0xF
    }

    /// The address that a transaction resolves to under this context: a
    /// Debug-Port transaction to its bank offset, an Access-Port transaction
    /// to the offset within the selected bank.
    pub open spec fn spec_bank_address(&self, op: SwdOperation) -> u8 {
        match op.access {
            AccessRegister::DebugPort => spec_dp_address(op.address_2_3),
            AccessRegister::AccessPort => spec_mem_ap_address(self.apbanksel, op.address_2_3),
        }
    }

    /// The address that a transaction resolves to under this context.
    #[verifier::when_used_as_spec(spec_bank_address)]
    pub fn bank_address(&self, op: SwdOperation) -> (r: u8)
        ensures
            r == self.spec_bank_address(op),
    {
        match op.access {
            AccessRegister::DebugPort => dp_address(op.address_2_3),
            AccessRegister::AccessPort => mem_ap_address(self.apbanksel, op.address_2_3),
        }
    }

    /// Whether `op` writes the Debug-Port SELECT register.
    pub open spec fn writes_select(&self, op: SwdOperation) -> bool {
        op.access == AccessRegister::DebugPort && op.direction == Direction::Write
            && self.spec_bank_address(op) == DP_SELECT_ADDRESS
    }

    /// Whether `op` writes the Access-Port TAR register under the bank that
    /// this context selects.
    pub open spec fn writes_tar(&self, op: SwdOperation) -> bool {
        op.access == AccessRegister::AccessPort && op.direction == Direction::Write
            && self.spec_bank_address(op) == AP_TAR_ADDRESS
    }

    /// The context after `op` was observed under this one. A SELECT write
    /// replaces the three select fields by bits 0, 7:4 and 31:24 of the data;
    /// a TAR write replaces the target address by the data; any other
    /// transaction changes nothing.
    pub open spec fn spec_update(&self, op: SwdOperation) -> DecodeContext {
        if self.writes_select(op) {
            DecodeContext {
                ctrlsel: field_bits(op.data, 0, 0) != 0,
                apbanksel: field_bits(op.data, 7, 4) as u8,
                apsel: field_bits(op.data, 31, 24) as u8,
                tar: self.tar,
            }
        } else if self.writes_tar(op) {
            DecodeContext {
                ctrlsel: self.ctrlsel,
                apbanksel: self.apbanksel,
                apsel: self.apsel,
                tar: op.data,
            }
        } else {
            *self
        }
    }

    /// The context after `op` was observed under this one.
    #[verifier::when_used_as_spec(spec_update)]
    pub fn update(&self, op: SwdOperation) -> (next: DecodeContext)
        ensures
            next == self.spec_update(op),
            self.wf() ==> next.wf(),
    {
        let address: u8 = self.bank_address(op);
        proof {
            lemma_select_fields(op.data);
        }
        match (op.access, op.direction) {
            (AccessRegister::DebugPort, Direction::Write) if address == DP_SELECT_ADDRESS => {
                DecodeContext {
                    ctrlsel: extract(op.data, 0, 0) != 0,
                    apbanksel: extract(op.data, 7, 4) as u8,
                    apsel: extract(op.data, 31, 24) as u8,
                    tar: self.tar,
                }
            },
            (AccessRegister::AccessPort, Direction::Write) if address == AP_TAR_ADDRESS => {
                DecodeContext {
                    ctrlsel: self.ctrlsel,
                    apbanksel: self.apbanksel,
                    apsel: self.apsel,
                    tar: op.data,
                }
            },
            _ => *self,
        }
    }
}

/// The select fields of a written word are its bit 0, its bits 7:4 and its
/// bits 31:24, each within its width.
pub proof fn lemma_select_fields(data: u32)
    ensures
        field_bits(data, 0, 0) == data % 2,
        field_bits(data, 7, 4) == (data / 16) % 16,
        field_bits(data, 31, 24) == data / 0x100_0000,
        field_bits(data, 7, 4) <= 0xF,
        field_bits(data, 31, 24) <= 0xFF,
{
    assert((data >> 0u32) & (0xFFFF_FFFFu32 >> 31u32) == data % 2) by (bit_vector);
    assert((data >> 4u32) & (0xFFFF_FFFFu32 >> 28u32) == (data / 16) % 16) by (bit_vector);
    assert((data >> 24u32) & (0xFFFF_FFFFu32 >> 24u32) == data / 0x100_0000) by (bit_vector);
}

/// A write to the Debug-Port register at bank offset 0x08 takes the three
/// select fields from bit 0, bits 7:4 and bits 31:24 of the written word and
/// leaves the target address as it was.
pub proof fn lemma_select_write(ctx: DecodeContext, op: SwdOperation)
    requires
        op.access == AccessRegister::DebugPort,
        op.direction == Direction::Write,
        op.address_2_3 == 2,
    ensures
        ctx.spec_update(op).ctrlsel == (op.data % 2 == 1),
        ctx.spec_update(op).apbanksel == (op.data / 16) % 16,
        ctx.spec_update(op).apsel == op.data / 0x100_0000,
        ctx.spec_update(op).tar == ctx.tar,
{
    lemma_select_fields(op.data);
    assert(2u8 << 2 == 0x08u8) by (bit_vector);
}

/// The select fields change only on a SELECT write, the target address only
/// on a TAR write.
pub proof fn lemma_update_frame(ctx: DecodeContext, op: SwdOperation)
    ensures
        !ctx.writes_select(op) ==> ctx.spec_update(op).ctrlsel == ctx.ctrlsel && ctx.spec_update(
            op,
        ).apbanksel == ctx.apbanksel && ctx.spec_update(op).apsel == ctx.apsel,
        !ctx.writes_tar(op) ==> ctx.spec_update(op).tar == ctx.tar,
        !ctx.writes_select(op) && !ctx.writes_tar(op) ==> ctx.spec_update(op) == ctx,
{
}

/// Observing the same transaction twice in a row leaves the context as
/// observing it once does.
pub proof fn lemma_update_idempotent(ctx: DecodeContext, op: SwdOperation)
    ensures
        ctx.spec_update(op).spec_update(op) == ctx.spec_update(op),
{
}

} // verus!
