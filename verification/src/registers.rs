//! The catalog of known registers: where each lives, when it is the one
//! meant, and how its bits are laid out.
use vstd::prelude::*;
use crate::context::DecodeContext;
use crate::fields::{bits, flag, BitField, FieldStyle};
use crate::parser::Direction;

verus! {

/// An address space that registers are looked up in.
#[derive(Copy, Clone, Eq, PartialEq, Debug, Structural)]
pub enum Space {
    /// The Debug Port, by bank offset.
    DebugPort,
    /// A generic memory Access Port, by offset within the access port.
    AccessPort,
    /// The S32K3xx SDA access port, by offset within the access port.
    SdaAccessPort,
    /// The S32K3xx MDM access port, of which no register is known.
    MdmAccessPort,
    /// Core debug registers, by absolute memory address.
    CoreDebug,
}

/// What must hold of a transaction for a register to be the one meant.
#[derive(Copy, Clone, Eq, PartialEq, Debug, Structural)]
pub enum Rule {
    Always,
    /// Only a read reaches the register.
    OnRead,
    /// Only a write reaches the register.
    OnWrite,
    /// Reached while the selected `ctrlsel` is 0.
    CtrlSelClear,
    /// Reached while the selected `ctrlsel` is 1.
    CtrlSelSet,
}

/// The known registers.
#[derive(Copy, Clone, Eq, PartialEq, Debug, Structural)]
pub enum Register {
    /// Debug-Port identification code.
    IdCode,
    /// Debug-Port abort register.
    Abort,
    /// Debug-Port control and status.
    CtrlStat,
    /// Debug-Port wire control.
    Wcr,
    /// Debug-Port access-port and bank select.
    Select,
    /// Debug-Port read resend.
    Resend,
    /// Debug-Port read buffer.
    RdBuff,
    /// Access-Port control and status word.
    Csw,
    /// Access-Port transfer address.
    Tar,
    /// Access-Port data read/write.
    Drw,
    /// Access-Port banked data 0.
    Bd0,
    /// Access-Port banked data 1.
    Bd1,
    /// Access-Port banked data 2.
    Bd2,
    /// Access-Port banked data 3.
    Bd3,
    /// Access-Port identification.
    Idr,
    /// Debug halting control and status.
    Dhcsr,
    /// Debug exception and monitor control.
    Demcr,
    /// Application interrupt and reset control.
    Aircr,
    /// SDA-AP debug enable control.
    DbgEnCtrl,
    /// SDA-AP reset control.
    SdaApRstCtrl,
    /// SDA-AP identification.
    SdaApId,
}

/// Access-port selector of the S32K3xx APB access port.
pub const APB_AP_ID: u8 = 1;

/// Access-port selector of the S32K3xx Cortex-M7 AHB access port.
pub const CM7_0_AHB_AP_ID: u8 = 4;

/// Access-port selector of the S32K3xx MDM access port.
pub const MDM_AP_ID: u8 = 6;

/// Access-port selector of the S32K3xx SDA access port.
pub const SDA_AP_ID: u8 = 7;

/// Number of registers in the catalog.
pub const CATALOG_LEN: usize = 21;

/// What the catalog records of one register.
pub struct RegisterDescriptor {
    pub register: Register,
    pub name: &'static str,
    pub space: Space,
    pub address: u32,
    pub rule: Rule,
    pub fields: Vec<BitField>,
}

/// A descriptor with its field list as a sequence.
pub struct DescriptorModel {
    pub register: Register,
    pub name: &'static str,
    pub space: Space,
    pub address: u32,
    pub rule: Rule,
    pub fields: Seq<BitField>,
}

impl View for RegisterDescriptor {
    type V = DescriptorModel;

    open spec fn view(&self) -> DescriptorModel {
        DescriptorModel {
            register: self.register,
            name: self.name,
            space: self.space,
            address: self.address,
            rule: self.rule,
            fields: self.fields@,
        }
    }
}

/// Whether `rule` admits a transaction in `direction` under `ctx`.
pub open spec fn rule_holds(rule: Rule, direction: Direction, ctx: DecodeContext) -> bool {
    match rule {
        Rule::Always => true,
        Rule::OnRead => direction == Direction::Read,
        Rule::OnWrite => direction == Direction::Write,
        Rule::CtrlSelClear => !ctx.ctrlsel,
        Rule::CtrlSelSet => ctx.ctrlsel,
    }
}

/// Whether `rule` admits a transaction in `direction` under `ctx`.
pub fn check_rule(rule: Rule, direction: Direction, ctx: &DecodeContext) -> (r: bool)
    ensures
        r == rule_holds(rule, direction, *ctx),
{
    match rule {
        Rule::Always => true,
        Rule::OnRead => direction == Direction::Read,
        Rule::OnWrite => direction == Direction::Write,
        Rule::CtrlSelClear => !ctx.ctrlsel,
        Rule::CtrlSelSet => ctx.ctrlsel,
    }
}

impl Register {
    /// The register's printed name.
    pub open spec fn spec_name(self) -> &'static str {
        match self {
            Register::IdCode => "IDCODE",
            Register::Abort => "ABORT",
            Register::CtrlStat => "CTRL/STAT",
            Register::Wcr => "WCR",
            Register::Select => "SELECT",
            Register::Resend => "RESEND",
            Register::RdBuff => "RDBUFF",
            Register::Csw => "CSW",
            Register::Tar => "TAR",
            Register::Drw => "DRW",
            Register::Bd0 => "BD0",
            Register::Bd1 => "BD1",
            Register::Bd2 => "BD2",
            Register::Bd3 => "BD3",
            Register::Idr => "IDR",
            Register::Dhcsr => "DHCSR",
            Register::Demcr => "DEMCR",
            Register::Aircr => "AIRCR",
            Register::DbgEnCtrl => "DBGENCTRL",
            Register::SdaApRstCtrl => "SDAAPRSTCTRL",
            Register::SdaApId => "ID",
        }
    }

    /// The space that the register lives in.
    pub open spec fn spec_space(self) -> Space {
        match self {
            Register::IdCode | Register::Abort | Register::CtrlStat | Register::Wcr | Register::Select | Register::Resend | Register::RdBuff => Space::DebugPort,
            Register::Csw | Register::Tar | Register::Drw | Register::Bd0 | Register::Bd1 | Register::Bd2 | Register::Bd3 | Register::Idr => Space::AccessPort,
            Register::Dhcsr | Register::Demcr | Register::Aircr => Space::CoreDebug,
            Register::DbgEnCtrl | Register::SdaApRstCtrl | Register::SdaApId => Space::SdaAccessPort,
        }
    }

    /// The register's address within its space.
    pub open spec fn spec_address(self) -> u32 {
        match self {
            Register::IdCode => 0x00,
            Register::Abort => 0x00,
            Register::CtrlStat => 0x04,
            Register::Wcr => 0x04,
            Register::Select => 0x08,
            Register::Resend => 0x08,
            Register::RdBuff => 0x0C,
            Register::Csw => 0x00,
            Register::Tar => 0x04,
            Register::Drw => 0x0C,
            Register::Bd0 => 0x10,
            Register::Bd1 => 0x14,
            Register::Bd2 => 0x18,
            Register::Bd3 => 0x1C,
            Register::Idr => 0xFC,
            Register::Dhcsr => 0xE000_EDF0,
            Register::Demcr => 0xE000_EDFC,
            Register::Aircr => 0xE000_ED0C,
            Register::DbgEnCtrl => 0x80,
            Register::SdaApRstCtrl => 0x90,
            Register::SdaApId => 0xFC,
        }
    }

    /// What must hold of a transaction that means this register.
    pub open spec fn spec_rule(self) -> Rule {
        match self {
            Register::IdCode => Rule::OnRead,
            Register::Abort => Rule::OnWrite,
            Register::CtrlStat => Rule::CtrlSelClear,
            Register::Wcr => Rule::CtrlSelSet,
            Register::Select => Rule::OnWrite,
            Register::Resend => Rule::OnRead,
            Register::RdBuff => Rule::OnRead,
            _ => Rule::Always,
        }
    }

    /// The register's bit fields, in the order in which they are shown. A
    /// register without fields is shown as one word.
    pub open spec fn spec_layout(self) -> Seq<BitField> {
        match self {
            Register::IdCode => seq![
                bits("Version", 31, 28, FieldStyle::Decimal, true),
                bits("PARTNO", 27, 12, FieldStyle::Decimal, true),
                bits("DESIGNER", 11, 1, FieldStyle::Decimal, true),
            ],
            Register::Abort => seq![
                flag("DAPABORT", 0, true),
                flag("STKCMPCLR", 1, true),
                flag("STKERRCLR", 2, true),
                flag("WDERRCLR", 3, true),
                flag("ORUNERRCLR", 4, true),
            ],
            Register::CtrlStat => seq![
                flag("READOK", 6, true),
                flag("WDATAERR", 7, true),
                bits("TRNCNT", 21, 12, FieldStyle::Decimal, true),
                flag("CDBGRSTREQ", 26, true),
                flag("CDBGRSTACK", 27, true),
                flag("CDBGPWRUPREQ", 28, true),
                flag("CDBGPWRUPACK", 29, true),
                flag("CSYSPWRUPREQ", 30, true),
                flag("CSYSPWRUPACK", 31, true),
            ],
            Register::Wcr => seq![
                bits("PRESCALER", 2, 0, FieldStyle::Decimal, true),
                bits("WIREMODE", 7, 6, FieldStyle::Decimal, true),
                bits("TURNROUND", 9, 8, FieldStyle::Decimal, true),
            ],
            Register::Select => seq![
                bits("APSEL", 31, 24, FieldStyle::Hex, true),
                bits("APBANKSEL", 7, 4, FieldStyle::Hex, true),
                flag("CTRLSEL", 0, true),
            ],
            Register::Tar => seq![
                bits("addr", 31, 0, FieldStyle::Hex, true),
            ],
            Register::Dhcsr => seq![
                flag("s_reset_st", 25, true),
                flag("s_retire_st", 24, false),
                flag("s_lockup", 19, false),
                flag("s_sleep", 18, false),
                flag("s_halt", 17, true),
                flag("s_regrdy", 16, false),
                flag("c_maskints", 3, false),
                flag("c_step", 2, false),
                flag("c_halt", 1, true),
                flag("c_debugen", 0, true),
            ],
            Register::Demcr => seq![
                flag("trcena", 24, true),
                flag("mon_req", 19, false),
                flag("mon_step", 18, false),
                flag("mon_pend", 17, false),
                flag("mon_en", 16, false),
                flag("vc_harderr", 10, true),
                flag("vc_interr", 9, false),
                flag("vc_buserr", 8, false),
                flag("vc_staterr", 7, false),
                flag("vc_chkerr", 6, false),
                flag("vc_nocperr", 5, false),
                flag("vc_mmerr", 4, false),
                flag("vc_corereset", 0, true),
            ],
            Register::Aircr => seq![
                bits("vectkeystat", 31, 16, FieldStyle::Hex, false),
                flag("endianness", 15, false),
                bits("prigroup", 10, 8, FieldStyle::Decimal, false),
                flag("sysresetreq", 2, true),
                flag("vectclractive", 1, true),
                flag("vectreset", 0, true),
            ],
            _ => Seq::empty(),
        }
    }

    /// The catalog's entry for this register.
    pub open spec fn spec_describe(self) -> DescriptorModel {
        DescriptorModel {
            register: self,
            name: self.spec_name(),
            space: self.spec_space(),
            address: self.spec_address(),
            rule: self.spec_rule(),
            fields: self.spec_layout(),
        }
    }

    /// The register's printed name.
    #[verifier::when_used_as_spec(spec_name)]
    pub fn name(self) -> (r: &'static str)
        ensures
            r == self.spec_name(),
    {
        match self {
            Register::IdCode => "IDCODE",
            Register::Abort => "ABORT",
            Register::CtrlStat => "CTRL/STAT",
            Register::Wcr => "WCR",
            Register::Select => "SELECT",
            Register::Resend => "RESEND",
            Register::RdBuff => "RDBUFF",
            Register::Csw => "CSW",
            Register::Tar => "TAR",
            Register::Drw => "DRW",
            Register::Bd0 => "BD0",
            Register::Bd1 => "BD1",
            Register::Bd2 => "BD2",
            Register::Bd3 => "BD3",
            Register::Idr => "IDR",
            Register::Dhcsr => "DHCSR",
            Register::Demcr => "DEMCR",
            Register::Aircr => "AIRCR",
            Register::DbgEnCtrl => "DBGENCTRL",
            Register::SdaApRstCtrl => "SDAAPRSTCTRL",
            Register::SdaApId => "ID",
        }
    }

    /// The space that the register lives in.
    #[verifier::when_used_as_spec(spec_space)]
    pub fn space(self) -> (r: Space)
        ensures
            r == self.spec_space(),
    {
        match self {
            Register::IdCode | Register::Abort | Register::CtrlStat | Register::Wcr | Register::Select | Register::Resend | Register::RdBuff => Space::DebugPort,
            Register::Csw | Register::Tar | Register::Drw | Register::Bd0 | Register::Bd1 | Register::Bd2 | Register::Bd3 | Register::Idr => Space::AccessPort,
            Register::Dhcsr | Register::Demcr | Register::Aircr => Space::CoreDebug,
            Register::DbgEnCtrl | Register::SdaApRstCtrl | Register::SdaApId => Space::SdaAccessPort,
        }
    }

    /// The register's address within its space.
    #[verifier::when_used_as_spec(spec_address)]
    pub fn address(self) -> (r: u32)
        ensures
            r == self.spec_address(),
    {
        match self {
            Register::IdCode => 0x00,
            Register::Abort => 0x00,
            Register::CtrlStat => 0x04,
            Register::Wcr => 0x04,
            Register::Select => 0x08,
            Register::Resend => 0x08,
            Register::RdBuff => 0x0C,
            Register::Csw => 0x00,
            Register::Tar => 0x04,
            Register::Drw => 0x0C,
            Register::Bd0 => 0x10,
            Register::Bd1 => 0x14,
            Register::Bd2 => 0x18,
            Register::Bd3 => 0x1C,
            Register::Idr => 0xFC,
            Register::Dhcsr => 0xE000_EDF0,
            Register::Demcr => 0xE000_EDFC,
            Register::Aircr => 0xE000_ED0C,
            Register::DbgEnCtrl => 0x80,
            Register::SdaApRstCtrl => 0x90,
            Register::SdaApId => 0xFC,
        }
    }

    /// What must hold of a transaction that means this register.
    #[verifier::when_used_as_spec(spec_rule)]
    pub fn rule(self) -> (r: Rule)
        ensures
            r == self.spec_rule(),
    {
        match self {
            Register::IdCode => Rule::OnRead,
            Register::Abort => Rule::OnWrite,
            Register::CtrlStat => Rule::CtrlSelClear,
            Register::Wcr => Rule::CtrlSelSet,
            Register::Select => Rule::OnWrite,
            Register::Resend => Rule::OnRead,
            Register::RdBuff => Rule::OnRead,
            _ => Rule::Always,
        }
    }

    /// The register's bit fields, in the order in which they are shown.
    pub fn layout(self) -> (r: Vec<BitField>)
        ensures
            r@ =~= self.spec_layout(),
    {
        match self {
            Register::IdCode => vec![
                bits("Version", 31, 28, FieldStyle::Decimal, true),
                bits("PARTNO", 27, 12, FieldStyle::Decimal, true),
                bits("DESIGNER", 11, 1, FieldStyle::Decimal, true),
            ],
            Register::Abort => vec![
                flag("DAPABORT", 0, true),
                flag("STKCMPCLR", 1, true),
                flag("STKERRCLR", 2, true),
                flag("WDERRCLR", 3, true),
                flag("ORUNERRCLR", 4, true),
            ],
            Register::CtrlStat => vec![
                flag("READOK", 6, true),
                flag("WDATAERR", 7, true),
                bits("TRNCNT", 21, 12, FieldStyle::Decimal, true),
                flag("CDBGRSTREQ", 26, true),
                flag("CDBGRSTACK", 27, true),
                flag("CDBGPWRUPREQ", 28, true),
                flag("CDBGPWRUPACK", 29, true),
                flag("CSYSPWRUPREQ", 30, true),
                flag("CSYSPWRUPACK", 31, true),
            ],
            Register::Wcr => vec![
                bits("PRESCALER", 2, 0, FieldStyle::Decimal, true),
                bits("WIREMODE", 7, 6, FieldStyle::Decimal, true),
                bits("TURNROUND", 9, 8, FieldStyle::Decimal, true),
            ],
            Register::Select => vec![
                bits("APSEL", 31, 24, FieldStyle::Hex, true),
                bits("APBANKSEL", 7, 4, FieldStyle::Hex, true),
                flag("CTRLSEL", 0, true),
            ],
            Register::Tar => vec![
                bits("addr", 31, 0, FieldStyle::Hex, true),
            ],
            Register::Dhcsr => vec![
                flag("s_reset_st", 25, true),
                flag("s_retire_st", 24, false),
                flag("s_lockup", 19, false),
                flag("s_sleep", 18, false),
                flag("s_halt", 17, true),
                flag("s_regrdy", 16, false),
                flag("c_maskints", 3, false),
                flag("c_step", 2, false),
                flag("c_halt", 1, true),
                flag("c_debugen", 0, true),
            ],
            Register::Demcr => vec![
                flag("trcena", 24, true),
                flag("mon_req", 19, false),
                flag("mon_step", 18, false),
                flag("mon_pend", 17, false),
                flag("mon_en", 16, false),
                flag("vc_harderr", 10, true),
                flag("vc_interr", 9, false),
                flag("vc_buserr", 8, false),
                flag("vc_staterr", 7, false),
                flag("vc_chkerr", 6, false),
                flag("vc_nocperr", 5, false),
                flag("vc_mmerr", 4, false),
                flag("vc_corereset", 0, true),
            ],
            Register::Aircr => vec![
                bits("vectkeystat", 31, 16, FieldStyle::Hex, false),
                flag("endianness", 15, false),
                bits("prigroup", 10, 8, FieldStyle::Decimal, false),
                flag("sysresetreq", 2, true),
                flag("vectclractive", 1, true),
                flag("vectreset", 0, true),
            ],
            _ => Vec::new(),
        }
    }

    /// The catalog's entry for this register.
    pub fn describe(self) -> (d: RegisterDescriptor)
        ensures
            d@ == self.spec_describe(),
    {
        RegisterDescriptor {
            register: self,
            name: self.name(),
            space: self.space(),
            address: self.address(),
            rule: self.rule(),
            fields: self.layout(),
        }
    }

    /// Whether a transaction in `direction` at `address` of `space`, under
    /// `ctx`, means this register.
    pub open spec fn spec_applies(
        self,
        space: Space,
        address: u32,
        direction: Direction,
        ctx: DecodeContext,
    ) -> bool {
        self.spec_space() == space && self.spec_address() == address && rule_holds(
            self.spec_rule(),
            direction,
            ctx,
        )
    }

    /// Whether a transaction in `direction` at `address` of `space`, under
    /// `ctx`, means this register.
    pub fn applies(self, space: Space, address: u32, direction: Direction, ctx: &DecodeContext) -> (r:
        bool)
        ensures
            r == self.spec_applies(space, address, direction, *ctx),
    {
        self.space() == space && self.address() == address && check_rule(
            self.rule(),
            direction,
            ctx,
        )
    }
}

/// Every register, once.
pub open spec fn spec_catalog() -> Seq<Register> {
    seq![
        Register::IdCode,
        Register::Abort,
        Register::CtrlStat,
        Register::Wcr,
        Register::Select,
        Register::Resend,
        Register::RdBuff,
        Register::Csw,
        Register::Tar,
        Register::Drw,
        Register::Bd0,
        Register::Bd1,
        Register::Bd2,
        Register::Bd3,
        Register::Idr,
        Register::Dhcsr,
        Register::Demcr,
        Register::Aircr,
        Register::DbgEnCtrl,
        Register::SdaApRstCtrl,
        Register::SdaApId,
    ]
}

/// Every register, once.
pub fn catalog() -> (all: [Register; CATALOG_LEN])
    ensures
        all@ =~= spec_catalog(),
{
    [
        Register::IdCode,
        Register::Abort,
        Register::CtrlStat,
        Register::Wcr,
        Register::Select,
        Register::Resend,
        Register::RdBuff,
        Register::Csw,
        Register::Tar,
        Register::Drw,
        Register::Bd0,
        Register::Bd1,
        Register::Bd2,
        Register::Bd3,
        Register::Idr,
        Register::Dhcsr,
        Register::Demcr,
        Register::Aircr,
        Register::DbgEnCtrl,
        Register::SdaApRstCtrl,
        Register::SdaApId,
    ]
}

/// Where a register stands in the catalog.
pub open spec fn catalog_index(reg: Register) -> int {
    match reg {
        Register::IdCode => 0,
        Register::Abort => 1,
        Register::CtrlStat => 2,
        Register::Wcr => 3,
        Register::Select => 4,
        Register::Resend => 5,
        Register::RdBuff => 6,
        Register::Csw => 7,
        Register::Tar => 8,
        Register::Drw => 9,
        Register::Bd0 => 10,
        Register::Bd1 => 11,
        Register::Bd2 => 12,
        Register::Bd3 => 13,
        Register::Idr => 14,
        Register::Dhcsr => 15,
        Register::Demcr => 16,
        Register::Aircr => 17,
        Register::DbgEnCtrl => 18,
        Register::SdaApRstCtrl => 19,
        Register::SdaApId => 20,
    }
}

/// The catalog holds every register, at its index.
pub proof fn lemma_catalog_complete(reg: Register)
    ensures
        0 <= catalog_index(reg) < spec_catalog().len(),
        spec_catalog()[catalog_index(reg)] == reg,
{
}

/// No two registers are meant by the same transaction: of the registers that
/// share an address, the rules exclude each other.
pub proof fn lemma_at_most_one_applies(
    a: Register,
    b: Register,
    space: Space,
    address: u32,
    direction: Direction,
    ctx: DecodeContext,
)
    requires
        a.spec_applies(space, address, direction, ctx),
        b.spec_applies(space, address, direction, ctx),
    ensures
        a == b,
{
}

/// The register that a transaction in `direction` at `address` of `space`
/// means under `ctx`; `None` where the catalog knows none.
pub open spec fn spec_lookup(space: Space, address: u32, direction: Direction, ctx: DecodeContext)
    -> Option<Register> {
    if exists|reg: Register| reg.spec_applies(space, address, direction, ctx) {
        Some(choose|reg: Register| reg.spec_applies(space, address, direction, ctx))
    } else {
        None
    }
}

/// A register that applies is the one that the lookup gives.
pub proof fn lemma_lookup_is(
    reg: Register,
    space: Space,
    address: u32,
    direction: Direction,
    ctx: DecodeContext,
)
    requires
        reg.spec_applies(space, address, direction, ctx),
    ensures
        spec_lookup(space, address, direction, ctx) == Some(reg),
{
    let found = choose|r: Register| r.spec_applies(space, address, direction, ctx);
    lemma_at_most_one_applies(reg, found, space, address, direction, ctx);
}

/// Looks up the register that a transaction in `direction` at `address` of
/// `space` means under `ctx`.
pub fn lookup(space: Space, address: u32, direction: Direction, ctx: &DecodeContext) -> (found:
    Option<Register>)
    ensures
        found == spec_lookup(space, address, direction, *ctx),
        found is Some ==> found.unwrap().spec_applies(space, address, direction, *ctx),
        found is None ==> forall|reg: Register|
            !#[trigger] reg.spec_applies(space, address, direction, *ctx),
{
    let all = catalog();
    let mut i: usize = 0;
    while i < CATALOG_LEN
        invariant
            i <= CATALOG_LEN,
            all@ =~= spec_catalog(),
            forall|j: int|
                0 <= j < i ==> !(#[trigger] all@[j]).spec_applies(space, address, direction, *ctx),
        decreases CATALOG_LEN - i,
    {
        let reg = all[i];
        if reg.applies(space, address, direction, ctx) {
            proof {
                lemma_lookup_is(reg, space, address, direction, *ctx);
            }
            return Some(reg);
        }
        i += 1;
    }
    proof {
        assert forall|reg: Register| !#[trigger] reg.spec_applies(
            space,
            address,
            direction,
            *ctx,
        ) by {
            lemma_catalog_complete(reg);
            assert(all@[catalog_index(reg)] == reg);
        }
    }
    None
}

/// The name under which the S32K3xx documents the access port that
/// `apsel` selects, where it is one of that family's.
pub open spec fn spec_ap_label(apsel: u8) -> Option<&'static str> {
    if apsel == APB_AP_ID {
        Some("APB_AP")
    } else if apsel == CM7_0_AHB_AP_ID {
        Some("CM7_0_AHB_AP")
    } else if apsel == MDM_AP_ID {
        Some("MDM_AP")
    } else if apsel == SDA_AP_ID {
        Some("SDA_API")
    } else {
        None
    }
}

/// The name under which the S32K3xx documents the access port that
/// `apsel` selects, where it is one of that family's.
#[verifier::when_used_as_spec(spec_ap_label)]
pub fn ap_label(apsel: u8) -> (label: Option<&'static str>)
    ensures
        label == spec_ap_label(apsel),
{
    if apsel == APB_AP_ID {
        Some("APB_AP")
    } else if apsel == CM7_0_AHB_AP_ID {
        Some("CM7_0_AHB_AP")
    } else if apsel == MDM_AP_ID {
        Some("MDM_AP")
    } else if apsel == SDA_AP_ID {
        Some("SDA_API")
    } else {
        None
    }
}

/// The space in which the registers of the access port `apsel` are looked
/// up.
pub open spec fn spec_ap_space(apsel: u8) -> Space {
    if apsel == SDA_AP_ID {
        Space::SdaAccessPort
    } else if apsel == MDM_AP_ID {
        Space::MdmAccessPort
    } else {
        Space::AccessPort
    }
}

/// The space in which the registers of the access port `apsel` are looked
/// up.
#[verifier::when_used_as_spec(spec_ap_space)]
pub fn ap_space(apsel: u8) -> (space: Space)
    ensures
        space == spec_ap_space(apsel),
{
    if apsel == SDA_AP_ID {
        Space::SdaAccessPort
    } else if apsel == MDM_AP_ID {
        Space::MdmAccessPort
    } else {
        Space::AccessPort
    }
}

} // verus!
