//! The instruction catalog: registers, the closed set of instruction
//! shapes, the mnemonic dispatcher and the canonical serializer, each tied
//! to a spec-level definition of the textual grammar.

use vstd::prelude::*;
use vstd::string::*;

use crate::ParseError;
use crate::field_ref::{FieldRef, SpecFieldRef, parse_field_ref, spec_field_ref_text,
    spec_parse_field_ref};
use crate::method_ref::{MethodRef, SpecMethodRef, parse_method_ref, spec_method_ref_text,
    spec_parse_method_ref};
use crate::num::{int_lit_value, parse_int_lit_i8, parse_int_lit_i16, parse_int_lit_i32,
    parse_int_lit_i64, spec_dec_signed, spec_dec_u64, spec_digits_val, spec_hex4,
    spec_hex_u64, i64_to_dec, u64_to_dec, u64_to_hex, u16_to_hex4, digits_val_u64};
use crate::op::{Label, parse_label, spec_label_text, spec_parse_label};
use crate::signature::type_signature::{SpecTypeSignature, TypeSignature,
    parse_typesignature, spec_parse_typesignature, spec_ts_jni};
use crate::text::{dec_end, spec_dec_end, mnemonic_end,
    spec_mnemonic_end, skip_ws, spec_skip_ws, str_eq, spec_parse_string_lit,
    parse_string_lit, spec_until_char, until_char, alnum_end, spec_alnum_end};

verus! {

/// A virtual register: a method parameter or a local slot.
#[derive(Debug, Clone, Copy, PartialEq, Eq, Structural)]
pub enum Register {
    Parameter(u16),
    Local(u16),
}

/// The text of a register: `p` or `v` and the decimal index.
pub open spec fn spec_register_text(r: Register) -> Seq<char> {
    match r {
        Register::Parameter(n) => seq!['p'] + spec_dec_u64(n as int),
        Register::Local(n) => seq!['v'] + spec_dec_u64(n as int),
    }
}

/// The register grammar at `i`, after leading whitespace: `v` or `p` and
/// one or more decimal digits whose value fits 16 bits.
pub open spec fn spec_parse_register(s: Seq<char>, i: int) -> Option<(Register, int)> {
    let i0 = spec_skip_ws(s, i);
    if i <= i0 && i0 < s.len() && (s[i0] == 'v' || s[i0] == 'p') {
        let e = spec_dec_end(s, i0 + 1);
        if i0 + 1 < e <= s.len() {
            let val = spec_digits_val(s, i0 + 1, e, 10, 0);
            if val <= 65535 {
                if s[i0] == 'p' {
                    Some((Register::Parameter(val as u16), e))
                } else {
                    Some((Register::Local(val as u16), e))
                }
            } else {
                None
            }
        } else {
            None
        }
    } else {
        None
    }
}

impl Register {
    /// Render this register as `p<n>` or `v<n>`.
    pub fn to_smali(&self) -> (r: String)
        ensures
            r@ == spec_register_text(*self),
    {
        let mut s = String::new();
        match self {
            Register::Parameter(n) => {
                s.push('p');
                let d = u64_to_dec(*n as u64);
                s.append(d.as_str());
            },
            Register::Local(n) => {
                s.push('v');
                let d = u64_to_dec(*n as u64);
                s.append(d.as_str());
            },
        }
        proof {
            assert(s@ =~= spec_register_text(*self));
        }
        s
    }
}

/// Parse a register reference like `v0` or `p1`.
pub fn parse_register(s: &str, i: usize) -> (r: Result<(Register, usize), ParseError>)
    requires
        i <= s@.len(),
    ensures
        match spec_parse_register(s@, i as int) {
            Some((v, j)) => r matches Ok(p) && p.0 == v && p.1 == j && i <= j <= s@.len(),
            None => r is Err,
        },
        r matches Err(e) ==> if spec_skip_ws(s@, i as int) >= s@.len() {
            e is ArityMismatch
        } else {
            e is MalformedOperand
        },
{
    let i0 = skip_ws(s, i);
    if i0 >= s.unicode_len() {
        return Err(ParseError::ArityMismatch(i0));
    }
    let c = s.get_char(i0);
    if c == 'v' || c == 'p' {
        let e = dec_end(s, i0 + 1);
        if e > i0 + 1 {
            proof {
                crate::num::lemma_digit_run_is_digits(s@, i0 + 1, e as int, false);
            }
            match digits_val_u64(s, i0 + 1, e, 10, 0) {
                Some(val) => {
                    if val <= 65535 {
                        if c == 'p' {
                            Ok((Register::Parameter(val as u16), e))
                        } else {
                            Ok((Register::Local(val as u16), e))
                        }
                    } else {
                        Err(ParseError::MalformedOperand(i0))
                    }
                },
                None => Err(ParseError::MalformedOperand(i0)),
            }
        } else {
            Err(ParseError::MalformedOperand(i0))
        }
    } else {
        Err(ParseError::MalformedOperand(i0))
    }
}

/// A symbolic range of registers as written in smali, e.g. `{v0 .. v6}`.
#[derive(Debug, Clone, Copy, PartialEq, Eq, Structural)]
pub struct RegisterRange {
    pub start: Register,
    pub end: Register,
}

/// The text of a register range: `{ start .. end }`.
pub open spec fn spec_register_range_text(r: RegisterRange) -> Seq<char> {
    seq!['{', ' '] + spec_register_text(r.start) + seq![' ', '.', '.', ' ']
        + spec_register_text(r.end) + seq![' ', '}']
}

impl RegisterRange {
    /// Render this range in smali style: `{ v0 .. v6 }`.
    pub fn to_smali(&self) -> (r: String)
        ensures
            r@ == spec_register_range_text(*self),
    {
        let mut s = String::new();
        s.push('{');
        s.push(' ');
        let a = self.start.to_smali();
        s.append(a.as_str());
        s.push(' ');
        s.push('.');
        s.push('.');
        s.push(' ');
        let b = self.end.to_smali();
        s.append(b.as_str());
        s.push(' ');
        s.push('}');
        proof {
            assert(s@ =~= spec_register_range_text(*self));
        }
        s
    }
}

/// Position after a comma token, leading whitespace skipped.
pub open spec fn spec_comma(s: Seq<char>, i: int) -> Option<int> {
    let i0 = spec_skip_ws(s, i);
    if i <= i0 && i0 < s.len() && s[i0] == ',' {
        Some(i0 + 1)
    } else {
        None
    }
}

/// Consume a comma, leading whitespace skipped. Reports an arity mismatch
/// where the line ends instead.
fn comma(s: &str, i: usize) -> (r: Result<usize, ParseError>)
    requires
        i <= s@.len(),
    ensures
        match spec_comma(s@, i as int) {
            Some(j) => r matches Ok(q) && q == j && i <= j <= s@.len(),
            None => r is Err,
        },
        r matches Err(e) ==> e is ArityMismatch,
{
    let i0 = skip_ws(s, i);
    if i0 >= s.unicode_len() {
        Err(ParseError::ArityMismatch(i0))
    } else if s.get_char(i0) == ',' {
        Ok(i0 + 1)
    } else {
        Err(ParseError::ArityMismatch(i0))
    }
}

/// The registers of a brace-enclosed list from `i` on, with the position
/// after the last register.
pub open spec fn spec_reg_list_items(s: Seq<char>, i: int) -> Option<(Seq<Register>, int)>
    decreases s.len() - i,
{
    match spec_parse_register(s, i) {
        Some((r, j)) => if i < j <= s.len() {
            match spec_comma(s, j) {
                Some(j2) => if j < j2 {
                    match spec_reg_list_items(s, j2) {
                        Some((rest, k)) => Some((seq![r] + rest, k)),
                        None => None,
                    }
                } else {
                    None
                },
                None => Some((seq![r], j)),
            }
        } else {
            None
        },
        None => None,
    }
}

/// The register-list grammar at `i`: `{`, zero or more comma-separated
/// registers, `}`.
pub open spec fn spec_parse_register_list(s: Seq<char>, i: int) -> Option<(Seq<Register>, int)> {
    let i0 = spec_skip_ws(s, i);
    if i <= i0 && i0 < s.len() && s[i0] == '{' {
        let q = spec_skip_ws(s, i0 + 1);
        if i0 < q && q < s.len() && s[q] == '}' {
            Some((Seq::empty(), q + 1))
        } else {
            match spec_reg_list_items(s, i0 + 1) {
                Some((regs, j)) => {
                    let j2 = spec_skip_ws(s, j);
                    if j <= j2 && j2 < s.len() && s[j2] == '}' {
                        Some((regs, j2 + 1))
                    } else {
                        None
                    }
                },
                None => None,
            }
        }
    } else {
        None
    }
}

fn reg_list_items(s: &str, i: usize) -> (r: Result<(Vec<Register>, usize), ParseError>)
    requires
        i <= s@.len(),
    ensures
        match spec_reg_list_items(s@, i as int) {
            Some((l, j)) => r matches Ok(p) && p.0@ == l && p.1 == j && i <= j <= s@.len(),
            None => r is Err,
        },
        r matches Err(e) ==> (e is ArityMismatch <==> spec_reg_list_items_err_arity(s@, i as int))
            && (e is MalformedOperand <==> !spec_reg_list_items_err_arity(s@, i as int)),
    decreases s@.len() - i,
{
    match parse_register(s, i) {
        Ok((reg, j)) => {
            if j <= i {
                return Err(ParseError::MalformedOperand(i));
            }
            match comma(s, j) {
                Ok(j2) => {
                    if j2 <= j {
                        return Err(ParseError::MalformedOperand(j));
                    }
                    match reg_list_items(s, j2) {
                        Ok((mut rest, k)) => {
                            proof {
                                assert(rest@.insert(0, reg) =~= seq![reg] + rest@);
                            }
                            rest.insert(0, reg);
                            Ok((rest, k))
                        },
                        Err(e) => Err(e),
                    }
                },
                Err(_) => {
                    let v: Vec<Register> = vec![reg];
                    proof {
                        assert(v@ =~= seq![reg]);
                    }
                    Ok((v, j))
                },
            }
        },
        Err(e) => Err(e),
    }
}

/// Parse a comma-separated list of registers inside curly braces.
fn parse_register_list(s: &str, i: usize) -> (r: Result<(Vec<Register>, usize), ParseError>)
    requires
        i <= s@.len(),
    ensures
        match spec_parse_register_list(s@, i as int) {
            Some((l, j)) => r matches Ok(p) && p.0@ == l && p.1 == j && i <= j <= s@.len(),
            None => r is Err,
        },
        r matches Err(e) ==> (e is ArityMismatch <==> spec_reg_list_err_arity(s@, i as int))
            && (e is MalformedOperand <==> !spec_reg_list_err_arity(s@, i as int)),
{
    let i0 = skip_ws(s, i);
    if i0 < s.unicode_len() && s.get_char(i0) == '{' {
        let q = skip_ws(s, i0 + 1);
        if q < s.unicode_len() && s.get_char(q) == '}' {
            let v: Vec<Register> = Vec::new();
            Ok((v, q + 1))
        } else {
            match reg_list_items(s, i0 + 1) {
                Ok((regs, j)) => {
                    let j2 = skip_ws(s, j);
                    if j2 < s.unicode_len() && s.get_char(j2) == '}' {
                        Ok((regs, j2 + 1))
                    } else {
                        Err(ParseError::MalformedOperand(j2))
                    }
                },
                Err(e) => Err(e),
            }
        }
    } else {
        Err(ParseError::MalformedOperand(i0))
    }
}

/// The register-range grammar at `i`: `{`, a register, `..`, a register,
/// `}`.
pub open spec fn spec_parse_register_range(s: Seq<char>, i: int) -> Option<
    (RegisterRange, int),
> {
    let i0 = spec_skip_ws(s, i);
    if i <= i0 && i0 < s.len() && s[i0] == '{' {
        match spec_parse_register(s, i0 + 1) {
            Some((start, j)) => {
                let j2 = spec_skip_ws(s, j);
                if j <= j2 && j2 + 2 <= s.len() && s[j2] == '.' && s[j2 + 1] == '.' {
                    match spec_parse_register(s, j2 + 2) {
                        Some((end, k)) => {
                            let k2 = spec_skip_ws(s, k);
                            if k <= k2 && k2 < s.len() && s[k2] == '}' {
                                Some((RegisterRange { start, end }, k2 + 1))
                            } else {
                                None
                            }
                        },
                        None => None,
                    }
                } else {
                    None
                }
            },
            None => None,
        }
    } else {
        None
    }
}

/// Parse a register range enclosed in braces, e.g. `{v0 .. v6}`.
fn parse_register_range(s: &str, i: usize) -> (r: Result<(RegisterRange, usize), ParseError>)
    requires
        i <= s@.len(),
    ensures
        match spec_parse_register_range(s@, i as int) {
            Some((v, j)) => r matches Ok(p) && p.0 == v && p.1 == j && i <= j <= s@.len(),
            None => r is Err,
        },
        r matches Err(e) ==> (e is ArityMismatch <==> spec_reg_range_err_arity(s@, i as int))
            && (e is MalformedOperand <==> !spec_reg_range_err_arity(s@, i as int)),
{
    let i0 = skip_ws(s, i);
    if i0 < s.unicode_len() && s.get_char(i0) == '{' {
        match parse_register(s, i0 + 1) {
            Ok((start, j)) => {
                let j2 = skip_ws(s, j);
                if s.unicode_len() - j2 >= 2 && s.get_char(j2) == '.' && s.get_char(j2 + 1)
                    == '.' {
                    match parse_register(s, j2 + 2) {
                        Ok((end, k)) => {
                            let k2 = skip_ws(s, k);
                            if k2 < s.unicode_len() && s.get_char(k2) == '}' {
                                Ok((RegisterRange { start, end }, k2 + 1))
                            } else {
                                Err(ParseError::MalformedOperand(k2))
                            }
                        },
                        Err(e) => Err(e),
                    }
                } else {
                    Err(ParseError::MalformedOperand(j2))
                }
            },
            Err(e) => Err(e),
        }
    } else {
        Err(ParseError::MalformedOperand(i0))
    }
}

#[derive(Debug, Clone, Copy, PartialEq, Eq, Structural)]
pub enum InvokeType {
    Virtual,
    Super,
    Interface,
    Direct,
    Static,
    VirtualRange,
    SuperRange,
    DirectRange,
    StaticRange,
    InterfaceRange,
    Polymorphic,
    PolymorphicRange,
    Custom,
    CustomRange,
}

impl InvokeType {
    /// The mnemonic this variant is written as.
    pub open spec fn spec_mnemonic(self) -> Seq<char> {
        match self {
            InvokeType::Virtual => "invoke-virtual"@,
            InvokeType::Super => "invoke-super"@,
            InvokeType::Interface => "invoke-interface"@,
            InvokeType::Direct => "invoke-direct"@,
            InvokeType::Static => "invoke-static"@,
            InvokeType::VirtualRange => "invoke-virtual/range"@,
            InvokeType::SuperRange => "invoke-super/range"@,
            InvokeType::DirectRange => "invoke-direct/range"@,
            InvokeType::StaticRange => "invoke-static/range"@,
            InvokeType::InterfaceRange => "invoke-interface/range"@,
            InvokeType::Polymorphic => "invoke-polymorphic"@,
            InvokeType::PolymorphicRange => "invoke-polymorphic/range"@,
            InvokeType::Custom => "invoke-custom"@,
            InvokeType::CustomRange => "invoke-custom/range"@,
        }
    }

    /// The variant a mnemonic token denotes, if any.
    pub open spec fn spec_of_mnemonic(t: Seq<char>) -> Option<InvokeType> {
        if t == "invoke-virtual"@ {
            Some(InvokeType::Virtual)
        } else if t == "invoke-super"@ {
            Some(InvokeType::Super)
        } else if t == "invoke-interface"@ {
            Some(InvokeType::Interface)
        } else if t == "invoke-direct"@ {
            Some(InvokeType::Direct)
        } else if t == "invoke-static"@ {
            Some(InvokeType::Static)
        } else if t == "invoke-virtual/range"@ {
            Some(InvokeType::VirtualRange)
        } else if t == "invoke-super/range"@ {
            Some(InvokeType::SuperRange)
        } else if t == "invoke-direct/range"@ {
            Some(InvokeType::DirectRange)
        } else if t == "invoke-static/range"@ {
            Some(InvokeType::StaticRange)
        } else if t == "invoke-interface/range"@ {
            Some(InvokeType::InterfaceRange)
        } else if t == "invoke-polymorphic"@ {
            Some(InvokeType::Polymorphic)
        } else if t == "invoke-polymorphic/range"@ {
            Some(InvokeType::PolymorphicRange)
        } else if t == "invoke-custom"@ {
            Some(InvokeType::Custom)
        } else if t == "invoke-custom/range"@ {
            Some(InvokeType::CustomRange)
        } else {
            None
        }
    }

    /// Render the mnemonic of this variant.
    pub fn mnemonic(&self) -> (r: &'static str)
        ensures
            r@ == self.spec_mnemonic(),
    {
        match self {
            InvokeType::Virtual => "invoke-virtual",
            InvokeType::Super => "invoke-super",
            InvokeType::Interface => "invoke-interface",
            InvokeType::Direct => "invoke-direct",
            InvokeType::Static => "invoke-static",
            InvokeType::VirtualRange => "invoke-virtual/range",
            InvokeType::SuperRange => "invoke-super/range",
            InvokeType::DirectRange => "invoke-direct/range",
            InvokeType::StaticRange => "invoke-static/range",
            InvokeType::InterfaceRange => "invoke-interface/range",
            InvokeType::Polymorphic => "invoke-polymorphic",
            InvokeType::PolymorphicRange => "invoke-polymorphic/range",
            InvokeType::Custom => "invoke-custom",
            InvokeType::CustomRange => "invoke-custom/range",
        }
    }

    /// Look a mnemonic token up.
    pub fn from_mnemonic(t: &str) -> (r: Option<InvokeType>)
        ensures
            r == Self::spec_of_mnemonic(t@),
    {
        if str_eq(t, "invoke-virtual") {
            Some(InvokeType::Virtual)
        } else if str_eq(t, "invoke-super") {
            Some(InvokeType::Super)
        } else if str_eq(t, "invoke-interface") {
            Some(InvokeType::Interface)
        } else if str_eq(t, "invoke-direct") {
            Some(InvokeType::Direct)
        } else if str_eq(t, "invoke-static") {
            Some(InvokeType::Static)
        } else if str_eq(t, "invoke-virtual/range") {
            Some(InvokeType::VirtualRange)
        } else if str_eq(t, "invoke-super/range") {
            Some(InvokeType::SuperRange)
        } else if str_eq(t, "invoke-direct/range") {
            Some(InvokeType::DirectRange)
        } else if str_eq(t, "invoke-static/range") {
            Some(InvokeType::StaticRange)
        } else if str_eq(t, "invoke-interface/range") {
            Some(InvokeType::InterfaceRange)
        } else if str_eq(t, "invoke-polymorphic") {
            Some(InvokeType::Polymorphic)
        } else if str_eq(t, "invoke-polymorphic/range") {
            Some(InvokeType::PolymorphicRange)
        } else if str_eq(t, "invoke-custom") {
            Some(InvokeType::Custom)
        } else if str_eq(t, "invoke-custom/range") {
            Some(InvokeType::CustomRange)
        } else {
            None
        }
    }
}

#[derive(Debug, Clone, Copy, PartialEq, Eq, Structural)]
pub enum ConstType {
    String,
    StringJumbo,
    Class,
    MethodHandle,
    MethodType,
}

impl ConstType {
    /// The mnemonic this variant is written as.
    pub open spec fn spec_mnemonic(self) -> Seq<char> {
        match self {
            ConstType::String => "const-string"@,
            ConstType::StringJumbo => "const-string/jumbo"@,
            ConstType::Class => "const-class"@,
            ConstType::MethodHandle => "const-method-handle"@,
            ConstType::MethodType => "const-method-type"@,
        }
    }

    /// The variant a mnemonic token denotes, if any.
    pub open spec fn spec_of_mnemonic(t: Seq<char>) -> Option<ConstType> {
        if t == "const-string"@ {
            Some(ConstType::String)
        } else if t == "const-string/jumbo"@ {
            Some(ConstType::StringJumbo)
        } else if t == "const-class"@ {
            Some(ConstType::Class)
        } else if t == "const-method-handle"@ {
            Some(ConstType::MethodHandle)
        } else if t == "const-method-type"@ {
            Some(ConstType::MethodType)
        } else {
            None
        }
    }

    /// Render the mnemonic of this variant.
    pub fn mnemonic(&self) -> (r: &'static str)
        ensures
            r@ == self.spec_mnemonic(),
    {
        match self {
            ConstType::String => "const-string",
            ConstType::StringJumbo => "const-string/jumbo",
            ConstType::Class => "const-class",
            ConstType::MethodHandle => "const-method-handle",
            ConstType::MethodType => "const-method-type",
        }
    }

    /// Look a mnemonic token up.
    pub fn from_mnemonic(t: &str) -> (r: Option<ConstType>)
        ensures
            r == Self::spec_of_mnemonic(t@),
    {
        if str_eq(t, "const-string") {
            Some(ConstType::String)
        } else if str_eq(t, "const-string/jumbo") {
            Some(ConstType::StringJumbo)
        } else if str_eq(t, "const-class") {
            Some(ConstType::Class)
        } else if str_eq(t, "const-method-handle") {
            Some(ConstType::MethodHandle)
        } else if str_eq(t, "const-method-type") {
            Some(ConstType::MethodType)
        } else {
            None
        }
    }
}

#[derive(Debug, Clone, Copy, PartialEq, Eq, Structural)]
pub enum TwoRegMoveType {
    Normal,
    From16,
    Wide,
    WideFrom16,
    Wide16,
    Object,
    ObjectFrom16,
    Object16,
}

impl TwoRegMoveType {
    /// The mnemonic this variant is written as.
    pub open spec fn spec_mnemonic(self) -> Seq<char> {
        match self {
            TwoRegMoveType::Normal => "move"@,
            TwoRegMoveType::From16 => "move/from16"@,
            TwoRegMoveType::Wide => "move-wide"@,
            TwoRegMoveType::WideFrom16 => "move-wide/from16"@,
            TwoRegMoveType::Wide16 => "move-wide/16"@,
            TwoRegMoveType::Object => "move-object"@,
            TwoRegMoveType::ObjectFrom16 => "move-object/from16"@,
            TwoRegMoveType::Object16 => "move-object/16"@,
        }
    }

    /// The variant a mnemonic token denotes, if any.
    pub open spec fn spec_of_mnemonic(t: Seq<char>) -> Option<TwoRegMoveType> {
        if t == "move"@ {
            Some(TwoRegMoveType::Normal)
        } else if t == "move/from16"@ {
            Some(TwoRegMoveType::From16)
        } else if t == "move-wide"@ {
            Some(TwoRegMoveType::Wide)
        } else if t == "move-wide/from16"@ {
            Some(TwoRegMoveType::WideFrom16)
        } else if t == "move-wide/16"@ {
            Some(TwoRegMoveType::Wide16)
        } else if t == "move-object"@ {
            Some(TwoRegMoveType::Object)
        } else if t == "move-object/from16"@ {
            Some(TwoRegMoveType::ObjectFrom16)
        } else if t == "move-object/16"@ {
            Some(TwoRegMoveType::Object16)
        } else {
            None
        }
    }

    /// Render the mnemonic of this variant.
    pub fn mnemonic(&self) -> (r: &'static str)
        ensures
            r@ == self.spec_mnemonic(),
    {
        match self {
            TwoRegMoveType::Normal => "move",
            TwoRegMoveType::From16 => "move/from16",
            TwoRegMoveType::Wide => "move-wide",
            TwoRegMoveType::WideFrom16 => "move-wide/from16",
            TwoRegMoveType::Wide16 => "move-wide/16",
            TwoRegMoveType::Object => "move-object",
            TwoRegMoveType::ObjectFrom16 => "move-object/from16",
            TwoRegMoveType::Object16 => "move-object/16",
        }
    }

    /// Look a mnemonic token up.
    pub fn from_mnemonic(t: &str) -> (r: Option<TwoRegMoveType>)
        ensures
            r == Self::spec_of_mnemonic(t@),
    {
        if str_eq(t, "move") {
            Some(TwoRegMoveType::Normal)
        } else if str_eq(t, "move/from16") {
            Some(TwoRegMoveType::From16)
        } else if str_eq(t, "move-wide") {
            Some(TwoRegMoveType::Wide)
        } else if str_eq(t, "move-wide/from16") {
            Some(TwoRegMoveType::WideFrom16)
        } else if str_eq(t, "move-wide/16") {
            Some(TwoRegMoveType::Wide16)
        } else if str_eq(t, "move-object") {
            Some(TwoRegMoveType::Object)
        } else if str_eq(t, "move-object/from16") {
            Some(TwoRegMoveType::ObjectFrom16)
        } else if str_eq(t, "move-object/16") {
            Some(TwoRegMoveType::Object16)
        } else {
            None
        }
    }
}

#[derive(Debug, Clone, Copy, PartialEq, Eq, Structural)]
pub enum OneRegMoveType {
    Result,
    ResultWide,
    ResultObject,
    Exception,
}

impl OneRegMoveType {
    /// The mnemonic this variant is written as.
    pub open spec fn spec_mnemonic(self) -> Seq<char> {
        match self {
            OneRegMoveType::Result => "move-result"@,
            OneRegMoveType::ResultWide => "move-result-wide"@,
            OneRegMoveType::ResultObject => "move-result-object"@,
            OneRegMoveType::Exception => "move-exception"@,
        }
    }

    /// The variant a mnemonic token denotes, if any.
    pub open spec fn spec_of_mnemonic(t: Seq<char>) -> Option<OneRegMoveType> {
        if t == "move-result"@ {
            Some(OneRegMoveType::Result)
        } else if t == "move-result-wide"@ {
            Some(OneRegMoveType::ResultWide)
        } else if t == "move-result-object"@ {
            Some(OneRegMoveType::ResultObject)
        } else if t == "move-exception"@ {
            Some(OneRegMoveType::Exception)
        } else {
            None
        }
    }

    /// Render the mnemonic of this variant.
    pub fn mnemonic(&self) -> (r: &'static str)
        ensures
            r@ == self.spec_mnemonic(),
    {
        match self {
            OneRegMoveType::Result => "move-result",
            OneRegMoveType::ResultWide => "move-result-wide",
            OneRegMoveType::ResultObject => "move-result-object",
            OneRegMoveType::Exception => "move-exception",
        }
    }

    /// Look a mnemonic token up.
    pub fn from_mnemonic(t: &str) -> (r: Option<OneRegMoveType>)
        ensures
            r == Self::spec_of_mnemonic(t@),
    {
        if str_eq(t, "move-result") {
            Some(OneRegMoveType::Result)
        } else if str_eq(t, "move-result-wide") {
            Some(OneRegMoveType::ResultWide)
        } else if str_eq(t, "move-result-object") {
            Some(OneRegMoveType::ResultObject)
        } else if str_eq(t, "move-exception") {
            Some(OneRegMoveType::Exception)
        } else {
            None
        }
    }
}

#[derive(Debug, Clone, Copy, PartialEq, Eq, Structural)]
pub enum ReturnType {
    Void,
    Normal,
    Wide,
    Object,
}

impl ReturnType {
    /// The mnemonic this variant is written as.
    pub open spec fn spec_mnemonic(self) -> Seq<char> {
        match self {
            ReturnType::Void => "return-void"@,
            ReturnType::Normal => "return"@,
            ReturnType::Wide => "return-wide"@,
            ReturnType::Object => "return-object"@,
        }
    }

    /// The variant a mnemonic token denotes, if any.
    pub open spec fn spec_of_mnemonic(t: Seq<char>) -> Option<ReturnType> {
        if t == "return-void"@ {
            Some(ReturnType::Void)
        } else if t == "return"@ {
            Some(ReturnType::Normal)
        } else if t == "return-wide"@ {
            Some(ReturnType::Wide)
        } else if t == "return-object"@ {
            Some(ReturnType::Object)
        } else {
            None
        }
    }

    /// Render the mnemonic of this variant.
    pub fn mnemonic(&self) -> (r: &'static str)
        ensures
            r@ == self.spec_mnemonic(),
    {
        match self {
            ReturnType::Void => "return-void",
            ReturnType::Normal => "return",
            ReturnType::Wide => "return-wide",
            ReturnType::Object => "return-object",
        }
    }

    /// Look a mnemonic token up.
    pub fn from_mnemonic(t: &str) -> (r: Option<ReturnType>)
        ensures
            r == Self::spec_of_mnemonic(t@),
    {
        if str_eq(t, "return-void") {
            Some(ReturnType::Void)
        } else if str_eq(t, "return") {
            Some(ReturnType::Normal)
        } else if str_eq(t, "return-wide") {
            Some(ReturnType::Wide)
        } else if str_eq(t, "return-object") {
            Some(ReturnType::Object)
        } else {
            None
        }
    }
}

#[derive(Debug, Clone, Copy, PartialEq, Eq, Structural)]
pub enum StaticFieldAccessType {
    Get,
    Put,
}

impl StaticFieldAccessType {
    /// The mnemonic this variant is written as.
    pub open spec fn spec_mnemonic(self) -> Seq<char> {
        match self {
            StaticFieldAccessType::Get => "sget"@,
            StaticFieldAccessType::Put => "sput"@,
        }
    }

    /// The variant a mnemonic token denotes, if any.
    pub open spec fn spec_of_mnemonic(t: Seq<char>) -> Option<StaticFieldAccessType> {
        if t == "sget"@ {
            Some(StaticFieldAccessType::Get)
        } else if t == "sput"@ {
            Some(StaticFieldAccessType::Put)
        } else {
            None
        }
    }

    /// Render the mnemonic of this variant.
    pub fn mnemonic(&self) -> (r: &'static str)
        ensures
            r@ == self.spec_mnemonic(),
    {
        match self {
            StaticFieldAccessType::Get => "sget",
            StaticFieldAccessType::Put => "sput",
        }
    }

    /// Look a mnemonic token up.
    pub fn from_mnemonic(t: &str) -> (r: Option<StaticFieldAccessType>)
        ensures
            r == Self::spec_of_mnemonic(t@),
    {
        if str_eq(t, "sget") {
            Some(StaticFieldAccessType::Get)
        } else if str_eq(t, "sput") {
            Some(StaticFieldAccessType::Put)
        } else {
            None
        }
    }
}

#[derive(Debug, Clone, Copy, PartialEq, Eq, Structural)]
pub enum DynamicFieldAccessType {
    Get,
    Put,
}

impl DynamicFieldAccessType {
    /// The mnemonic this variant is written as.
    pub open spec fn spec_mnemonic(self) -> Seq<char> {
        match self {
            DynamicFieldAccessType::Get => "iget"@,
            DynamicFieldAccessType::Put => "iput"@,
        }
    }

    /// The variant a mnemonic token denotes, if any.
    pub open spec fn spec_of_mnemonic(t: Seq<char>) -> Option<DynamicFieldAccessType> {
        if t == "iget"@ {
            Some(DynamicFieldAccessType::Get)
        } else if t == "iput"@ {
            Some(DynamicFieldAccessType::Put)
        } else {
            None
        }
    }

    /// Render the mnemonic of this variant.
    pub fn mnemonic(&self) -> (r: &'static str)
        ensures
            r@ == self.spec_mnemonic(),
    {
        match self {
            DynamicFieldAccessType::Get => "iget",
            DynamicFieldAccessType::Put => "iput",
        }
    }

    /// Look a mnemonic token up.
    pub fn from_mnemonic(t: &str) -> (r: Option<DynamicFieldAccessType>)
        ensures
            r == Self::spec_of_mnemonic(t@),
    {
        if str_eq(t, "iget") {
            Some(DynamicFieldAccessType::Get)
        } else if str_eq(t, "iput") {
            Some(DynamicFieldAccessType::Put)
        } else {
            None
        }
    }
}

#[derive(Debug, Clone, Copy, PartialEq, Eq, Structural)]
pub enum FieldValueType {
    Normal,
    Wide,
    Object,
    Boolean,
    Byte,
    Char,
    Short,
}

impl FieldValueType {
    /// The mnemonic this variant is written as.
    pub open spec fn spec_mnemonic(self) -> Seq<char> {
        match self {
            FieldValueType::Normal => ""@,
            FieldValueType::Wide => "wide"@,
            FieldValueType::Object => "object"@,
            FieldValueType::Boolean => "boolean"@,
            FieldValueType::Byte => "byte"@,
            FieldValueType::Char => "char"@,
            FieldValueType::Short => "short"@,
        }
    }

    /// The variant a mnemonic token denotes, if any.
    pub open spec fn spec_of_mnemonic(t: Seq<char>) -> Option<FieldValueType> {
        if t == ""@ {
            Some(FieldValueType::Normal)
        } else if t == "wide"@ {
            Some(FieldValueType::Wide)
        } else if t == "object"@ {
            Some(FieldValueType::Object)
        } else if t == "boolean"@ {
            Some(FieldValueType::Boolean)
        } else if t == "byte"@ {
            Some(FieldValueType::Byte)
        } else if t == "char"@ {
            Some(FieldValueType::Char)
        } else if t == "short"@ {
            Some(FieldValueType::Short)
        } else {
            None
        }
    }

    /// Render the mnemonic of this variant.
    pub fn mnemonic(&self) -> (r: &'static str)
        ensures
            r@ == self.spec_mnemonic(),
    {
        match self {
            FieldValueType::Normal => "",
            FieldValueType::Wide => "wide",
            FieldValueType::Object => "object",
            FieldValueType::Boolean => "boolean",
            FieldValueType::Byte => "byte",
            FieldValueType::Char => "char",
            FieldValueType::Short => "short",
        }
    }

    /// Look a mnemonic token up.
    pub fn from_mnemonic(t: &str) -> (r: Option<FieldValueType>)
        ensures
            r == Self::spec_of_mnemonic(t@),
    {
        if str_eq(t, "") {
            Some(FieldValueType::Normal)
        } else if str_eq(t, "wide") {
            Some(FieldValueType::Wide)
        } else if str_eq(t, "object") {
            Some(FieldValueType::Object)
        } else if str_eq(t, "boolean") {
            Some(FieldValueType::Boolean)
        } else if str_eq(t, "byte") {
            Some(FieldValueType::Byte)
        } else if str_eq(t, "char") {
            Some(FieldValueType::Char)
        } else if str_eq(t, "short") {
            Some(FieldValueType::Short)
        } else {
            None
        }
    }
}

#[derive(Debug, Clone, Copy, PartialEq, Eq, Structural)]
pub enum ArithType {
    Add,
    Sub,
    Mul,
    Div,
    Rem,
    And,
    Or,
    Xor,
    Shl,
    Shr,
    Ushr,
}

impl ArithType {
    /// The mnemonic this variant is written as.
    pub open spec fn spec_mnemonic(self) -> Seq<char> {
        match self {
            ArithType::Add => "add"@,
            ArithType::Sub => "sub"@,
            ArithType::Mul => "mul"@,
            ArithType::Div => "div"@,
            ArithType::Rem => "rem"@,
            ArithType::And => "and"@,
            ArithType::Or => "or"@,
            ArithType::Xor => "xor"@,
            ArithType::Shl => "shl"@,
            ArithType::Shr => "shr"@,
            ArithType::Ushr => "ushr"@,
        }
    }

    /// The variant a mnemonic token denotes, if any.
    pub open spec fn spec_of_mnemonic(t: Seq<char>) -> Option<ArithType> {
        if t == "add"@ {
            Some(ArithType::Add)
        } else if t == "sub"@ {
            Some(ArithType::Sub)
        } else if t == "mul"@ {
            Some(ArithType::Mul)
        } else if t == "div"@ {
            Some(ArithType::Div)
        } else if t == "rem"@ {
            Some(ArithType::Rem)
        } else if t == "and"@ {
            Some(ArithType::And)
        } else if t == "or"@ {
            Some(ArithType::Or)
        } else if t == "xor"@ {
            Some(ArithType::Xor)
        } else if t == "shl"@ {
            Some(ArithType::Shl)
        } else if t == "shr"@ {
            Some(ArithType::Shr)
        } else if t == "ushr"@ {
            Some(ArithType::Ushr)
        } else {
            None
        }
    }

    /// Render the mnemonic of this variant.
    pub fn mnemonic(&self) -> (r: &'static str)
        ensures
            r@ == self.spec_mnemonic(),
    {
        match self {
            ArithType::Add => "add",
            ArithType::Sub => "sub",
            ArithType::Mul => "mul",
            ArithType::Div => "div",
            ArithType::Rem => "rem",
            ArithType::And => "and",
            ArithType::Or => "or",
            ArithType::Xor => "xor",
            ArithType::Shl => "shl",
            ArithType::Shr => "shr",
            ArithType::Ushr => "ushr",
        }
    }

    /// Look a mnemonic token up.
    pub fn from_mnemonic(t: &str) -> (r: Option<ArithType>)
        ensures
            r == Self::spec_of_mnemonic(t@),
    {
        if str_eq(t, "add") {
            Some(ArithType::Add)
        } else if str_eq(t, "sub") {
            Some(ArithType::Sub)
        } else if str_eq(t, "mul") {
            Some(ArithType::Mul)
        } else if str_eq(t, "div") {
            Some(ArithType::Div)
        } else if str_eq(t, "rem") {
            Some(ArithType::Rem)
        } else if str_eq(t, "and") {
            Some(ArithType::And)
        } else if str_eq(t, "or") {
            Some(ArithType::Or)
        } else if str_eq(t, "xor") {
            Some(ArithType::Xor)
        } else if str_eq(t, "shl") {
            Some(ArithType::Shl)
        } else if str_eq(t, "shr") {
            Some(ArithType::Shr)
        } else if str_eq(t, "ushr") {
            Some(ArithType::Ushr)
        } else {
            None
        }
    }
}

#[derive(Debug, Clone, Copy, PartialEq, Eq, Structural)]
pub enum ArithUnaryType {
    Neg,
    Not,
}

impl ArithUnaryType {
    /// The mnemonic this variant is written as.
    pub open spec fn spec_mnemonic(self) -> Seq<char> {
        match self {
            ArithUnaryType::Neg => "neg"@,
            ArithUnaryType::Not => "not"@,
        }
    }

    /// The variant a mnemonic token denotes, if any.
    pub open spec fn spec_of_mnemonic(t: Seq<char>) -> Option<ArithUnaryType> {
        if t == "neg"@ {
            Some(ArithUnaryType::Neg)
        } else if t == "not"@ {
            Some(ArithUnaryType::Not)
        } else {
            None
        }
    }

    /// Render the mnemonic of this variant.
    pub fn mnemonic(&self) -> (r: &'static str)
        ensures
            r@ == self.spec_mnemonic(),
    {
        match self {
            ArithUnaryType::Neg => "neg",
            ArithUnaryType::Not => "not",
        }
    }

    /// Look a mnemonic token up.
    pub fn from_mnemonic(t: &str) -> (r: Option<ArithUnaryType>)
        ensures
            r == Self::spec_of_mnemonic(t@),
    {
        if str_eq(t, "neg") {
            Some(ArithUnaryType::Neg)
        } else if str_eq(t, "not") {
            Some(ArithUnaryType::Not)
        } else {
            None
        }
    }
}

#[derive(Debug, Clone, Copy, PartialEq, Eq, Structural)]
pub enum ArithOperandType {
    Int,
    Long,
    Float,
    Double,
}

impl ArithOperandType {
    /// The mnemonic this variant is written as.
    pub open spec fn spec_mnemonic(self) -> Seq<char> {
        match self {
            ArithOperandType::Int => "int"@,
            ArithOperandType::Long => "long"@,
            ArithOperandType::Float => "float"@,
            ArithOperandType::Double => "double"@,
        }
    }

    /// The variant a mnemonic token denotes, if any.
    pub open spec fn spec_of_mnemonic(t: Seq<char>) -> Option<ArithOperandType> {
        if t == "int"@ {
            Some(ArithOperandType::Int)
        } else if t == "long"@ {
            Some(ArithOperandType::Long)
        } else if t == "float"@ {
            Some(ArithOperandType::Float)
        } else if t == "double"@ {
            Some(ArithOperandType::Double)
        } else {
            None
        }
    }

    /// Render the mnemonic of this variant.
    pub fn mnemonic(&self) -> (r: &'static str)
        ensures
            r@ == self.spec_mnemonic(),
    {
        match self {
            ArithOperandType::Int => "int",
            ArithOperandType::Long => "long",
            ArithOperandType::Float => "float",
            ArithOperandType::Double => "double",
        }
    }

    /// Look a mnemonic token up.
    pub fn from_mnemonic(t: &str) -> (r: Option<ArithOperandType>)
        ensures
            r == Self::spec_of_mnemonic(t@),
    {
        if str_eq(t, "int") {
            Some(ArithOperandType::Int)
        } else if str_eq(t, "long") {
            Some(ArithOperandType::Long)
        } else if str_eq(t, "float") {
            Some(ArithOperandType::Float)
        } else if str_eq(t, "double") {
            Some(ArithOperandType::Double)
        } else {
            None
        }
    }
}

#[derive(Debug, Clone, Copy, PartialEq, Eq, Structural)]
pub enum ArithOperand2AddrType {
    Int,
    Long,
    Float,
    Double,
}

impl ArithOperand2AddrType {
    /// The mnemonic this variant is written as.
    pub open spec fn spec_mnemonic(self) -> Seq<char> {
        match self {
            ArithOperand2AddrType::Int => "int/2addr"@,
            ArithOperand2AddrType::Long => "long/2addr"@,
            ArithOperand2AddrType::Float => "float/2addr"@,
            ArithOperand2AddrType::Double => "double/2addr"@,
        }
    }

    /// The variant a mnemonic token denotes, if any.
    pub open spec fn spec_of_mnemonic(t: Seq<char>) -> Option<ArithOperand2AddrType> {
        if t == "int/2addr"@ {
            Some(ArithOperand2AddrType::Int)
        } else if t == "long/2addr"@ {
            Some(ArithOperand2AddrType::Long)
        } else if t == "float/2addr"@ {
            Some(ArithOperand2AddrType::Float)
        } else if t == "double/2addr"@ {
            Some(ArithOperand2AddrType::Double)
        } else {
            None
        }
    }

    /// Render the mnemonic of this variant.
    pub fn mnemonic(&self) -> (r: &'static str)
        ensures
            r@ == self.spec_mnemonic(),
    {
        match self {
            ArithOperand2AddrType::Int => "int/2addr",
            ArithOperand2AddrType::Long => "long/2addr",
            ArithOperand2AddrType::Float => "float/2addr",
            ArithOperand2AddrType::Double => "double/2addr",
        }
    }

    /// Look a mnemonic token up.
    pub fn from_mnemonic(t: &str) -> (r: Option<ArithOperand2AddrType>)
        ensures
            r == Self::spec_of_mnemonic(t@),
    {
        if str_eq(t, "int/2addr") {
            Some(ArithOperand2AddrType::Int)
        } else if str_eq(t, "long/2addr") {
            Some(ArithOperand2AddrType::Long)
        } else if str_eq(t, "float/2addr") {
            Some(ArithOperand2AddrType::Float)
        } else if str_eq(t, "double/2addr") {
            Some(ArithOperand2AddrType::Double)
        } else {
            None
        }
    }
}

#[derive(Debug, Clone, Copy, PartialEq, Eq, Structural)]
pub enum ConditionType {
    Eqz,
    Nez,
    Ltz,
    Gez,
    Gtz,
    Lez,
}

impl ConditionType {
    /// The mnemonic this variant is written as.
    pub open spec fn spec_mnemonic(self) -> Seq<char> {
        match self {
            ConditionType::Eqz => "if-eqz"@,
            ConditionType::Nez => "if-nez"@,
            ConditionType::Ltz => "if-ltz"@,
            ConditionType::Gez => "if-gez"@,
            ConditionType::Gtz => "if-gtz"@,
            ConditionType::Lez => "if-lez"@,
        }
    }

    /// The variant a mnemonic token denotes, if any.
    pub open spec fn spec_of_mnemonic(t: Seq<char>) -> Option<ConditionType> {
        if t == "if-eqz"@ {
            Some(ConditionType::Eqz)
        } else if t == "if-nez"@ {
            Some(ConditionType::Nez)
        } else if t == "if-ltz"@ {
            Some(ConditionType::Ltz)
        } else if t == "if-gez"@ {
            Some(ConditionType::Gez)
        } else if t == "if-gtz"@ {
            Some(ConditionType::Gtz)
        } else if t == "if-lez"@ {
            Some(ConditionType::Lez)
        } else {
            None
        }
    }

    /// Render the mnemonic of this variant.
    pub fn mnemonic(&self) -> (r: &'static str)
        ensures
            r@ == self.spec_mnemonic(),
    {
        match self {
            ConditionType::Eqz => "if-eqz",
            ConditionType::Nez => "if-nez",
            ConditionType::Ltz => "if-ltz",
            ConditionType::Gez => "if-gez",
            ConditionType::Gtz => "if-gtz",
            ConditionType::Lez => "if-lez",
        }
    }

    /// Look a mnemonic token up.
    pub fn from_mnemonic(t: &str) -> (r: Option<ConditionType>)
        ensures
            r == Self::spec_of_mnemonic(t@),
    {
        if str_eq(t, "if-eqz") {
            Some(ConditionType::Eqz)
        } else if str_eq(t, "if-nez") {
            Some(ConditionType::Nez)
        } else if str_eq(t, "if-ltz") {
            Some(ConditionType::Ltz)
        } else if str_eq(t, "if-gez") {
            Some(ConditionType::Gez)
        } else if str_eq(t, "if-gtz") {
            Some(ConditionType::Gtz)
        } else if str_eq(t, "if-lez") {
            Some(ConditionType::Lez)
        } else {
            None
        }
    }
}

#[derive(Debug, Clone, Copy, PartialEq, Eq, Structural)]
pub enum TwoRegConditionType {
    Eq,
    Ne,
    Lt,
    Ge,
    Gt,
    Le,
}

impl TwoRegConditionType {
    /// The mnemonic this variant is written as.
    pub open spec fn spec_mnemonic(self) -> Seq<char> {
        match self {
            TwoRegConditionType::Eq => "if-eq"@,
            TwoRegConditionType::Ne => "if-ne"@,
            TwoRegConditionType::Lt => "if-lt"@,
            TwoRegConditionType::Ge => "if-ge"@,
            TwoRegConditionType::Gt => "if-gt"@,
            TwoRegConditionType::Le => "if-le"@,
        }
    }

    /// The variant a mnemonic token denotes, if any.
    pub open spec fn spec_of_mnemonic(t: Seq<char>) -> Option<TwoRegConditionType> {
        if t == "if-eq"@ {
            Some(TwoRegConditionType::Eq)
        } else if t == "if-ne"@ {
            Some(TwoRegConditionType::Ne)
        } else if t == "if-lt"@ {
            Some(TwoRegConditionType::Lt)
        } else if t == "if-ge"@ {
            Some(TwoRegConditionType::Ge)
        } else if t == "if-gt"@ {
            Some(TwoRegConditionType::Gt)
        } else if t == "if-le"@ {
            Some(TwoRegConditionType::Le)
        } else {
            None
        }
    }

    /// Render the mnemonic of this variant.
    pub fn mnemonic(&self) -> (r: &'static str)
        ensures
            r@ == self.spec_mnemonic(),
    {
        match self {
            TwoRegConditionType::Eq => "if-eq",
            TwoRegConditionType::Ne => "if-ne",
            TwoRegConditionType::Lt => "if-lt",
            TwoRegConditionType::Ge => "if-ge",
            TwoRegConditionType::Gt => "if-gt",
            TwoRegConditionType::Le => "if-le",
        }
    }

    /// Look a mnemonic token up.
    pub fn from_mnemonic(t: &str) -> (r: Option<TwoRegConditionType>)
        ensures
            r == Self::spec_of_mnemonic(t@),
    {
        if str_eq(t, "if-eq") {
            Some(TwoRegConditionType::Eq)
        } else if str_eq(t, "if-ne") {
            Some(TwoRegConditionType::Ne)
        } else if str_eq(t, "if-lt") {
            Some(TwoRegConditionType::Lt)
        } else if str_eq(t, "if-ge") {
            Some(TwoRegConditionType::Ge)
        } else if str_eq(t, "if-gt") {
            Some(TwoRegConditionType::Gt)
        } else if str_eq(t, "if-le") {
            Some(TwoRegConditionType::Le)
        } else {
            None
        }
    }
}

#[derive(Debug, Clone, Copy, PartialEq, Eq, Structural)]
pub enum GotoType {
    Normal,
    Size16,
    Size32,
}

impl GotoType {
    /// The mnemonic this variant is written as.
    pub open spec fn spec_mnemonic(self) -> Seq<char> {
        match self {
            GotoType::Normal => "goto"@,
            GotoType::Size16 => "goto/16"@,
            GotoType::Size32 => "goto/32"@,
        }
    }

    /// The variant a mnemonic token denotes, if any.
    pub open spec fn spec_of_mnemonic(t: Seq<char>) -> Option<GotoType> {
        if t == "goto"@ {
            Some(GotoType::Normal)
        } else if t == "goto/16"@ {
            Some(GotoType::Size16)
        } else if t == "goto/32"@ {
            Some(GotoType::Size32)
        } else {
            None
        }
    }

    /// Render the mnemonic of this variant.
    pub fn mnemonic(&self) -> (r: &'static str)
        ensures
            r@ == self.spec_mnemonic(),
    {
        match self {
            GotoType::Normal => "goto",
            GotoType::Size16 => "goto/16",
            GotoType::Size32 => "goto/32",
        }
    }

    /// Look a mnemonic token up.
    pub fn from_mnemonic(t: &str) -> (r: Option<GotoType>)
        ensures
            r == Self::spec_of_mnemonic(t@),
    {
        if str_eq(t, "goto") {
            Some(GotoType::Normal)
        } else if str_eq(t, "goto/16") {
            Some(GotoType::Size16)
        } else if str_eq(t, "goto/32") {
            Some(GotoType::Size32)
        } else {
            None
        }
    }
}

#[derive(Debug, Clone, Copy, PartialEq, Eq, Structural)]
pub enum ConstLiteralType {
    Const4,
    Const16,
    Const,
    ConstHigh16,
    ConstWide16,
    ConstWide32,
    ConstWide,
    ConstWideHigh16,
}

impl ConstLiteralType {
    /// The mnemonic this variant is written as.
    pub open spec fn spec_mnemonic(self) -> Seq<char> {
        match self {
            ConstLiteralType::Const4 => "const/4"@,
            ConstLiteralType::Const16 => "const/16"@,
            ConstLiteralType::Const => "const"@,
            ConstLiteralType::ConstHigh16 => "const/high16"@,
            ConstLiteralType::ConstWide16 => "const-wide/16"@,
            ConstLiteralType::ConstWide32 => "const-wide/32"@,
            ConstLiteralType::ConstWide => "const-wide"@,
            ConstLiteralType::ConstWideHigh16 => "const-wide/high16"@,
        }
    }

    /// The variant a mnemonic token denotes, if any.
    pub open spec fn spec_of_mnemonic(t: Seq<char>) -> Option<ConstLiteralType> {
        if t == "const/4"@ {
            Some(ConstLiteralType::Const4)
        } else if t == "const/16"@ {
            Some(ConstLiteralType::Const16)
        } else if t == "const"@ {
            Some(ConstLiteralType::Const)
        } else if t == "const/high16"@ {
            Some(ConstLiteralType::ConstHigh16)
        } else if t == "const-wide/16"@ {
            Some(ConstLiteralType::ConstWide16)
        } else if t == "const-wide/32"@ {
            Some(ConstLiteralType::ConstWide32)
        } else if t == "const-wide"@ {
            Some(ConstLiteralType::ConstWide)
        } else if t == "const-wide/high16"@ {
            Some(ConstLiteralType::ConstWideHigh16)
        } else {
            None
        }
    }

    /// Render the mnemonic of this variant.
    pub fn mnemonic(&self) -> (r: &'static str)
        ensures
            r@ == self.spec_mnemonic(),
    {
        match self {
            ConstLiteralType::Const4 => "const/4",
            ConstLiteralType::Const16 => "const/16",
            ConstLiteralType::Const => "const",
            ConstLiteralType::ConstHigh16 => "const/high16",
            ConstLiteralType::ConstWide16 => "const-wide/16",
            ConstLiteralType::ConstWide32 => "const-wide/32",
            ConstLiteralType::ConstWide => "const-wide",
            ConstLiteralType::ConstWideHigh16 => "const-wide/high16",
        }
    }

    /// Look a mnemonic token up.
    pub fn from_mnemonic(t: &str) -> (r: Option<ConstLiteralType>)
        ensures
            r == Self::spec_of_mnemonic(t@),
    {
        if str_eq(t, "const/4") {
            Some(ConstLiteralType::Const4)
        } else if str_eq(t, "const/16") {
            Some(ConstLiteralType::Const16)
        } else if str_eq(t, "const") {
            Some(ConstLiteralType::Const)
        } else if str_eq(t, "const/high16") {
            Some(ConstLiteralType::ConstHigh16)
        } else if str_eq(t, "const-wide/16") {
            Some(ConstLiteralType::ConstWide16)
        } else if str_eq(t, "const-wide/32") {
            Some(ConstLiteralType::ConstWide32)
        } else if str_eq(t, "const-wide") {
            Some(ConstLiteralType::ConstWide)
        } else if str_eq(t, "const-wide/high16") {
            Some(ConstLiteralType::ConstWideHigh16)
        } else {
            None
        }
    }
}

#[derive(Debug, Clone, Copy, PartialEq, Eq, Structural)]
pub enum LitArithType8 {
    AddIntLit8,
    RSubIntLit8,
    MulIntLit8,
    DivIntLit8,
    RemIntLit8,
    AndIntLit8,
    OrIntLit8,
    XorIntLit8,
    ShlIntLit8,
    ShrIntLit8,
    UshrIntLit8,
}

impl LitArithType8 {
    /// The mnemonic this variant is written as.
    pub open spec fn spec_mnemonic(self) -> Seq<char> {
        match self {
            LitArithType8::AddIntLit8 => "add-int/lit8"@,
            LitArithType8::RSubIntLit8 => "rsub-int/lit8"@,
            LitArithType8::MulIntLit8 => "mul-int/lit8"@,
            LitArithType8::DivIntLit8 => "div-int/lit8"@,
            LitArithType8::RemIntLit8 => "rem-int/lit8"@,
            LitArithType8::AndIntLit8 => "and-int/lit8"@,
            LitArithType8::OrIntLit8 => "or-int/lit8"@,
            LitArithType8::XorIntLit8 => "xor-int/lit8"@,
            LitArithType8::ShlIntLit8 => "shl-int/lit8"@,
            LitArithType8::ShrIntLit8 => "shr-int/lit8"@,
            LitArithType8::UshrIntLit8 => "ushr-int/lit8"@,
        }
    }

    /// The variant a mnemonic token denotes, if any.
    pub open spec fn spec_of_mnemonic(t: Seq<char>) -> Option<LitArithType8> {
        if t == "add-int/lit8"@ {
            Some(LitArithType8::AddIntLit8)
        } else if t == "rsub-int/lit8"@ {
            Some(LitArithType8::RSubIntLit8)
        } else if t == "mul-int/lit8"@ {
            Some(LitArithType8::MulIntLit8)
        } else if t == "div-int/lit8"@ {
            Some(LitArithType8::DivIntLit8)
        } else if t == "rem-int/lit8"@ {
            Some(LitArithType8::RemIntLit8)
        } else if t == "and-int/lit8"@ {
            Some(LitArithType8::AndIntLit8)
        } else if t == "or-int/lit8"@ {
            Some(LitArithType8::OrIntLit8)
        } else if t == "xor-int/lit8"@ {
            Some(LitArithType8::XorIntLit8)
        } else if t == "shl-int/lit8"@ {
            Some(LitArithType8::ShlIntLit8)
        } else if t == "shr-int/lit8"@ {
            Some(LitArithType8::ShrIntLit8)
        } else if t == "ushr-int/lit8"@ {
            Some(LitArithType8::UshrIntLit8)
        } else {
            None
        }
    }

    /// Render the mnemonic of this variant.
    pub fn mnemonic(&self) -> (r: &'static str)
        ensures
            r@ == self.spec_mnemonic(),
    {
        match self {
            LitArithType8::AddIntLit8 => "add-int/lit8",
            LitArithType8::RSubIntLit8 => "rsub-int/lit8",
            LitArithType8::MulIntLit8 => "mul-int/lit8",
            LitArithType8::DivIntLit8 => "div-int/lit8",
            LitArithType8::RemIntLit8 => "rem-int/lit8",
            LitArithType8::AndIntLit8 => "and-int/lit8",
            LitArithType8::OrIntLit8 => "or-int/lit8",
            LitArithType8::XorIntLit8 => "xor-int/lit8",
            LitArithType8::ShlIntLit8 => "shl-int/lit8",
            LitArithType8::ShrIntLit8 => "shr-int/lit8",
            LitArithType8::UshrIntLit8 => "ushr-int/lit8",
        }
    }

    /// Look a mnemonic token up.
    pub fn from_mnemonic(t: &str) -> (r: Option<LitArithType8>)
        ensures
            r == Self::spec_of_mnemonic(t@),
    {
        if str_eq(t, "add-int/lit8") {
            Some(LitArithType8::AddIntLit8)
        } else if str_eq(t, "rsub-int/lit8") {
            Some(LitArithType8::RSubIntLit8)
        } else if str_eq(t, "mul-int/lit8") {
            Some(LitArithType8::MulIntLit8)
        } else if str_eq(t, "div-int/lit8") {
            Some(LitArithType8::DivIntLit8)
        } else if str_eq(t, "rem-int/lit8") {
            Some(LitArithType8::RemIntLit8)
        } else if str_eq(t, "and-int/lit8") {
            Some(LitArithType8::AndIntLit8)
        } else if str_eq(t, "or-int/lit8") {
            Some(LitArithType8::OrIntLit8)
        } else if str_eq(t, "xor-int/lit8") {
            Some(LitArithType8::XorIntLit8)
        } else if str_eq(t, "shl-int/lit8") {
            Some(LitArithType8::ShlIntLit8)
        } else if str_eq(t, "shr-int/lit8") {
            Some(LitArithType8::ShrIntLit8)
        } else if str_eq(t, "ushr-int/lit8") {
            Some(LitArithType8::UshrIntLit8)
        } else {
            None
        }
    }
}

#[derive(Debug, Clone, Copy, PartialEq, Eq, Structural)]
pub enum LitArithType16 {
    AddIntLit16,
    RSubIntLit16,
    MulIntLit16,
    DivIntLit16,
    RemIntLit16,
    AndIntLit16,
    OrIntLit16,
    XorIntLit16,
}

impl LitArithType16 {
    /// The mnemonic this variant is written as.
    pub open spec fn spec_mnemonic(self) -> Seq<char> {
        match self {
            LitArithType16::AddIntLit16 => "add-int/lit16"@,
            LitArithType16::RSubIntLit16 => "rsub-int"@,
            LitArithType16::MulIntLit16 => "mul-int/lit16"@,
            LitArithType16::DivIntLit16 => "div-int/lit16"@,
            LitArithType16::RemIntLit16 => "rem-int/lit16"@,
            LitArithType16::AndIntLit16 => "and-int/lit16"@,
            LitArithType16::OrIntLit16 => "or-int/lit16"@,
            LitArithType16::XorIntLit16 => "xor-int/lit16"@,
        }
    }

    /// The variant a mnemonic token denotes, if any.
    pub open spec fn spec_of_mnemonic(t: Seq<char>) -> Option<LitArithType16> {
        if t == "add-int/lit16"@ {
            Some(LitArithType16::AddIntLit16)
        } else if t == "rsub-int"@ {
            Some(LitArithType16::RSubIntLit16)
        } else if t == "mul-int/lit16"@ {
            Some(LitArithType16::MulIntLit16)
        } else if t == "div-int/lit16"@ {
            Some(LitArithType16::DivIntLit16)
        } else if t == "rem-int/lit16"@ {
            Some(LitArithType16::RemIntLit16)
        } else if t == "and-int/lit16"@ {
            Some(LitArithType16::AndIntLit16)
        } else if t == "or-int/lit16"@ {
            Some(LitArithType16::OrIntLit16)
        } else if t == "xor-int/lit16"@ {
            Some(LitArithType16::XorIntLit16)
        } else {
            None
        }
    }

    /// Render the mnemonic of this variant.
    pub fn mnemonic(&self) -> (r: &'static str)
        ensures
            r@ == self.spec_mnemonic(),
    {
        match self {
            LitArithType16::AddIntLit16 => "add-int/lit16",
            LitArithType16::RSubIntLit16 => "rsub-int",
            LitArithType16::MulIntLit16 => "mul-int/lit16",
            LitArithType16::DivIntLit16 => "div-int/lit16",
            LitArithType16::RemIntLit16 => "rem-int/lit16",
            LitArithType16::AndIntLit16 => "and-int/lit16",
            LitArithType16::OrIntLit16 => "or-int/lit16",
            LitArithType16::XorIntLit16 => "xor-int/lit16",
        }
    }

    /// Look a mnemonic token up.
    pub fn from_mnemonic(t: &str) -> (r: Option<LitArithType16>)
        ensures
            r == Self::spec_of_mnemonic(t@),
    {
        if str_eq(t, "add-int/lit16") {
            Some(LitArithType16::AddIntLit16)
        } else if str_eq(t, "rsub-int") {
            Some(LitArithType16::RSubIntLit16)
        } else if str_eq(t, "mul-int/lit16") {
            Some(LitArithType16::MulIntLit16)
        } else if str_eq(t, "div-int/lit16") {
            Some(LitArithType16::DivIntLit16)
        } else if str_eq(t, "rem-int/lit16") {
            Some(LitArithType16::RemIntLit16)
        } else if str_eq(t, "and-int/lit16") {
            Some(LitArithType16::AndIntLit16)
        } else if str_eq(t, "or-int/lit16") {
            Some(LitArithType16::OrIntLit16)
        } else if str_eq(t, "xor-int/lit16") {
            Some(LitArithType16::XorIntLit16)
        } else {
            None
        }
    }
}

#[derive(Debug, Clone, Copy, PartialEq, Eq, Structural)]
pub enum ConvertType {
    IntToByte,
    IntToChar,
    IntToShort,
    IntToLong,
    IntToFloat,
    IntToDouble,
    LongToInt,
    LongToFloat,
    LongToDouble,
    FloatToInt,
    FloatToLong,
    FloatToDouble,
    DoubleToInt,
    DoubleToLong,
    DoubleToFloat,
}

impl ConvertType {
    /// The mnemonic this variant is written as.
    pub open spec fn spec_mnemonic(self) -> Seq<char> {
        match self {
            ConvertType::IntToByte => "int-to-byte"@,
            ConvertType::IntToChar => "int-to-char"@,
            ConvertType::IntToShort => "int-to-short"@,
            ConvertType::IntToLong => "int-to-long"@,
            ConvertType::IntToFloat => "int-to-float"@,
            ConvertType::IntToDouble => "int-to-double"@,
            ConvertType::LongToInt => "long-to-int"@,
            ConvertType::LongToFloat => "long-to-float"@,
            ConvertType::LongToDouble => "long-to-double"@,
            ConvertType::FloatToInt => "float-to-int"@,
            ConvertType::FloatToLong => "float-to-long"@,
            ConvertType::FloatToDouble => "float-to-double"@,
            ConvertType::DoubleToInt => "double-to-int"@,
            ConvertType::DoubleToLong => "double-to-long"@,
            ConvertType::DoubleToFloat => "double-to-float"@,
        }
    }

    /// The variant a mnemonic token denotes, if any.
    pub open spec fn spec_of_mnemonic(t: Seq<char>) -> Option<ConvertType> {
        if t == "int-to-byte"@ {
            Some(ConvertType::IntToByte)
        } else if t == "int-to-char"@ {
            Some(ConvertType::IntToChar)
        } else if t == "int-to-short"@ {
            Some(ConvertType::IntToShort)
        } else if t == "int-to-long"@ {
            Some(ConvertType::IntToLong)
        } else if t == "int-to-float"@ {
            Some(ConvertType::IntToFloat)
        } else if t == "int-to-double"@ {
            Some(ConvertType::IntToDouble)
        } else if t == "long-to-int"@ {
            Some(ConvertType::LongToInt)
        } else if t == "long-to-float"@ {
            Some(ConvertType::LongToFloat)
        } else if t == "long-to-double"@ {
            Some(ConvertType::LongToDouble)
        } else if t == "float-to-int"@ {
            Some(ConvertType::FloatToInt)
        } else if t == "float-to-long"@ {
            Some(ConvertType::FloatToLong)
        } else if t == "float-to-double"@ {
            Some(ConvertType::FloatToDouble)
        } else if t == "double-to-int"@ {
            Some(ConvertType::DoubleToInt)
        } else if t == "double-to-long"@ {
            Some(ConvertType::DoubleToLong)
        } else if t == "double-to-float"@ {
            Some(ConvertType::DoubleToFloat)
        } else {
            None
        }
    }

    /// Render the mnemonic of this variant.
    pub fn mnemonic(&self) -> (r: &'static str)
        ensures
            r@ == self.spec_mnemonic(),
    {
        match self {
            ConvertType::IntToByte => "int-to-byte",
            ConvertType::IntToChar => "int-to-char",
            ConvertType::IntToShort => "int-to-short",
            ConvertType::IntToLong => "int-to-long",
            ConvertType::IntToFloat => "int-to-float",
            ConvertType::IntToDouble => "int-to-double",
            ConvertType::LongToInt => "long-to-int",
            ConvertType::LongToFloat => "long-to-float",
            ConvertType::LongToDouble => "long-to-double",
            ConvertType::FloatToInt => "float-to-int",
            ConvertType::FloatToLong => "float-to-long",
            ConvertType::FloatToDouble => "float-to-double",
            ConvertType::DoubleToInt => "double-to-int",
            ConvertType::DoubleToLong => "double-to-long",
            ConvertType::DoubleToFloat => "double-to-float",
        }
    }

    /// Look a mnemonic token up.
    pub fn from_mnemonic(t: &str) -> (r: Option<ConvertType>)
        ensures
            r == Self::spec_of_mnemonic(t@),
    {
        if str_eq(t, "int-to-byte") {
            Some(ConvertType::IntToByte)
        } else if str_eq(t, "int-to-char") {
            Some(ConvertType::IntToChar)
        } else if str_eq(t, "int-to-short") {
            Some(ConvertType::IntToShort)
        } else if str_eq(t, "int-to-long") {
            Some(ConvertType::IntToLong)
        } else if str_eq(t, "int-to-float") {
            Some(ConvertType::IntToFloat)
        } else if str_eq(t, "int-to-double") {
            Some(ConvertType::IntToDouble)
        } else if str_eq(t, "long-to-int") {
            Some(ConvertType::LongToInt)
        } else if str_eq(t, "long-to-float") {
            Some(ConvertType::LongToFloat)
        } else if str_eq(t, "long-to-double") {
            Some(ConvertType::LongToDouble)
        } else if str_eq(t, "float-to-int") {
            Some(ConvertType::FloatToInt)
        } else if str_eq(t, "float-to-long") {
            Some(ConvertType::FloatToLong)
        } else if str_eq(t, "float-to-double") {
            Some(ConvertType::FloatToDouble)
        } else if str_eq(t, "double-to-int") {
            Some(ConvertType::DoubleToInt)
        } else if str_eq(t, "double-to-long") {
            Some(ConvertType::DoubleToLong)
        } else if str_eq(t, "double-to-float") {
            Some(ConvertType::DoubleToFloat)
        } else {
            None
        }
    }
}

#[derive(Debug, Clone, Copy, PartialEq, Eq, Structural)]
pub enum ArrayAccessType {
    Get,
    Put,
}

impl ArrayAccessType {
    /// The mnemonic this variant is written as.
    pub open spec fn spec_mnemonic(self) -> Seq<char> {
        match self {
            ArrayAccessType::Get => "aget"@,
            ArrayAccessType::Put => "aput"@,
        }
    }

    /// The variant a mnemonic token denotes, if any.
    pub open spec fn spec_of_mnemonic(t: Seq<char>) -> Option<ArrayAccessType> {
        if t == "aget"@ {
            Some(ArrayAccessType::Get)
        } else if t == "aput"@ {
            Some(ArrayAccessType::Put)
        } else {
            None
        }
    }

    /// Render the mnemonic of this variant.
    pub fn mnemonic(&self) -> (r: &'static str)
        ensures
            r@ == self.spec_mnemonic(),
    {
        match self {
            ArrayAccessType::Get => "aget",
            ArrayAccessType::Put => "aput",
        }
    }

    /// Look a mnemonic token up.
    pub fn from_mnemonic(t: &str) -> (r: Option<ArrayAccessType>)
        ensures
            r == Self::spec_of_mnemonic(t@),
    {
        if str_eq(t, "aget") {
            Some(ArrayAccessType::Get)
        } else if str_eq(t, "aput") {
            Some(ArrayAccessType::Put)
        } else {
            None
        }
    }
}

#[derive(Debug, Clone, Copy, PartialEq, Eq, Structural)]
pub enum ArrayValueType {
    Normal,
    Wide,
    Object,
    Boolean,
    Byte,
    Char,
    Short,
}

impl ArrayValueType {
    /// The mnemonic this variant is written as.
    pub open spec fn spec_mnemonic(self) -> Seq<char> {
        match self {
            ArrayValueType::Normal => ""@,
            ArrayValueType::Wide => "wide"@,
            ArrayValueType::Object => "object"@,
            ArrayValueType::Boolean => "boolean"@,
            ArrayValueType::Byte => "byte"@,
            ArrayValueType::Char => "char"@,
            ArrayValueType::Short => "short"@,
        }
    }

    /// The variant a mnemonic token denotes, if any.
    pub open spec fn spec_of_mnemonic(t: Seq<char>) -> Option<ArrayValueType> {
        if t == ""@ {
            Some(ArrayValueType::Normal)
        } else if t == "wide"@ {
            Some(ArrayValueType::Wide)
        } else if t == "object"@ {
            Some(ArrayValueType::Object)
        } else if t == "boolean"@ {
            Some(ArrayValueType::Boolean)
        } else if t == "byte"@ {
            Some(ArrayValueType::Byte)
        } else if t == "char"@ {
            Some(ArrayValueType::Char)
        } else if t == "short"@ {
            Some(ArrayValueType::Short)
        } else {
            None
        }
    }

    /// Render the mnemonic of this variant.
    pub fn mnemonic(&self) -> (r: &'static str)
        ensures
            r@ == self.spec_mnemonic(),
    {
        match self {
            ArrayValueType::Normal => "",
            ArrayValueType::Wide => "wide",
            ArrayValueType::Object => "object",
            ArrayValueType::Boolean => "boolean",
            ArrayValueType::Byte => "byte",
            ArrayValueType::Char => "char",
            ArrayValueType::Short => "short",
        }
    }

    /// Look a mnemonic token up.
    pub fn from_mnemonic(t: &str) -> (r: Option<ArrayValueType>)
        ensures
            r == Self::spec_of_mnemonic(t@),
    {
        if str_eq(t, "") {
            Some(ArrayValueType::Normal)
        } else if str_eq(t, "wide") {
            Some(ArrayValueType::Wide)
        } else if str_eq(t, "object") {
            Some(ArrayValueType::Object)
        } else if str_eq(t, "boolean") {
            Some(ArrayValueType::Boolean)
        } else if str_eq(t, "byte") {
            Some(ArrayValueType::Byte)
        } else if str_eq(t, "char") {
            Some(ArrayValueType::Char)
        } else if str_eq(t, "short") {
            Some(ArrayValueType::Short)
        } else {
            None
        }
    }
}

#[derive(Debug, Clone, Copy, PartialEq, Eq, Structural)]
pub enum CmpType {
    CmplFloat,
    CmpgFloat,
    CmplDouble,
    CmpgDouble,
    CmpLong,
}

impl CmpType {
    /// The mnemonic this variant is written as.
    pub open spec fn spec_mnemonic(self) -> Seq<char> {
        match self {
            CmpType::CmplFloat => "cmpl-float"@,
            CmpType::CmpgFloat => "cmpg-float"@,
            CmpType::CmplDouble => "cmpl-double"@,
            CmpType::CmpgDouble => "cmpg-double"@,
            CmpType::CmpLong => "cmp-long"@,
        }
    }

    /// The variant a mnemonic token denotes, if any.
    pub open spec fn spec_of_mnemonic(t: Seq<char>) -> Option<CmpType> {
        if t == "cmpl-float"@ {
            Some(CmpType::CmplFloat)
        } else if t == "cmpg-float"@ {
            Some(CmpType::CmpgFloat)
        } else if t == "cmpl-double"@ {
            Some(CmpType::CmplDouble)
        } else if t == "cmpg-double"@ {
            Some(CmpType::CmpgDouble)
        } else if t == "cmp-long"@ {
            Some(CmpType::CmpLong)
        } else {
            None
        }
    }

    /// Render the mnemonic of this variant.
    pub fn mnemonic(&self) -> (r: &'static str)
        ensures
            r@ == self.spec_mnemonic(),
    {
        match self {
            CmpType::CmplFloat => "cmpl-float",
            CmpType::CmpgFloat => "cmpg-float",
            CmpType::CmplDouble => "cmpl-double",
            CmpType::CmpgDouble => "cmpg-double",
            CmpType::CmpLong => "cmp-long",
        }
    }

    /// Look a mnemonic token up.
    pub fn from_mnemonic(t: &str) -> (r: Option<CmpType>)
        ensures
            r == Self::spec_of_mnemonic(t@),
    {
        if str_eq(t, "cmpl-float") {
            Some(CmpType::CmplFloat)
        } else if str_eq(t, "cmpg-float") {
            Some(CmpType::CmpgFloat)
        } else if str_eq(t, "cmpl-double") {
            Some(CmpType::CmplDouble)
        } else if str_eq(t, "cmpg-double") {
            Some(CmpType::CmpgDouble)
        } else if str_eq(t, "cmp-long") {
            Some(CmpType::CmpLong)
        } else {
            None
        }
    }
}

#[derive(Debug, Clone, Copy, PartialEq, Eq, Structural)]
pub enum SwitchType {
    PackedSwitch,
    SparseSwitch,
}

impl SwitchType {
    /// The mnemonic this variant is written as.
    pub open spec fn spec_mnemonic(self) -> Seq<char> {
        match self {
            SwitchType::PackedSwitch => "packed-switch"@,
            SwitchType::SparseSwitch => "sparse-switch"@,
        }
    }

    /// The variant a mnemonic token denotes, if any.
    pub open spec fn spec_of_mnemonic(t: Seq<char>) -> Option<SwitchType> {
        if t == "packed-switch"@ {
            Some(SwitchType::PackedSwitch)
        } else if t == "sparse-switch"@ {
            Some(SwitchType::SparseSwitch)
        } else {
            None
        }
    }

    /// Render the mnemonic of this variant.
    pub fn mnemonic(&self) -> (r: &'static str)
        ensures
            r@ == self.spec_mnemonic(),
    {
        match self {
            SwitchType::PackedSwitch => "packed-switch",
            SwitchType::SparseSwitch => "sparse-switch",
        }
    }

    /// Look a mnemonic token up.
    pub fn from_mnemonic(t: &str) -> (r: Option<SwitchType>)
        ensures
            r == Self::spec_of_mnemonic(t@),
    {
        if str_eq(t, "packed-switch") {
            Some(SwitchType::PackedSwitch)
        } else if str_eq(t, "sparse-switch") {
            Some(SwitchType::SparseSwitch)
        } else {
            None
        }
    }
}

impl InvokeType {
    /// Whether this invocation form addresses a contiguous register range.
    pub open spec fn spec_is_range(self) -> bool {
        match self {
            InvokeType::VirtualRange | InvokeType::SuperRange | InvokeType::DirectRange
                | InvokeType::StaticRange | InvokeType::InterfaceRange
                | InvokeType::PolymorphicRange | InvokeType::CustomRange => true,
            _ => false,
        }
    }

    pub fn is_range(&self) -> (r: bool)
        ensures
            r == self.spec_is_range(),
    {
        match self {
            InvokeType::VirtualRange | InvokeType::SuperRange | InvokeType::DirectRange
                | InvokeType::StaticRange | InvokeType::InterfaceRange
                | InvokeType::PolymorphicRange | InvokeType::CustomRange => true,
            _ => false,
        }
    }
}

/// A constant-loading literal together with the width its instruction
/// implies. The `high16` forms store the already-shifted value.
#[derive(Debug, Clone, Copy, PartialEq, Eq, Structural)]
pub enum ConstLiteralValue {
    Const4(i8),
    Const16(i16),
    Const(i32),
    ConstHigh16(i64),
    ConstWide16(i16),
    ConstWide32(i32),
    ConstWide(i64),
    ConstWideHigh16(i64),
}

/// The text of a constant literal: signed decimal for the plain forms,
/// signed, padded hexadecimal with the low bits restored for the `high16`
/// forms, and signed `0x..L` hexadecimal for the wide form, so that every
/// rendering re-parses within its instruction's width.
pub open spec fn spec_const_literal_value_text(v: ConstLiteralValue) -> Seq<char> {
    match v {
        ConstLiteralValue::Const4(x) => spec_dec_signed(x as int),
        ConstLiteralValue::Const16(x) => spec_dec_signed(x as int),
        ConstLiteralValue::Const(x) => spec_dec_signed(x as int),
        ConstLiteralValue::ConstHigh16(x) => spec_high16_text(x as i16) + seq!['0', '0', '0',
            '0'],
        ConstLiteralValue::ConstWide16(x) => spec_dec_signed(x as int),
        ConstLiteralValue::ConstWide32(x) => spec_dec_signed(x as int),
        ConstLiteralValue::ConstWide(x) => (if x >= 0 {
            seq!['0', 'x'] + spec_hex_u64(x as int)
        } else {
            seq!['-', '0', 'x'] + spec_hex_u64(-(x as int))
        }) + seq!['L'],
        ConstLiteralValue::ConstWideHigh16(x) => spec_high16_text(x as i16) + seq!['0', '0',
            '0', '0', '0', '0', '0', '0', '0', '0', '0', '0'],
    }
}

/// The signed, zero-padded hexadecimal head of a `high16` literal: the
/// stored 16-bit value, so that the whole literal re-parses to it after
/// the shift.
pub open spec fn spec_high16_text(h: i16) -> Seq<char> {
    if h >= 0 {
        seq!['0', 'x'] + spec_hex4(h as int)
    } else {
        seq!['-', '0', 'x'] + spec_hex4(-(h as int))
    }
}

/// Render the signed, zero-padded head of a `high16` literal.
fn high16_head(h: i16) -> (r: String)
    ensures
        r@ == spec_high16_text(h),
{
    let mut s = String::new();
    if h >= 0 {
        s.push('0');
        s.push('x');
        let t = u16_to_hex4(h as u16);
        s.append(t.as_str());
    } else {
        s.push('-');
        s.push('0');
        s.push('x');
        let mag = (-(h as i32)) as u16;
        let t = u16_to_hex4(mag);
        s.append(t.as_str());
    }
    proof {
        assert(s@ =~= spec_high16_text(h));
    }
    s
}

impl ConstLiteralValue {
    /// Render this literal in the radix family its form implies. Negative
    /// hexadecimal forms carry a leading sign, so that every rendering
    /// re-parses within the width its instruction requires.
    pub fn to_smali(&self) -> (r: String)
        ensures
            r@ == spec_const_literal_value_text(*self),
    {
        match self {
            ConstLiteralValue::Const4(x) => i64_to_dec(*x as i64),
            ConstLiteralValue::Const16(x) => i64_to_dec(*x as i64),
            ConstLiteralValue::Const(x) => i64_to_dec(*x as i64),
            ConstLiteralValue::ConstHigh16(x) => {
                let mut s = high16_head(#[verifier::truncate] (*x as i16));
                s.push('0');
                s.push('0');
                s.push('0');
                s.push('0');
                proof {
                    assert(s@ =~= spec_const_literal_value_text(*self));
                }
                s
            },
            ConstLiteralValue::ConstWide16(x) => i64_to_dec(*x as i64),
            ConstLiteralValue::ConstWide32(x) => i64_to_dec(*x as i64),
            ConstLiteralValue::ConstWide(x) => {
                let mut s = String::new();
                if *x >= 0 {
                    s.push('0');
                    s.push('x');
                    let h = u64_to_hex(*x as u64);
                    s.append(h.as_str());
                } else {
                    s.push('-');
                    s.push('0');
                    s.push('x');
                    let mag: u64 = if *x == i64::MIN {
                        0x8000_0000_0000_0000u64
                    } else {
                        (-*x) as u64
                    };
                    let h = u64_to_hex(mag);
                    s.append(h.as_str());
                }
                s.push('L');
                proof {
                    assert(s@ =~= spec_const_literal_value_text(*self));
                }
                s
            },
            ConstLiteralValue::ConstWideHigh16(x) => {
                let mut s = high16_head(#[verifier::truncate] (*x as i16));
                let mut z: usize = 0;
                while z < 12
                    invariant
                        z <= 12,
                        s@ =~= spec_high16_text((*x as i16) as i16) + Seq::new(
                            z as nat,
                            |m: int| '0',
                        ),
                    decreases 12 - z,
                {
                    s.push('0');
                    z += 1;
                    proof {
                        assert(Seq::new(z as nat, |m: int| '0') =~= Seq::new(
                            (z - 1) as nat,
                            |m: int| '0',
                        ).push('0'));
                    }
                }
                proof {
                    assert(Seq::new(12nat, |m: int| '0') =~= seq!['0', '0', '0', '0', '0',
                        '0', '0', '0', '0', '0', '0', '0']);
                    assert(s@ =~= spec_const_literal_value_text(*self));
                }
                s
            },
        }
    }
}

/// A string literal or a type signature, as used by instructions that take
/// a class or string operand.
#[derive(Debug, PartialEq, Eq)]
pub enum StringOrTypeSig {
    String(String),
    TypeSig(TypeSignature),
}

/// Mathematical model of a `StringOrTypeSig`.
pub enum SpecStringOrTypeSig {
    String(Seq<char>),
    TypeSig(SpecTypeSignature),
}

impl View for StringOrTypeSig {
    type V = SpecStringOrTypeSig;

    open spec fn view(&self) -> SpecStringOrTypeSig {
        match self {
            StringOrTypeSig::String(s) => SpecStringOrTypeSig::String(s@),
            StringOrTypeSig::TypeSig(t) => SpecStringOrTypeSig::TypeSig(t@),
        }
    }
}

/// The text of a string-or-type operand: re-quoted text, or the JNI form.
pub open spec fn spec_string_or_ts_text(v: SpecStringOrTypeSig) -> Seq<char> {
    match v {
        SpecStringOrTypeSig::String(s) => seq!['"'] + s + seq!['"'],
        SpecStringOrTypeSig::TypeSig(t) => spec_ts_jni(t),
    }
}

/// The string-or-type grammar at `i`: a quoted string first, a type
/// signature second.
pub open spec fn spec_parse_string_or_ts(s: Seq<char>, i: int) -> Option<
    (SpecStringOrTypeSig, int),
> {
    match spec_parse_string_lit(s, i) {
        Some((body, j)) => Some((SpecStringOrTypeSig::String(body), j)),
        None => match spec_parse_typesignature(s, i) {
            Some((t, j)) => Some((SpecStringOrTypeSig::TypeSig(t), j)),
            None => None,
        },
    }
}

impl StringOrTypeSig {
    /// Render this operand: re-quoted text, or the JNI form.
    pub fn to_smali(&self) -> (r: String)
        ensures
            r@ == spec_string_or_ts_text(self@),
    {
        match self {
            StringOrTypeSig::String(t) => {
                let mut s = String::new();
                s.push('"');
                s.append(t.as_str());
                s.push('"');
                proof {
                    assert(s@ =~= spec_string_or_ts_text(self@));
                }
                s
            },
            StringOrTypeSig::TypeSig(t) => t.to_jni(),
        }
    }
}

/// Parse a string-or-type operand.
fn parse_string_or_ts(s: &str, i: usize) -> (r: Result<(StringOrTypeSig, usize), ParseError>)
    requires
        i <= s@.len(),
    ensures
        match spec_parse_string_or_ts(s@, i as int) {
            Some((v, j)) => r matches Ok(p) && p.0@ == v && p.1 == j && i <= j <= s@.len(),
            None => r is Err,
        },
        r matches Err(e) ==> e is MalformedOperand,
{
    match parse_string_lit(s, i) {
        Some((body, j)) => Ok((StringOrTypeSig::String(body), j)),
        None => match parse_typesignature(s, i) {
            Ok((t, j)) => Ok((StringOrTypeSig::TypeSig(t), j)),
            Err(e) => Err(e),
        },
    }
}

/// A high-level representation of an instruction. Literal values and
/// symbolic references are stored directly rather than as pool indices.
#[derive(Debug, PartialEq, Eq)]
pub enum DexOp {
    Invoke {
        invoke_type: InvokeType,
        registers: Vec<Register>,
        range: Option<RegisterRange>,
        method: Option<Box<MethodRef>>,
        call_site: Option<String>,
        proto: Option<String>,
    },
    Const {
        const_type: ConstType,
        dest: Register,
        value: StringOrTypeSig,
    },
    MoveTwoReg {
        move_type: TwoRegMoveType,
        dest: Register,
        src: Register,
    },
    MoveOneReg {
        move_type: OneRegMoveType,
        dest: Register,
    },
    Return {
        return_type: ReturnType,
        src: Option<Register>,
    },
    Arith {
        arith_type: ArithType,
        operand_type: ArithOperandType,
        dest: Register,
        src1: Register,
        src2: Register,
    },
    ArithUnary {
        arith_type: ArithUnaryType,
        operand_type: ArithOperandType,
        dest: Register,
        src: Register,
    },
    Arith2Addr {
        arith_type: ArithType,
        operand_type: ArithOperand2AddrType,
        dest: Register,
        src: Register,
    },
    Condition {
        cond_type: ConditionType,
        reg1: Register,
        offset: Label,
    },
    TwoRegCondition {
        cond_type: TwoRegConditionType,
        reg1: Register,
        reg2: Register,
        offset: Label,
    },
    Goto {
        goto_type: GotoType,
        offset: Label,
    },
    ConstLiteral {
        const_type: ConstLiteralType,
        dest: Register,
        value: ConstLiteralValue,
    },
    LitArith8 {
        arith_type: LitArithType8,
        dest: Register,
        src: Register,
        literal: i8,
    },
    LitArith16 {
        arith_type: LitArithType16,
        dest: Register,
        src: Register,
        literal: i16,
    },
    Convert {
        convert_type: ConvertType,
        dest: Register,
        src: Register,
    },
    Cmp {
        cmp_type: CmpType,
        dest: Register,
        src1: Register,
        src2: Register,
    },
    ArrayAccess {
        access_type: ArrayAccessType,
        value_type: ArrayValueType,
        reg: Register,
        arr: Register,
        idx: Register,
    },
    DynamicFieldAccess {
        access_type: DynamicFieldAccessType,
        value_type: FieldValueType,
        reg: Register,
        object: Register,
        field: FieldRef,
    },
    StaticFieldAccess {
        access_type: StaticFieldAccessType,
        value_type: FieldValueType,
        reg: Register,
        field: FieldRef,
    },
    Nop,
    MonitorEnter {
        src: Register,
    },
    MonitorExit {
        src: Register,
    },
    CheckCast {
        dest: Register,
        class: StringOrTypeSig,
    },
    InstanceOf {
        dest: Register,
        src: Register,
        class: StringOrTypeSig,
    },
    ArrayLength {
        dest: Register,
        array: Register,
    },
    NewInstance {
        dest: Register,
        class: StringOrTypeSig,
    },
    NewArray {
        dest: Register,
        size_reg: Register,
        class: StringOrTypeSig,
    },
    FilledNewArray {
        registers: Vec<Register>,
        class: StringOrTypeSig,
    },
    FilledNewArrayRange {
        registers: RegisterRange,
        class: StringOrTypeSig,
    },
    FillArrayData {
        reg: Register,
        offset: Label,
    },
    Throw {
        src: Register,
    },
    Switch {
        switch_type: SwitchType,
        reg: Register,
        offset: Label,
    },
    Unused {
        opcode: u8,
    },
}

/// Mathematical model of a `DexOp`.
pub enum SpecDexOp {
    Invoke {
        invoke_type: InvokeType,
        registers: Seq<Register>,
        range: Option<RegisterRange>,
        method: Option<SpecMethodRef>,
        call_site: Option<Seq<char>>,
        proto: Option<Seq<char>>,
    },
    Const { const_type: ConstType, dest: Register, value: SpecStringOrTypeSig },
    MoveTwoReg { move_type: TwoRegMoveType, dest: Register, src: Register },
    MoveOneReg { move_type: OneRegMoveType, dest: Register },
    Return { return_type: ReturnType, src: Option<Register> },
    Arith {
        arith_type: ArithType,
        operand_type: ArithOperandType,
        dest: Register,
        src1: Register,
        src2: Register,
    },
    ArithUnary {
        arith_type: ArithUnaryType,
        operand_type: ArithOperandType,
        dest: Register,
        src: Register,
    },
    Arith2Addr {
        arith_type: ArithType,
        operand_type: ArithOperand2AddrType,
        dest: Register,
        src: Register,
    },
    Condition { cond_type: ConditionType, reg1: Register, offset: Seq<char> },
    TwoRegCondition {
        cond_type: TwoRegConditionType,
        reg1: Register,
        reg2: Register,
        offset: Seq<char>,
    },
    Goto { goto_type: GotoType, offset: Seq<char> },
    ConstLiteral { const_type: ConstLiteralType, dest: Register, value: ConstLiteralValue },
    LitArith8 { arith_type: LitArithType8, dest: Register, src: Register, literal: i8 },
    LitArith16 { arith_type: LitArithType16, dest: Register, src: Register, literal: i16 },
    Convert { convert_type: ConvertType, dest: Register, src: Register },
    Cmp { cmp_type: CmpType, dest: Register, src1: Register, src2: Register },
    ArrayAccess {
        access_type: ArrayAccessType,
        value_type: ArrayValueType,
        reg: Register,
        arr: Register,
        idx: Register,
    },
    DynamicFieldAccess {
        access_type: DynamicFieldAccessType,
        value_type: FieldValueType,
        reg: Register,
        object: Register,
        field: SpecFieldRef,
    },
    StaticFieldAccess {
        access_type: StaticFieldAccessType,
        value_type: FieldValueType,
        reg: Register,
        field: SpecFieldRef,
    },
    Nop,
    MonitorEnter { src: Register },
    MonitorExit { src: Register },
    CheckCast { dest: Register, class: SpecStringOrTypeSig },
    InstanceOf { dest: Register, src: Register, class: SpecStringOrTypeSig },
    ArrayLength { dest: Register, array: Register },
    NewInstance { dest: Register, class: SpecStringOrTypeSig },
    NewArray { dest: Register, size_reg: Register, class: SpecStringOrTypeSig },
    FilledNewArray { registers: Seq<Register>, class: SpecStringOrTypeSig },
    FilledNewArrayRange { registers: RegisterRange, class: SpecStringOrTypeSig },
    FillArrayData { reg: Register, offset: Seq<char> },
    Throw { src: Register },
    Switch { switch_type: SwitchType, reg: Register, offset: Seq<char> },
    Unused { opcode: u8 },
}

impl View for DexOp {
    type V = SpecDexOp;

    open spec fn view(&self) -> SpecDexOp {
        match self {
            DexOp::Invoke { invoke_type, registers, range, method, call_site, proto } =>
                SpecDexOp::Invoke {
                invoke_type: *invoke_type,
                registers: registers@,
                range: *range,
                method: match method {
                    Some(m) => Some(m@),
                    None => None,
                },
                call_site: match call_site {
                    Some(c) => Some(c@),
                    None => None,
                },
                proto: match proto {
                    Some(p) => Some(p@),
                    None => None,
                },
            },
            DexOp::Const { const_type, dest, value } => SpecDexOp::Const {
                const_type: *const_type,
                dest: *dest,
                value: value@,
            },
            DexOp::MoveTwoReg { move_type, dest, src } => SpecDexOp::MoveTwoReg {
                move_type: *move_type,
                dest: *dest,
                src: *src,
            },
            DexOp::MoveOneReg { move_type, dest } => SpecDexOp::MoveOneReg {
                move_type: *move_type,
                dest: *dest,
            },
            DexOp::Return { return_type, src } => SpecDexOp::Return {
                return_type: *return_type,
                src: *src,
            },
            DexOp::Arith { arith_type, operand_type, dest, src1, src2 } => SpecDexOp::Arith {
                arith_type: *arith_type,
                operand_type: *operand_type,
                dest: *dest,
                src1: *src1,
                src2: *src2,
            },
            DexOp::ArithUnary { arith_type, operand_type, dest, src } => SpecDexOp::ArithUnary {
                arith_type: *arith_type,
                operand_type: *operand_type,
                dest: *dest,
                src: *src,
            },
            DexOp::Arith2Addr { arith_type, operand_type, dest, src } => SpecDexOp::Arith2Addr {
                arith_type: *arith_type,
                operand_type: *operand_type,
                dest: *dest,
                src: *src,
            },
            DexOp::Condition { cond_type, reg1, offset } => SpecDexOp::Condition {
                cond_type: *cond_type,
                reg1: *reg1,
                offset: offset@,
            },
            DexOp::TwoRegCondition { cond_type, reg1, reg2, offset } =>
                SpecDexOp::TwoRegCondition {
                cond_type: *cond_type,
                reg1: *reg1,
                reg2: *reg2,
                offset: offset@,
            },
            DexOp::Goto { goto_type, offset } => SpecDexOp::Goto {
                goto_type: *goto_type,
                offset: offset@,
            },
            DexOp::ConstLiteral { const_type, dest, value } => SpecDexOp::ConstLiteral {
                const_type: *const_type,
                dest: *dest,
                value: *value,
            },
            DexOp::LitArith8 { arith_type, dest, src, literal } => SpecDexOp::LitArith8 {
                arith_type: *arith_type,
                dest: *dest,
                src: *src,
                literal: *literal,
            },
            DexOp::LitArith16 { arith_type, dest, src, literal } => SpecDexOp::LitArith16 {
                arith_type: *arith_type,
                dest: *dest,
                src: *src,
                literal: *literal,
            },
            DexOp::Convert { convert_type, dest, src } => SpecDexOp::Convert {
                convert_type: *convert_type,
                dest: *dest,
                src: *src,
            },
            DexOp::Cmp { cmp_type, dest, src1, src2 } => SpecDexOp::Cmp {
                cmp_type: *cmp_type,
                dest: *dest,
                src1: *src1,
                src2: *src2,
            },
            DexOp::ArrayAccess { access_type, value_type, reg, arr, idx } =>
                SpecDexOp::ArrayAccess {
                access_type: *access_type,
                value_type: *value_type,
                reg: *reg,
                arr: *arr,
                idx: *idx,
            },
            DexOp::DynamicFieldAccess { access_type, value_type, reg, object, field } =>
                SpecDexOp::DynamicFieldAccess {
                access_type: *access_type,
                value_type: *value_type,
                reg: *reg,
                object: *object,
                field: field@,
            },
            DexOp::StaticFieldAccess { access_type, value_type, reg, field } =>
                SpecDexOp::StaticFieldAccess {
                access_type: *access_type,
                value_type: *value_type,
                reg: *reg,
                field: field@,
            },
            DexOp::Nop => SpecDexOp::Nop,
            DexOp::MonitorEnter { src } => SpecDexOp::MonitorEnter { src: *src },
            DexOp::MonitorExit { src } => SpecDexOp::MonitorExit { src: *src },
            DexOp::CheckCast { dest, class } => SpecDexOp::CheckCast {
                dest: *dest,
                class: class@,
            },
            DexOp::InstanceOf { dest, src, class } => SpecDexOp::InstanceOf {
                dest: *dest,
                src: *src,
                class: class@,
            },
            DexOp::ArrayLength { dest, array } => SpecDexOp::ArrayLength {
                dest: *dest,
                array: *array,
            },
            DexOp::NewInstance { dest, class } => SpecDexOp::NewInstance {
                dest: *dest,
                class: class@,
            },
            DexOp::NewArray { dest, size_reg, class } => SpecDexOp::NewArray {
                dest: *dest,
                size_reg: *size_reg,
                class: class@,
            },
            DexOp::FilledNewArray { registers, class } => SpecDexOp::FilledNewArray {
                registers: registers@,
                class: class@,
            },
            DexOp::FilledNewArrayRange { registers, class } => SpecDexOp::FilledNewArrayRange {
                registers: *registers,
                class: class@,
            },
            DexOp::FillArrayData { reg, offset } => SpecDexOp::FillArrayData {
                reg: *reg,
                offset: offset@,
            },
            DexOp::Throw { src } => SpecDexOp::Throw { src: *src },
            DexOp::Switch { switch_type, reg, offset } => SpecDexOp::Switch {
                switch_type: *switch_type,
                reg: *reg,
                offset: offset@,
            },
            DexOp::Unused { opcode } => SpecDexOp::Unused { opcode: *opcode },
        }
    }
}

// ---------------------------------------------------------------------------
// The canonical serializer.
// ---------------------------------------------------------------------------

/// The comma-and-space-joined text of the registers `l[k..]`.
pub open spec fn spec_render_reg_items(l: Seq<Register>, k: int) -> Seq<char>
    decreases l.len() - k,
{
    if 0 <= k < l.len() {
        spec_register_text(l[k]) + (if k + 1 < l.len() {
            seq![',', ' ']
        } else {
            Seq::empty()
        }) + spec_render_reg_items(l, k + 1)
    } else {
        Seq::empty()
    }
}

fn render_reg_items(v: &Vec<Register>, k: usize) -> (r: String)
    requires
        k <= v@.len(),
    ensures
        r@ == spec_render_reg_items(v@, k as int),
    decreases v@.len() - k,
{
    if k >= v.len() {
        let s = String::new();
        proof {
            assert(s@ =~= spec_render_reg_items(v@, k as int));
        }
        s
    } else {
        let mut s = v[k].to_smali();
        if k + 1 < v.len() {
            s.push(',');
            s.push(' ');
        }
        let rest = render_reg_items(v, k + 1);
        s.append(rest.as_str());
        proof {
            assert(s@ =~= spec_render_reg_items(v@, k as int));
        }
        s
    }
}

/// Whether an instruction value carries the operands its shape needs for
/// rendering: invocations must hold their method reference, call site or
/// prototype as their form requires.
pub open spec fn spec_dex_op_wf(op: SpecDexOp) -> bool {
    match op {
        SpecDexOp::Invoke { invoke_type, method, call_site, proto, .. } => match invoke_type {
            InvokeType::Polymorphic | InvokeType::PolymorphicRange => method is Some
                && proto is Some,
            InvokeType::Custom | InvokeType::CustomRange => call_site is Some,
            _ => method is Some,
        },
        _ => true,
    }
}

/// The canonical text of an instruction, one line, no trailing newline.
pub open spec fn spec_render_dex_op(op: SpecDexOp) -> Seq<char> {
    match op {
        SpecDexOp::Invoke { invoke_type, registers, range, method, call_site, proto } => {
            let regs = match range {
                Some(rr) => spec_register_range_text(rr),
                None => seq!['{'] + spec_render_reg_items(registers, 0) + seq!['}'],
            };
            match invoke_type {
                InvokeType::Polymorphic | InvokeType::PolymorphicRange =>
                    invoke_type.spec_mnemonic() + seq![' '] + regs + seq![',', ' ']
                    + spec_method_ref_text(method->0) + seq![',', ' '] + proto->0,
                InvokeType::Custom | InvokeType::CustomRange => invoke_type.spec_mnemonic()
                    + seq![' '] + regs + seq![',', ' '] + call_site->0,
                _ => invoke_type.spec_mnemonic() + seq![' '] + regs + seq![',', ' ']
                    + spec_method_ref_text(method->0),
            }
        },
        SpecDexOp::Const { const_type, dest, value } => const_type.spec_mnemonic()
            + seq![' '] + spec_register_text(dest) + seq![',', ' ']
            + spec_string_or_ts_text(value),
        SpecDexOp::MoveTwoReg { move_type, dest, src } => move_type.spec_mnemonic()
            + seq![' '] + spec_register_text(dest) + seq![',', ' '] + spec_register_text(src),
        SpecDexOp::MoveOneReg { move_type, dest } => move_type.spec_mnemonic() + seq![' ']
            + spec_register_text(dest),
        SpecDexOp::Return { return_type, src } => match src {
            Some(r) => return_type.spec_mnemonic() + seq![' '] + spec_register_text(r),
            None => return_type.spec_mnemonic(),
        },
        SpecDexOp::Arith { arith_type, operand_type, dest, src1, src2 } =>
            arith_type.spec_mnemonic() + seq!['-'] + operand_type.spec_mnemonic() + seq![' ']
            + spec_register_text(dest) + seq![',', ' '] + spec_register_text(src1)
            + seq![',', ' '] + spec_register_text(src2),
        SpecDexOp::ArithUnary { arith_type, operand_type, dest, src } =>
            arith_type.spec_mnemonic() + seq!['-'] + operand_type.spec_mnemonic() + seq![' ']
            + spec_register_text(dest) + seq![',', ' '] + spec_register_text(src),
        SpecDexOp::Arith2Addr { arith_type, operand_type, dest, src } =>
            arith_type.spec_mnemonic() + seq!['-'] + operand_type.spec_mnemonic() + seq![' ']
            + spec_register_text(dest) + seq![',', ' '] + spec_register_text(src),
        SpecDexOp::Condition { cond_type, reg1, offset } => cond_type.spec_mnemonic()
            + seq![' '] + spec_register_text(reg1) + seq![',', ' '] + spec_label_text(offset),
        SpecDexOp::TwoRegCondition { cond_type, reg1, reg2, offset } =>
            cond_type.spec_mnemonic() + seq![' '] + spec_register_text(reg1) + seq![',', ' ']
            + spec_register_text(reg2) + seq![',', ' '] + spec_label_text(offset),
        SpecDexOp::Goto { goto_type, offset } => goto_type.spec_mnemonic() + seq![' ']
            + spec_label_text(offset),
        SpecDexOp::ConstLiteral { const_type, dest, value } => const_type.spec_mnemonic()
            + seq![' '] + spec_register_text(dest) + seq![',', ' ']
            + spec_const_literal_value_text(value),
        SpecDexOp::LitArith8 { arith_type, dest, src, literal } => arith_type.spec_mnemonic()
            + seq![' '] + spec_register_text(dest) + seq![',', ' '] + spec_register_text(src)
            + seq![',', ' '] + spec_dec_signed(literal as int),
        SpecDexOp::LitArith16 { arith_type, dest, src, literal } => arith_type.spec_mnemonic()
            + seq![' '] + spec_register_text(dest) + seq![',', ' '] + spec_register_text(src)
            + seq![',', ' '] + spec_dec_signed(literal as int),
        SpecDexOp::Convert { convert_type, dest, src } => convert_type.spec_mnemonic()
            + seq![' '] + spec_register_text(dest) + seq![',', ' '] + spec_register_text(src),
        SpecDexOp::Cmp { cmp_type, dest, src1, src2 } => cmp_type.spec_mnemonic() + seq![' ']
            + spec_register_text(dest) + seq![',', ' '] + spec_register_text(src1)
            + seq![',', ' '] + spec_register_text(src2),
        SpecDexOp::ArrayAccess { access_type, value_type, reg, arr, idx } => (
        match value_type {
            ArrayValueType::Normal => access_type.spec_mnemonic(),
            _ => access_type.spec_mnemonic() + seq!['-'] + value_type.spec_mnemonic(),
        }) + seq![' '] + spec_register_text(reg) + seq![',', ' '] + spec_register_text(arr)
            + seq![',', ' '] + spec_register_text(idx),
        SpecDexOp::DynamicFieldAccess { access_type, value_type, reg, object, field } => (
        match value_type {
            FieldValueType::Normal => access_type.spec_mnemonic(),
            _ => access_type.spec_mnemonic() + seq!['-'] + value_type.spec_mnemonic(),
        }) + seq![' '] + spec_register_text(reg) + seq![',', ' '] + spec_register_text(object)
            + seq![',', ' '] + spec_field_ref_text(field),
        SpecDexOp::StaticFieldAccess { access_type, value_type, reg, field } => (
        match value_type {
            FieldValueType::Normal => access_type.spec_mnemonic(),
            _ => access_type.spec_mnemonic() + seq!['-'] + value_type.spec_mnemonic(),
        }) + seq![' '] + spec_register_text(reg) + seq![',', ' '] + spec_field_ref_text(field),
        SpecDexOp::Nop => "nop"@,
        SpecDexOp::MonitorEnter { src } => "monitor-enter"@ + seq![' ']
            + spec_register_text(src),
        SpecDexOp::MonitorExit { src } => "monitor-exit"@ + seq![' ']
            + spec_register_text(src),
        SpecDexOp::CheckCast { dest, class } => "check-cast"@ + seq![' ']
            + spec_register_text(dest) + seq![',', ' '] + spec_string_or_ts_text(class),
        SpecDexOp::InstanceOf { dest, src, class } => "instance-of"@ + seq![' ']
            + spec_register_text(dest) + seq![',', ' '] + spec_register_text(src)
            + seq![',', ' '] + spec_string_or_ts_text(class),
        SpecDexOp::ArrayLength { dest, array } => "array-length"@ + seq![' ']
            + spec_register_text(dest) + seq![',', ' '] + spec_register_text(array),
        SpecDexOp::NewInstance { dest, class } => "new-instance"@ + seq![' ']
            + spec_register_text(dest) + seq![',', ' '] + spec_string_or_ts_text(class),
        SpecDexOp::NewArray { dest, size_reg, class } => "new-array"@ + seq![' ']
            + spec_register_text(dest) + seq![',', ' '] + spec_register_text(size_reg)
            + seq![',', ' '] + spec_string_or_ts_text(class),
        SpecDexOp::FilledNewArray { registers, class } => "filled-new-array"@ + seq![' ', '{']
            + spec_render_reg_items(registers, 0) + seq!['}', ',', ' ']
            + spec_string_or_ts_text(class),
        SpecDexOp::FilledNewArrayRange { registers, class } => "filled-new-array/range"@
            + seq![' '] + spec_register_range_text(registers) + seq![',', ' ']
            + spec_string_or_ts_text(class),
        SpecDexOp::FillArrayData { reg, offset } => "fill-array-data"@ + seq![' ']
            + spec_register_text(reg) + seq![',', ' '] + spec_label_text(offset),
        SpecDexOp::Throw { src } => "throw"@ + seq![' '] + spec_register_text(src),
        SpecDexOp::Switch { switch_type, reg, offset } => switch_type.spec_mnemonic()
            + seq![' '] + spec_register_text(reg) + seq![',', ' '] + spec_label_text(offset),
        SpecDexOp::Unused { opcode } => "unused"@ + seq![' '] + spec_dec_u64(opcode as int),
    }
}

impl DexOp {
    /// Render this instruction as one line of canonical text.
    #[verifier::rlimit(100)]
    pub fn to_smali(&self) -> (r: String)
        requires
            spec_dex_op_wf(self@),
        ensures
            r@ == spec_render_dex_op(self@),
    {
        match self {
            DexOp::Invoke { .. }
            | DexOp::Const { .. }
            | DexOp::MoveTwoReg { .. }
            | DexOp::MoveOneReg { .. }
            | DexOp::Return { .. }
            | DexOp::Arith { .. }
            | DexOp::ArithUnary { .. }
            | DexOp::Arith2Addr { .. }
            | DexOp::Condition { .. }
            | DexOp::TwoRegCondition { .. }
            | DexOp::Goto { .. } => self.render_moves_and_branches(),
            DexOp::ConstLiteral { .. }
            | DexOp::LitArith8 { .. }
            | DexOp::LitArith16 { .. }
            | DexOp::Convert { .. }
            | DexOp::Cmp { .. }
            | DexOp::ArrayAccess { .. }
            | DexOp::DynamicFieldAccess { .. }
            | DexOp::StaticFieldAccess { .. } => self.render_literals_and_accesses(),
            DexOp::Nop
            | DexOp::MonitorEnter { .. }
            | DexOp::MonitorExit { .. }
            | DexOp::CheckCast { .. }
            | DexOp::InstanceOf { .. }
            | DexOp::ArrayLength { .. }
            | DexOp::NewInstance { .. }
            | DexOp::NewArray { .. }
            | DexOp::FilledNewArray { .. }
            | DexOp::FilledNewArrayRange { .. }
            | DexOp::FillArrayData { .. }
            | DexOp::Throw { .. }
            | DexOp::Switch { .. }
            | DexOp::Unused { .. } => self.render_object_forms(),
        }
    }

    fn render_moves_and_branches(&self) -> (r: String)
        requires
            spec_dex_op_wf(self@),
            self is Invoke || self is Const || self is MoveTwoReg || self is MoveOneReg || self is Return || self is Arith || self is ArithUnary || self is Arith2Addr || self is Condition || self is TwoRegCondition || self is Goto,
        ensures
            r@ == spec_render_dex_op(self@),
    {
        match self {
            DexOp::Invoke { invoke_type, registers, range, method, call_site, proto } => {
                let mut s = String::from_str(invoke_type.mnemonic());
                s.push(' ');
                match range {
                    Some(rr) => {
                        let t = rr.to_smali();
                        s.append(t.as_str());
                    },
                    None => {
                        s.push('{');
                        let t = render_reg_items(registers, 0);
                        s.append(t.as_str());
                        s.push('}');
                    },
                }
                s.push(',');
                s.push(' ');
                let poly = match invoke_type {
                    InvokeType::Polymorphic | InvokeType::PolymorphicRange => true,
                    _ => false,
                };
                let custom = match invoke_type {
                    InvokeType::Custom | InvokeType::CustomRange => true,
                    _ => false,
                };
                if custom {
                    match call_site {
                        Some(c) => {
                            s.append(c.as_str());
                        },
                        None => {
                            proof {
                                assert(false);
                            }
                        },
                    }
                } else {
                    match method {
                        Some(m) => {
                            let t = m.to_smali();
                            s.append(t.as_str());
                        },
                        None => {
                            proof {
                                assert(false);
                            }
                        },
                    }
                    if poly {
                        s.push(',');
                        s.push(' ');
                        match proto {
                            Some(p) => {
                                s.append(p.as_str());
                            },
                            None => {
                                proof {
                                    assert(false);
                                }
                            },
                        }
                    }
                }
                proof {
                    assert(s@ =~= spec_render_dex_op(self@));
                }
                s
            },
            DexOp::Const { const_type, dest, value } => {
                let mut s = String::from_str(const_type.mnemonic());
                s.push(' ');
                let a = dest.to_smali();
                s.append(a.as_str());
                s.push(',');
                s.push(' ');
                let b = value.to_smali();
                s.append(b.as_str());
                proof {
                    assert(s@ =~= spec_render_dex_op(self@));
                }
                s
            },
            DexOp::MoveTwoReg { move_type, dest, src } => {
                let mut s = String::from_str(move_type.mnemonic());
                s.push(' ');
                let a = dest.to_smali();
                s.append(a.as_str());
                s.push(',');
                s.push(' ');
                let b = src.to_smali();
                s.append(b.as_str());
                proof {
                    assert(s@ =~= spec_render_dex_op(self@));
                }
                s
            },
            DexOp::MoveOneReg { move_type, dest } => {
                let mut s = String::from_str(move_type.mnemonic());
                s.push(' ');
                let a = dest.to_smali();
                s.append(a.as_str());
                proof {
                    assert(s@ =~= spec_render_dex_op(self@));
                }
                s
            },
            DexOp::Return { return_type, src } => {
                let mut s = String::from_str(return_type.mnemonic());
                match src {
                    Some(r) => {
                        s.push(' ');
                        let a = r.to_smali();
                        s.append(a.as_str());
                    },
                    None => {},
                }
                proof {
                    assert(s@ =~= spec_render_dex_op(self@));
                }
                s
            },
            DexOp::Arith { arith_type, operand_type, dest, src1, src2 } => {
                let mut s = String::from_str(arith_type.mnemonic());
                s.push('-');
                s.append(operand_type.mnemonic());
                s.push(' ');
                let a = dest.to_smali();
                s.append(a.as_str());
                s.push(',');
                s.push(' ');
                let b = src1.to_smali();
                s.append(b.as_str());
                s.push(',');
                s.push(' ');
                let c = src2.to_smali();
                s.append(c.as_str());
                proof {
                    assert(s@ =~= spec_render_dex_op(self@));
                }
                s
            },
            DexOp::ArithUnary { arith_type, operand_type, dest, src } => {
                let mut s = String::from_str(arith_type.mnemonic());
                s.push('-');
                s.append(operand_type.mnemonic());
                s.push(' ');
                let a = dest.to_smali();
                s.append(a.as_str());
                s.push(',');
                s.push(' ');
                let b = src.to_smali();
                s.append(b.as_str());
                proof {
                    assert(s@ =~= spec_render_dex_op(self@));
                }
                s
            },
            DexOp::Arith2Addr { arith_type, operand_type, dest, src } => {
                let mut s = String::from_str(arith_type.mnemonic());
                s.push('-');
                s.append(operand_type.mnemonic());
                s.push(' ');
                let a = dest.to_smali();
                s.append(a.as_str());
                s.push(',');
                s.push(' ');
                let b = src.to_smali();
                s.append(b.as_str());
                proof {
                    assert(s@ =~= spec_render_dex_op(self@));
                }
                s
            },
            DexOp::Condition { cond_type, reg1, offset } => {
                let mut s = String::from_str(cond_type.mnemonic());
                s.push(' ');
                let a = reg1.to_smali();
                s.append(a.as_str());
                s.push(',');
                s.push(' ');
                let b = offset.to_smali();
                s.append(b.as_str());
                proof {
                    assert(s@ =~= spec_render_dex_op(self@));
                }
                s
            },
            DexOp::TwoRegCondition { cond_type, reg1, reg2, offset } => {
                let mut s = String::from_str(cond_type.mnemonic());
                s.push(' ');
                let a = reg1.to_smali();
                s.append(a.as_str());
                s.push(',');
                s.push(' ');
                let b = reg2.to_smali();
                s.append(b.as_str());
                s.push(',');
                s.push(' ');
                let c = offset.to_smali();
                s.append(c.as_str());
                proof {
                    assert(s@ =~= spec_render_dex_op(self@));
                }
                s
            },
            DexOp::Goto { goto_type, offset } => {
                let mut s = String::from_str(goto_type.mnemonic());
                s.push(' ');
                let a = offset.to_smali();
                s.append(a.as_str());
                proof {
                    assert(s@ =~= spec_render_dex_op(self@));
                }
                s
            },
            _ => {
                proof {
                    assert(false);
                }
                String::new()
            },
        }
    }

    fn render_literals_and_accesses(&self) -> (r: String)
        requires
            spec_dex_op_wf(self@),
            self is ConstLiteral || self is LitArith8 || self is LitArith16 || self is Convert || self is Cmp || self is ArrayAccess || self is DynamicFieldAccess || self is StaticFieldAccess,
        ensures
            r@ == spec_render_dex_op(self@),
    {
        match self {
            DexOp::ConstLiteral { const_type, dest, value } => {
                let mut s = String::from_str(const_type.mnemonic());
                s.push(' ');
                let a = dest.to_smali();
                s.append(a.as_str());
                s.push(',');
                s.push(' ');
                let b = value.to_smali();
                s.append(b.as_str());
                proof {
                    assert(s@ =~= spec_render_dex_op(self@));
                }
                s
            },
            DexOp::LitArith8 { arith_type, dest, src, literal } => {
                let mut s = String::from_str(arith_type.mnemonic());
                s.push(' ');
                let a = dest.to_smali();
                s.append(a.as_str());
                s.push(',');
                s.push(' ');
                let b = src.to_smali();
                s.append(b.as_str());
                s.push(',');
                s.push(' ');
                let c = i64_to_dec(*literal as i64);
                s.append(c.as_str());
                proof {
                    assert(s@ =~= spec_render_dex_op(self@));
                }
                s
            },
            DexOp::LitArith16 { arith_type, dest, src, literal } => {
                let mut s = String::from_str(arith_type.mnemonic());
                s.push(' ');
                let a = dest.to_smali();
                s.append(a.as_str());
                s.push(',');
                s.push(' ');
                let b = src.to_smali();
                s.append(b.as_str());
                s.push(',');
                s.push(' ');
                let c = i64_to_dec(*literal as i64);
                s.append(c.as_str());
                proof {
                    assert(s@ =~= spec_render_dex_op(self@));
                }
                s
            },
            DexOp::Convert { convert_type, dest, src } => {
                let mut s = String::from_str(convert_type.mnemonic());
                s.push(' ');
                let a = dest.to_smali();
                s.append(a.as_str());
                s.push(',');
                s.push(' ');
                let b = src.to_smali();
                s.append(b.as_str());
                proof {
                    assert(s@ =~= spec_render_dex_op(self@));
                }
                s
            },
            DexOp::Cmp { cmp_type, dest, src1, src2 } => {
                let mut s = String::from_str(cmp_type.mnemonic());
                s.push(' ');
                let a = dest.to_smali();
                s.append(a.as_str());
                s.push(',');
                s.push(' ');
                let b = src1.to_smali();
                s.append(b.as_str());
                s.push(',');
                s.push(' ');
                let c = src2.to_smali();
                s.append(c.as_str());
                proof {
                    assert(s@ =~= spec_render_dex_op(self@));
                }
                s
            },
            DexOp::ArrayAccess { access_type, value_type, reg, arr, idx } => {
                let mut s = String::from_str(access_type.mnemonic());
                let normal = match value_type {
                    ArrayValueType::Normal => true,
                    _ => false,
                };
                if !normal {
                    s.push('-');
                    s.append(value_type.mnemonic());
                }
                s.push(' ');
                let a = reg.to_smali();
                s.append(a.as_str());
                s.push(',');
                s.push(' ');
                let b = arr.to_smali();
                s.append(b.as_str());
                s.push(',');
                s.push(' ');
                let c = idx.to_smali();
                s.append(c.as_str());
                proof {
                    assert(s@ =~= spec_render_dex_op(self@));
                }
                s
            },
            DexOp::DynamicFieldAccess { access_type, value_type, reg, object, field } => {
                let mut s = String::from_str(access_type.mnemonic());
                let normal = match value_type {
                    FieldValueType::Normal => true,
                    _ => false,
                };
                if !normal {
                    s.push('-');
                    s.append(value_type.mnemonic());
                }
                s.push(' ');
                let a = reg.to_smali();
                s.append(a.as_str());
                s.push(',');
                s.push(' ');
                let b = object.to_smali();
                s.append(b.as_str());
                s.push(',');
                s.push(' ');
                let c = field.to_smali();
                s.append(c.as_str());
                proof {
                    assert(s@ =~= spec_render_dex_op(self@));
                }
                s
            },
            DexOp::StaticFieldAccess { access_type, value_type, reg, field } => {
                let mut s = String::from_str(access_type.mnemonic());
                let normal = match value_type {
                    FieldValueType::Normal => true,
                    _ => false,
                };
                if !normal {
                    s.push('-');
                    s.append(value_type.mnemonic());
                }
                s.push(' ');
                let a = reg.to_smali();
                s.append(a.as_str());
                s.push(',');
                s.push(' ');
                let b = field.to_smali();
                s.append(b.as_str());
                proof {
                    assert(s@ =~= spec_render_dex_op(self@));
                }
                s
            },
            _ => {
                proof {
                    assert(false);
                }
                String::new()
            },
        }
    }

    fn render_object_forms(&self) -> (r: String)
        requires
            spec_dex_op_wf(self@),
            self is Nop || self is MonitorEnter || self is MonitorExit || self is CheckCast || self is InstanceOf || self is ArrayLength || self is NewInstance || self is NewArray || self is FilledNewArray || self is FilledNewArrayRange || self is FillArrayData || self is Throw || self is Switch || self is Unused,
        ensures
            r@ == spec_render_dex_op(self@),
    {
        match self {
            DexOp::Nop => String::from_str("nop"),
            DexOp::MonitorEnter { src } => {
                let mut s = String::from_str("monitor-enter");
                s.push(' ');
                let a = src.to_smali();
                s.append(a.as_str());
                proof {
                    assert(s@ =~= spec_render_dex_op(self@));
                }
                s
            },
            DexOp::MonitorExit { src } => {
                let mut s = String::from_str("monitor-exit");
                s.push(' ');
                let a = src.to_smali();
                s.append(a.as_str());
                proof {
                    assert(s@ =~= spec_render_dex_op(self@));
                }
                s
            },
            DexOp::CheckCast { dest, class } => {
                let mut s = String::from_str("check-cast");
                s.push(' ');
                let a = dest.to_smali();
                s.append(a.as_str());
                s.push(',');
                s.push(' ');
                let b = class.to_smali();
                s.append(b.as_str());
                proof {
                    assert(s@ =~= spec_render_dex_op(self@));
                }
                s
            },
            DexOp::InstanceOf { dest, src, class } => {
                let mut s = String::from_str("instance-of");
                s.push(' ');
                let a = dest.to_smali();
                s.append(a.as_str());
                s.push(',');
                s.push(' ');
                let b = src.to_smali();
                s.append(b.as_str());
                s.push(',');
                s.push(' ');
                let c = class.to_smali();
                s.append(c.as_str());
                proof {
                    assert(s@ =~= spec_render_dex_op(self@));
                }
                s
            },
            DexOp::ArrayLength { dest, array } => {
                let mut s = String::from_str("array-length");
                s.push(' ');
                let a = dest.to_smali();
                s.append(a.as_str());
                s.push(',');
                s.push(' ');
                let b = array.to_smali();
                s.append(b.as_str());
                proof {
                    assert(s@ =~= spec_render_dex_op(self@));
                }
                s
            },
            DexOp::NewInstance { dest, class } => {
                let mut s = String::from_str("new-instance");
                s.push(' ');
                let a = dest.to_smali();
                s.append(a.as_str());
                s.push(',');
                s.push(' ');
                let b = class.to_smali();
                s.append(b.as_str());
                proof {
                    assert(s@ =~= spec_render_dex_op(self@));
                }
                s
            },
            DexOp::NewArray { dest, size_reg, class } => {
                let mut s = String::from_str("new-array");
                s.push(' ');
                let a = dest.to_smali();
                s.append(a.as_str());
                s.push(',');
                s.push(' ');
                let b = size_reg.to_smali();
                s.append(b.as_str());
                s.push(',');
                s.push(' ');
                let c = class.to_smali();
                s.append(c.as_str());
                proof {
                    assert(s@ =~= spec_render_dex_op(self@));
                }
                s
            },
            DexOp::FilledNewArray { registers, class } => {
                let mut s = String::from_str("filled-new-array");
                s.push(' ');
                s.push('{');
                let t = render_reg_items(registers, 0);
                s.append(t.as_str());
                s.push('}');
                s.push(',');
                s.push(' ');
                let b = class.to_smali();
                s.append(b.as_str());
                proof {
                    assert(s@ =~= spec_render_dex_op(self@));
                }
                s
            },
            DexOp::FilledNewArrayRange { registers, class } => {
                let mut s = String::from_str("filled-new-array/range");
                s.push(' ');
                let a = registers.to_smali();
                s.append(a.as_str());
                s.push(',');
                s.push(' ');
                let b = class.to_smali();
                s.append(b.as_str());
                proof {
                    assert(s@ =~= spec_render_dex_op(self@));
                }
                s
            },
            DexOp::FillArrayData { reg, offset } => {
                let mut s = String::from_str("fill-array-data");
                s.push(' ');
                let a = reg.to_smali();
                s.append(a.as_str());
                s.push(',');
                s.push(' ');
                let b = offset.to_smali();
                s.append(b.as_str());
                proof {
                    assert(s@ =~= spec_render_dex_op(self@));
                }
                s
            },
            DexOp::Throw { src } => {
                let mut s = String::from_str("throw");
                s.push(' ');
                let a = src.to_smali();
                s.append(a.as_str());
                proof {
                    assert(s@ =~= spec_render_dex_op(self@));
                }
                s
            },
            DexOp::Switch { switch_type, reg, offset } => {
                let mut s = String::from_str(switch_type.mnemonic());
                s.push(' ');
                let a = reg.to_smali();
                s.append(a.as_str());
                s.push(',');
                s.push(' ');
                let b = offset.to_smali();
                s.append(b.as_str());
                proof {
                    assert(s@ =~= spec_render_dex_op(self@));
                }
                s
            },
            DexOp::Unused { opcode } => {
                let mut s = String::from_str("unused");
                s.push(' ');
                let a = u64_to_dec(*opcode as u64);
                s.append(a.as_str());
                proof {
                    assert(s@ =~= spec_render_dex_op(self@));
                }
                s
            },
            _ => {
                proof {
                    assert(false);
                }
                String::new()
            },
        }
    }

}

// ---------------------------------------------------------------------------
// Arity-parameterized operand parsers, shared across the catalog.
// ---------------------------------------------------------------------------

/// When a register fails to parse at `i`, the failure is an arity
/// mismatch exactly when the text has run out (after whitespace and
/// comments); otherwise the operand is malformed.
pub open spec fn spec_register_err_arity(s: Seq<char>, i: int) -> bool {
    spec_skip_ws(s, i) >= s.len()
}

/// When a register-and-comma pair fails at `i`, whether the failure is an
/// arity mismatch: a missing comma always is, a failing register by its
/// own condition.
pub open spec fn spec_reg_comma_err_arity(s: Seq<char>, i: int) -> bool {
    match spec_parse_register(s, i) {
        Some(_) => true,
        None => spec_register_err_arity(s, i),
    }
}

/// When two comma-separated registers fail at `i`, whether the failure is
/// an arity mismatch.
pub open spec fn spec_two_regs_err_arity(s: Seq<char>, i: int) -> bool {
    match spec_reg_comma(s, i) {
        None => spec_reg_comma_err_arity(s, i),
        Some((_, p)) => spec_register_err_arity(s, p),
    }
}

/// When three comma-separated registers fail at `i`, whether the failure
/// is an arity mismatch.
pub open spec fn spec_three_regs_err_arity(s: Seq<char>, i: int) -> bool {
    match spec_reg_comma(s, i) {
        None => spec_reg_comma_err_arity(s, i),
        Some((_, p)) => match spec_reg_comma(s, p) {
            None => spec_reg_comma_err_arity(s, p),
            Some((_, q)) => spec_register_err_arity(s, q),
        },
    }
}

/// Whether a failure in a one-register-then-operand shape at `i` is an
/// arity mismatch: only its register-and-comma prefix reports one.
pub open spec fn spec_one_reg_prefix_err_arity(s: Seq<char>, i: int) -> bool {
    match spec_reg_comma(s, i) {
        None => spec_reg_comma_err_arity(s, i),
        Some(_) => false,
    }
}

/// Whether a failure in a two-register-then-operand shape at `i` is an
/// arity mismatch: only its register-and-comma prefix reports one.
pub open spec fn spec_two_reg_prefix_err_arity(s: Seq<char>, i: int) -> bool {
    match spec_reg_comma(s, i) {
        None => spec_reg_comma_err_arity(s, i),
        Some((_, p)) => match spec_reg_comma(s, p) {
            None => spec_reg_comma_err_arity(s, p),
            Some(_) => false,
        },
    }
}

/// A register followed by a comma.
pub open spec fn spec_reg_comma(s: Seq<char>, i: int) -> Option<(Register, int)> {
    match spec_parse_register(s, i) {
        Some((r, j)) => match spec_comma(s, j) {
            Some(p) => Some((r, p)),
            None => None,
        },
        None => None,
    }
}

fn reg_comma(s: &str, i: usize) -> (r: Result<(Register, usize), ParseError>)
    requires
        i <= s@.len(),
    ensures
        match spec_reg_comma(s@, i as int) {
            Some((v, j)) => r matches Ok(p) && p.0 == v && p.1 == j && i <= j <= s@.len(),
            None => r is Err,
        },
        r matches Err(e) ==> (e is ArityMismatch <==> spec_reg_comma_err_arity(s@, i as int))
            && (e is MalformedOperand <==> !spec_reg_comma_err_arity(s@, i as int)),
{
    match parse_register(s, i) {
        Ok((reg, j)) => match comma(s, j) {
            Ok(p) => Ok((reg, p)),
            Err(e) => Err(e),
        },
        Err(e) => Err(e),
    }
}

/// Two comma-separated registers.
pub open spec fn spec_two_regs(s: Seq<char>, i: int) -> Option<((Register, Register), int)> {
    match spec_reg_comma(s, i) {
        Some((r1, p)) => match spec_parse_register(s, p) {
            Some((r2, j)) => Some(((r1, r2), j)),
            None => None,
        },
        None => None,
    }
}

fn two_regs(s: &str, i: usize) -> (r: Result<((Register, Register), usize), ParseError>)
    requires
        i <= s@.len(),
    ensures
        match spec_two_regs(s@, i as int) {
            Some((v, j)) => r matches Ok(p) && p.0 == v && p.1 == j && i <= j <= s@.len(),
            None => r is Err,
        },
        r matches Err(e) ==> (e is ArityMismatch <==> spec_two_regs_err_arity(s@, i as int))
            && (e is MalformedOperand <==> !spec_two_regs_err_arity(s@, i as int)),
{
    match reg_comma(s, i) {
        Ok((r1, p)) => match parse_register(s, p) {
            Ok((r2, j)) => Ok(((r1, r2), j)),
            Err(e) => Err(e),
        },
        Err(e) => Err(e),
    }
}

/// Three comma-separated registers.
pub open spec fn spec_three_regs(s: Seq<char>, i: int) -> Option<
    ((Register, Register, Register), int),
> {
    match spec_reg_comma(s, i) {
        Some((r1, p)) => match spec_reg_comma(s, p) {
            Some((r2, q)) => match spec_parse_register(s, q) {
                Some((r3, j)) => Some(((r1, r2, r3), j)),
                None => None,
            },
            None => None,
        },
        None => None,
    }
}

fn three_regs(s: &str, i: usize) -> (r: Result<((Register, Register, Register), usize),
    ParseError>)
    requires
        i <= s@.len(),
    ensures
        match spec_three_regs(s@, i as int) {
            Some((v, j)) => r matches Ok(p) && p.0 == v && p.1 == j && i <= j <= s@.len(),
            None => r is Err,
        },
        r matches Err(e) ==> (e is ArityMismatch <==> spec_three_regs_err_arity(s@, i as int))
            && (e is MalformedOperand <==> !spec_three_regs_err_arity(s@, i as int)),
{
    match reg_comma(s, i) {
        Ok((r1, p)) => match reg_comma(s, p) {
            Ok((r2, q)) => match parse_register(s, q) {
                Ok((r3, j)) => Ok(((r1, r2, r3), j)),
                Err(e) => Err(e),
            },
            Err(e) => Err(e),
        },
        Err(e) => Err(e),
    }
}

/// A register, a comma, and a label.
pub open spec fn spec_reg_and_label(s: Seq<char>, i: int) -> Option<
    ((Register, Seq<char>), int),
> {
    match spec_reg_comma(s, i) {
        Some((r1, p)) => match spec_parse_label(s, p) {
            Some((n, j)) => Some(((r1, n), j)),
            None => None,
        },
        None => None,
    }
}

fn reg_and_label(s: &str, i: usize) -> (r: Result<((Register, Label), usize), ParseError>)
    requires
        i <= s@.len(),
    ensures
        match spec_reg_and_label(s@, i as int) {
            Some((v, j)) => r matches Ok(p) && p.0.0 == v.0 && (p.0.1)@ == v.1 && p.1 == j && i
                <= j <= s@.len(),
            None => r is Err,
        },
        r matches Err(e) ==> (e is ArityMismatch <==> spec_one_reg_prefix_err_arity(s@, i as int))
            && (e is MalformedOperand <==> !spec_one_reg_prefix_err_arity(s@, i as int)),
{
    match reg_comma(s, i) {
        Ok((r1, p)) => match parse_label(s, p) {
            Ok((n, j)) => Ok(((r1, n), j)),
            Err(e) => Err(e),
        },
        Err(e) => Err(e),
    }
}

/// Two registers, commas between, then a label.
pub open spec fn spec_two_reg_and_label(s: Seq<char>, i: int) -> Option<
    ((Register, Register, Seq<char>), int),
> {
    match spec_reg_comma(s, i) {
        Some((r1, p)) => match spec_reg_comma(s, p) {
            Some((r2, q)) => match spec_parse_label(s, q) {
                Some((n, j)) => Some(((r1, r2, n), j)),
                None => None,
            },
            None => None,
        },
        None => None,
    }
}

fn two_reg_and_label(s: &str, i: usize) -> (r: Result<((Register, Register, Label), usize),
    ParseError>)
    requires
        i <= s@.len(),
    ensures
        match spec_two_reg_and_label(s@, i as int) {
            Some((v, j)) => r matches Ok(p) && p.0.0 == v.0 && p.0.1 == v.1 && (p.0.2)@ == v.2
                && p.1 == j && i <= j <= s@.len(),
            None => r is Err,
        },
        r matches Err(e) ==> (e is ArityMismatch <==> spec_two_reg_prefix_err_arity(s@, i as int))
            && (e is MalformedOperand <==> !spec_two_reg_prefix_err_arity(s@, i as int)),
{
    match reg_comma(s, i) {
        Ok((r1, p)) => match reg_comma(s, p) {
            Ok((r2, q)) => match parse_label(s, q) {
                Ok((n, j)) => Ok(((r1, r2, n), j)),
                Err(e) => Err(e),
            },
            Err(e) => Err(e),
        },
        Err(e) => Err(e),
    }
}

/// A register, a comma, and a string-or-type operand.
pub open spec fn spec_reg_and_sot(s: Seq<char>, i: int) -> Option<
    ((Register, SpecStringOrTypeSig), int),
> {
    match spec_reg_comma(s, i) {
        Some((r1, p)) => match spec_parse_string_or_ts(s, p) {
            Some((v, j)) => Some(((r1, v), j)),
            None => None,
        },
        None => None,
    }
}

fn reg_and_sot(s: &str, i: usize) -> (r: Result<((Register, StringOrTypeSig), usize),
    ParseError>)
    requires
        i <= s@.len(),
    ensures
        match spec_reg_and_sot(s@, i as int) {
            Some((v, j)) => r matches Ok(p) && p.0.0 == v.0 && (p.0.1)@ == v.1 && p.1 == j && i
                <= j <= s@.len(),
            None => r is Err,
        },
        r matches Err(e) ==> (e is ArityMismatch <==> spec_one_reg_prefix_err_arity(s@, i as int))
            && (e is MalformedOperand <==> !spec_one_reg_prefix_err_arity(s@, i as int)),
{
    match reg_comma(s, i) {
        Ok((r1, p)) => match parse_string_or_ts(s, p) {
            Ok((v, j)) => Ok(((r1, v), j)),
            Err(e) => Err(e),
        },
        Err(e) => Err(e),
    }
}

/// Two registers, commas between, then a string-or-type operand.
pub open spec fn spec_two_reg_and_sot(s: Seq<char>, i: int) -> Option<
    ((Register, Register, SpecStringOrTypeSig), int),
> {
    match spec_reg_comma(s, i) {
        Some((r1, p)) => match spec_reg_comma(s, p) {
            Some((r2, q)) => match spec_parse_string_or_ts(s, q) {
                Some((v, j)) => Some(((r1, r2, v), j)),
                None => None,
            },
            None => None,
        },
        None => None,
    }
}

fn two_reg_and_sot(s: &str, i: usize) -> (r: Result<
    ((Register, Register, StringOrTypeSig), usize),
    ParseError,
>)
    requires
        i <= s@.len(),
    ensures
        match spec_two_reg_and_sot(s@, i as int) {
            Some((v, j)) => r matches Ok(p) && p.0.0 == v.0 && p.0.1 == v.1 && (p.0.2)@ == v.2
                && p.1 == j && i <= j <= s@.len(),
            None => r is Err,
        },
        r matches Err(e) ==> (e is ArityMismatch <==> spec_two_reg_prefix_err_arity(s@, i as int))
            && (e is MalformedOperand <==> !spec_two_reg_prefix_err_arity(s@, i as int)),
{
    match reg_comma(s, i) {
        Ok((r1, p)) => match reg_comma(s, p) {
            Ok((r2, q)) => match parse_string_or_ts(s, q) {
                Ok((v, j)) => Ok(((r1, r2, v), j)),
                Err(e) => Err(e),
            },
            Err(e) => Err(e),
        },
        Err(e) => Err(e),
    }
}

/// A register, a comma, and a field reference.
pub open spec fn spec_reg_and_field(s: Seq<char>, i: int) -> Option<
    ((Register, SpecFieldRef), int),
> {
    match spec_reg_comma(s, i) {
        Some((r1, p)) => {
            let p2 = spec_skip_ws(s, p);
            if p <= p2 <= s.len() {
                match spec_parse_field_ref(s, p2) {
                    Some((f, j)) => Some(((r1, f), j)),
                    None => None,
                }
            } else {
                None
            }
        },
        None => None,
    }
}

fn reg_and_field(s: &str, i: usize) -> (r: Result<((Register, FieldRef), usize), ParseError>)
    requires
        i <= s@.len(),
    ensures
        match spec_reg_and_field(s@, i as int) {
            Some((v, j)) => r matches Ok(p) && p.0.0 == v.0 && (p.0.1)@ == v.1 && p.1 == j && i
                <= j <= s@.len(),
            None => r is Err,
        },
        r matches Err(e) ==> (e is ArityMismatch <==> spec_one_reg_prefix_err_arity(s@, i as int))
            && (e is MalformedOperand <==> !spec_one_reg_prefix_err_arity(s@, i as int)),
{
    match reg_comma(s, i) {
        Ok((r1, p)) => {
            let p2 = skip_ws(s, p);
            match parse_field_ref(s, p2) {
                Ok((f, j)) => Ok(((r1, f), j)),
                Err(e) => Err(e),
            }
        },
        Err(e) => Err(e),
    }
}

/// Two registers, commas between, then a field reference.
pub open spec fn spec_two_reg_and_field(s: Seq<char>, i: int) -> Option<
    ((Register, Register, SpecFieldRef), int),
> {
    match spec_reg_comma(s, i) {
        Some((r1, p)) => match spec_reg_comma(s, p) {
            Some((r2, q)) => {
                let q2 = spec_skip_ws(s, q);
                if q <= q2 <= s.len() {
                    match spec_parse_field_ref(s, q2) {
                        Some((f, j)) => Some(((r1, r2, f), j)),
                        None => None,
                    }
                } else {
                    None
                }
            },
            None => None,
        },
        None => None,
    }
}

fn two_reg_and_field(s: &str, i: usize) -> (r: Result<
    ((Register, Register, FieldRef), usize),
    ParseError,
>)
    requires
        i <= s@.len(),
    ensures
        match spec_two_reg_and_field(s@, i as int) {
            Some((v, j)) => r matches Ok(p) && p.0.0 == v.0 && p.0.1 == v.1 && (p.0.2)@ == v.2
                && p.1 == j && i <= j <= s@.len(),
            None => r is Err,
        },
        r matches Err(e) ==> (e is ArityMismatch <==> spec_two_reg_prefix_err_arity(s@, i as int))
            && (e is MalformedOperand <==> !spec_two_reg_prefix_err_arity(s@, i as int)),
{
    match reg_comma(s, i) {
        Ok((r1, p)) => match reg_comma(s, p) {
            Ok((r2, q)) => {
                let q2 = skip_ws(s, q);
                match parse_field_ref(s, q2) {
                    Ok((f, j)) => Ok(((r1, r2, f), j)),
                    Err(e) => Err(e),
                }
            },
            Err(e) => Err(e),
        },
        Err(e) => Err(e),
    }
}

/// A register, a comma, and the raw literal that follows: its mathematical
/// value and end position, before any width check.
pub open spec fn spec_reg_and_lit(s: Seq<char>, i: int) -> Option<((Register, int), int)> {
    match spec_reg_comma(s, i) {
        Some((r1, p)) => {
            let p2 = spec_skip_ws(s, p);
            if p <= p2 <= s.len() {
                match int_lit_value(s, p2) {
                    Some((val, j)) => Some(((r1, val), j)),
                    None => None,
                }
            } else {
                None
            }
        },
        None => None,
    }
}

/// Two registers, commas between, and the raw literal that follows.
pub open spec fn spec_two_reg_and_lit(s: Seq<char>, i: int) -> Option<
    ((Register, Register, int), int),
> {
    match spec_reg_comma(s, i) {
        Some((r1, p)) => match spec_reg_comma(s, p) {
            Some((r2, q)) => {
                let q2 = spec_skip_ws(s, q);
                if q <= q2 <= s.len() {
                    match int_lit_value(s, q2) {
                        Some((val, j)) => Some(((r1, r2, val), j)),
                        None => None,
                    }
                } else {
                    None
                }
            },
            None => None,
        },
        None => None,
    }
}

// ---------------------------------------------------------------------------
// The invocation forms.
// ---------------------------------------------------------------------------

/// Whether a failure of the brace-enclosed register list's items at `i`
/// is an arity mismatch.
pub open spec fn spec_reg_list_items_err_arity(s: Seq<char>, i: int) -> bool
    decreases s.len() - i,
{
    match spec_parse_register(s, i) {
        None => spec_register_err_arity(s, i),
        Some((r, j)) => if !(i < j <= s.len()) {
            false
        } else {
            match spec_comma(s, j) {
                Some(j2) => if !(j < j2) {
                    false
                } else {
                    match spec_reg_list_items(s, j2) {
                        None => spec_reg_list_items_err_arity(s, j2),
                        Some(_) => false,
                    }
                },
                None => false,
            }
        },
    }
}

/// Whether a failure of a brace-enclosed register list at `i` is an
/// arity mismatch: a missing brace is a malformed operand, the items
/// decide the rest.
pub open spec fn spec_reg_list_err_arity(s: Seq<char>, i: int) -> bool {
    let i0 = spec_skip_ws(s, i);
    if !(i <= i0) || i0 >= s.len() || s[i0] != '{' {
        false
    } else {
        let q = spec_skip_ws(s, i0 + 1);
        if i0 < q && q < s.len() && s[q] == '}' {
            false
        } else {
            match spec_reg_list_items(s, i0 + 1) {
                None => spec_reg_list_items_err_arity(s, i0 + 1),
                Some(_) => false,
            }
        }
    }
}

/// Whether a failure of a register range at `i` is an arity mismatch:
/// only its registers can report one, the delimiters are malformed
/// operands.
pub open spec fn spec_reg_range_err_arity(s: Seq<char>, i: int) -> bool {
    let i0 = spec_skip_ws(s, i);
    if !(i <= i0) || i0 >= s.len() || s[i0] != '{' {
        false
    } else {
        match spec_parse_register(s, i0 + 1) {
            None => spec_register_err_arity(s, i0 + 1),
            Some((start, j)) => {
                let j2 = spec_skip_ws(s, j);
                if !(j <= j2 && j2 + 2 <= s.len() && s[j2] == '.' && s[j2 + 1] == '.') {
                    false
                } else {
                    match spec_parse_register(s, j2 + 2) {
                        None => spec_register_err_arity(s, j2 + 2),
                        Some(_) => false,
                    }
                }
            },
        }
    }
}

/// A standard invocation: a register list, a comma, a method reference.
pub open spec fn spec_invoke_plain(s: Seq<char>, i: int, it: InvokeType) -> Option<
    (SpecDexOp, int),
> {
    match spec_parse_register_list(s, i) {
        Some((regs, p)) => match spec_comma(s, p) {
            Some(q) => match spec_parse_method_ref(s, q) {
                Some((m, j)) => Some(
                    (
                        SpecDexOp::Invoke {
                            invoke_type: it,
                            registers: regs,
                            range: None,
                            method: Some(m),
                            call_site: None,
                            proto: None,
                        },
                        j,
                    ),
                ),
                None => None,
            },
            None => None,
        },
        None => None,
    }
}

/// A range invocation: a register range, a comma, a method reference.
pub open spec fn spec_invoke_range_form(s: Seq<char>, i: int, it: InvokeType) -> Option<
    (SpecDexOp, int),
> {
    match spec_parse_register_range(s, i) {
        Some((rr, p)) => match spec_comma(s, p) {
            Some(q) => match spec_parse_method_ref(s, q) {
                Some((m, j)) => Some(
                    (
                        SpecDexOp::Invoke {
                            invoke_type: it,
                            registers: Seq::empty(),
                            range: Some(rr),
                            method: Some(m),
                            call_site: None,
                            proto: None,
                        },
                        j,
                    ),
                ),
                None => None,
            },
            None => None,
        },
        None => None,
    }
}

/// The prototype token after a polymorphic invocation's method reference:
/// a nonempty alphanumeric run after leading whitespace.
pub open spec fn spec_word(s: Seq<char>, i: int) -> Option<(Seq<char>, int)> {
    let i0 = spec_skip_ws(s, i);
    if i <= i0 <= s.len() {
        let e = spec_alnum_end(s, i0);
        if i0 < e <= s.len() {
            Some((s.subrange(i0, e), e))
        } else {
            None
        }
    } else {
        None
    }
}

fn word(s: &str, i: usize) -> (r: Result<(String, usize), ParseError>)
    requires
        i <= s@.len(),
    ensures
        match spec_word(s@, i as int) {
            Some((w, j)) => r matches Ok(p) && p.0@ == w && p.1 == j && i <= j <= s@.len(),
            None => r is Err,
        },
        r matches Err(e) ==> e is ArityMismatch,
{
    let i0 = skip_ws(s, i);
    let e = alnum_end(s, i0);
    if e > i0 {
        let w = s.substring_char(i0, e).to_owned();
        Ok((w, e))
    } else {
        Err(ParseError::ArityMismatch(i0))
    }
}

/// A polymorphic invocation: registers, the method, then a prototype.
pub open spec fn spec_invoke_poly(s: Seq<char>, i: int, it: InvokeType) -> Option<
    (SpecDexOp, int),
> {
    let first = if it.spec_is_range() {
        match spec_parse_register_range(s, i) {
            Some((rr, p)) => Some((Seq::<Register>::empty(), Some(rr), p)),
            None => None,
        }
    } else {
        match spec_parse_register_list(s, i) {
            Some((regs, p)) => Some((regs, None, p)),
            None => None,
        }
    };
    match first {
        Some((regs, rng, p)) => match spec_comma(s, p) {
            Some(q) => match spec_parse_method_ref(s, q) {
                Some((m, j)) => match spec_comma(s, j) {
                    Some(j2) => match spec_word(s, j2) {
                        Some((proto, k)) => Some(
                            (
                                SpecDexOp::Invoke {
                                    invoke_type: it,
                                    registers: regs,
                                    range: rng,
                                    method: Some(m),
                                    call_site: None,
                                    proto: Some(proto),
                                },
                                k,
                            ),
                        ),
                        None => None,
                    },
                    None => None,
                },
                None => None,
            },
            None => None,
        },
        None => None,
    }
}

/// A custom invocation: registers, then a call-site name.
pub open spec fn spec_invoke_custom(s: Seq<char>, i: int, it: InvokeType) -> Option<
    (SpecDexOp, int),
> {
    let first = if it.spec_is_range() {
        match spec_parse_register_range(s, i) {
            Some((rr, p)) => Some((Seq::<Register>::empty(), Some(rr), p)),
            None => None,
        }
    } else {
        match spec_parse_register_list(s, i) {
            Some((regs, p)) => Some((regs, None, p)),
            None => None,
        }
    };
    match first {
        Some((regs, rng, p)) => match spec_comma(s, p) {
            Some(q) => match spec_word(s, q) {
                Some((cs, k)) => Some(
                    (
                        SpecDexOp::Invoke {
                            invoke_type: it,
                            registers: regs,
                            range: rng,
                            method: None,
                            call_site: Some(cs),
                            proto: None,
                        },
                        k,
                    ),
                ),
                None => None,
            },
            None => None,
        },
        None => None,
    }
}

/// Whether a failure of an invocation's operands at `i` is an arity
/// mismatch: registers, commas and the trailing prototype or call-site
/// word can report one, a method reference cannot.
pub open spec fn spec_invoke_err_arity(s: Seq<char>, i: int, it: InvokeType) -> bool {
    let custom = it == InvokeType::Custom || it == InvokeType::CustomRange;
    let poly = it == InvokeType::Polymorphic || it == InvokeType::PolymorphicRange;
    let first = if it.spec_is_range() {
        match spec_parse_register_range(s, i) {
            None => None,
            Some((rr, p)) => Some(p),
        }
    } else {
        match spec_parse_register_list(s, i) {
            None => None,
            Some((regs, p)) => Some(p),
        }
    };
    match first {
        None => if it.spec_is_range() {
            spec_reg_range_err_arity(s, i)
        } else {
            spec_reg_list_err_arity(s, i)
        },
        Some(p) => match spec_comma(s, p) {
            None => true,
            Some(q) => if custom {
                true
            } else {
                match spec_parse_method_ref(s, q) {
                    None => false,
                    Some(_) => poly,
                }
            },
        },
    }
}

/// Dispatch an invocation mnemonic to its operand form.
pub open spec fn spec_invoke_dispatch(s: Seq<char>, i: int, it: InvokeType) -> Option<
    (SpecDexOp, int),
> {
    match it {
        InvokeType::Polymorphic | InvokeType::PolymorphicRange => spec_invoke_poly(s, i, it),
        InvokeType::Custom | InvokeType::CustomRange => spec_invoke_custom(s, i, it),
        _ => if it.spec_is_range() {
            spec_invoke_range_form(s, i, it)
        } else {
            spec_invoke_plain(s, i, it)
        },
    }
}

fn invoke_dispatch(s: &str, i: usize, it: InvokeType) -> (r: Result<(DexOp, usize),
    ParseError>)
    requires
        i <= s@.len(),
    ensures
        match spec_invoke_dispatch(s@, i as int, it) {
            Some((v, j)) => r matches Ok(p) && p.0@ == v && p.1 == j && i <= j <= s@.len(),
            None => r is Err,
        },
        r matches Err(e) ==> (e is ArityMismatch <==> spec_invoke_err_arity(s@, i as int, it))
            && (e is MalformedOperand <==> !spec_invoke_err_arity(s@, i as int, it)),
{
    let poly = match it {
        InvokeType::Polymorphic | InvokeType::PolymorphicRange => true,
        _ => false,
    };
    let custom = match it {
        InvokeType::Custom | InvokeType::CustomRange => true,
        _ => false,
    };
    if poly || custom {
        let ranged = it.is_range();
        let first: Result<(Vec<Register>, Option<RegisterRange>, usize), ParseError> = if ranged
             {
            match parse_register_range(s, i) {
                Ok((rr, p)) => Ok((Vec::new(), Some(rr), p)),
                Err(e) => Err(e),
            }
        } else {
            match parse_register_list(s, i) {
                Ok((regs, p)) => Ok((regs, None, p)),
                Err(e) => Err(e),
            }
        };
        match first {
            Ok((regs, rng, p)) => match comma(s, p) {
                Ok(q) => {
                    if custom {
                        match word(s, q) {
                            Ok((cs, k)) => Ok(
                                (
                                    DexOp::Invoke {
                                        invoke_type: it,
                                        registers: regs,
                                        range: rng,
                                        method: None,
                                        call_site: Some(cs),
                                        proto: None,
                                    },
                                    k,
                                ),
                            ),
                            Err(e) => Err(e),
                        }
                    } else {
                        match parse_method_ref(s, q) {
                            Ok((m, j)) => match comma(s, j) {
                                Ok(j2) => match word(s, j2) {
                                    Ok((proto, k)) => Ok(
                                        (
                                            DexOp::Invoke {
                                                invoke_type: it,
                                                registers: regs,
                                                range: rng,
                                                method: Some(Box::new(m)),
                                                call_site: None,
                                                proto: Some(proto),
                                            },
                                            k,
                                        ),
                                    ),
                                    Err(e) => Err(e),
                                },
                                Err(e) => Err(e),
                            },
                            Err(e) => Err(e),
                        }
                    }
                },
                Err(e) => Err(e),
            },
            Err(e) => Err(e),
        }
    } else if it.is_range() {
        match parse_register_range(s, i) {
            Ok((rr, p)) => match comma(s, p) {
                Ok(q) => match parse_method_ref(s, q) {
                    Ok((m, j)) => Ok(
                        (
                            DexOp::Invoke {
                                invoke_type: it,
                                registers: Vec::new(),
                                range: Some(rr),
                                method: Some(Box::new(m)),
                                call_site: None,
                                proto: None,
                            },
                            j,
                        ),
                    ),
                    Err(e) => Err(e),
                },
                Err(e) => Err(e),
            },
            Err(e) => Err(e),
        }
    } else {
        match parse_register_list(s, i) {
            Ok((regs, p)) => match comma(s, p) {
                Ok(q) => match parse_method_ref(s, q) {
                    Ok((m, j)) => Ok(
                        (
                            DexOp::Invoke {
                                invoke_type: it,
                                registers: regs,
                                range: None,
                                method: Some(Box::new(m)),
                                call_site: None,
                                proto: None,
                            },
                            j,
                        ),
                    ),
                    Err(e) => Err(e),
                },
                Err(e) => Err(e),
            },
            Err(e) => Err(e),
        }
    }
}

// ---------------------------------------------------------------------------
// The mnemonic dispatcher.
// ---------------------------------------------------------------------------

/// Whether a base-and-suffix pair denotes a shape of the split families,
/// in the order the dispatcher tries them: a base that matches a family
/// must be followed by a suffix that family accepts.
pub open spec fn spec_split_known(base: Seq<char>, sfx: Seq<char>) -> bool {
    match ArithUnaryType::spec_of_mnemonic(base) {
        Some(_) => ArithOperandType::spec_of_mnemonic(sfx) is Some,
        None => match ArithType::spec_of_mnemonic(base) {
            Some(_) => ArithOperandType::spec_of_mnemonic(sfx) is Some
                || ArithOperand2AddrType::spec_of_mnemonic(sfx) is Some,
            None => match ArrayAccessType::spec_of_mnemonic(base) {
                Some(_) => ArrayValueType::spec_of_mnemonic(sfx) is Some,
                None => match DynamicFieldAccessType::spec_of_mnemonic(base) {
                    Some(_) => FieldValueType::spec_of_mnemonic(sfx) is Some,
                    None => match StaticFieldAccessType::spec_of_mnemonic(base) {
                        Some(_) => FieldValueType::spec_of_mnemonic(sfx) is Some,
                        None => false,
                    },
                },
            },
        },
    }
}

/// Whether a token denotes a shape through one of the mnemonic families
/// or the base-and-suffix split.
pub open spec fn spec_families_known(tok: Seq<char>) -> bool {
    ||| InvokeType::spec_of_mnemonic(tok) is Some
    ||| ConstType::spec_of_mnemonic(tok) is Some
    ||| TwoRegMoveType::spec_of_mnemonic(tok) is Some
    ||| OneRegMoveType::spec_of_mnemonic(tok) is Some
    ||| ReturnType::spec_of_mnemonic(tok) is Some
    ||| ConditionType::spec_of_mnemonic(tok) is Some
    ||| TwoRegConditionType::spec_of_mnemonic(tok) is Some
    ||| GotoType::spec_of_mnemonic(tok) is Some
    ||| ConstLiteralType::spec_of_mnemonic(tok) is Some
    ||| LitArithType8::spec_of_mnemonic(tok) is Some
    ||| LitArithType16::spec_of_mnemonic(tok) is Some
    ||| ConvertType::spec_of_mnemonic(tok) is Some
    ||| CmpType::spec_of_mnemonic(tok) is Some
    ||| SwitchType::spec_of_mnemonic(tok) is Some
    ||| ({
        let d = spec_until_char(tok, 0, '-');
        &&& 0 <= d <= tok.len()
        &&& spec_split_known(
            tok.subrange(0, d),
            if d < tok.len() {
                tok.subrange(d + 1, tok.len() as int)
            } else {
                Seq::empty()
            },
        )
    })
}

/// Whether a token denotes any shape of the catalog: one of the exact
/// spellings, a family mnemonic, or a split base-and-suffix pair.
pub open spec fn spec_token_known(tok: Seq<char>) -> bool {
    ||| tok == "nop"@
    ||| tok == "monitor-enter"@
    ||| tok == "monitor-exit"@
    ||| tok == "check-cast"@
    ||| tok == "instance-of"@
    ||| tok == "array-length"@
    ||| tok == "new-instance"@
    ||| tok == "new-array"@
    ||| tok == "filled-new-array"@
    ||| tok == "filled-new-array/range"@
    ||| tok == "fill-array-data"@
    ||| tok == "throw"@
    ||| spec_families_known(tok)
}

/// Whether the text at `i` begins, after whitespace, with a nonempty
/// mnemonic token that denotes a shape of the catalog. Exactly when this
/// fails, parsing reports an unknown mnemonic.
pub open spec fn spec_dex_op_token_known(s: Seq<char>, i: int) -> bool {
    let i0 = spec_skip_ws(s, i);
    let e = spec_mnemonic_end(s, i0);
    &&& 0 <= i <= i0 <= s.len()
    &&& i0 < e <= s.len()
    &&& spec_token_known(s.subrange(i0, e))
}

/// Whether a failure of a split-family shape's operands at `e` is an
/// arity mismatch, by the family the base and suffix select.
pub open spec fn spec_split_err_arity(s: Seq<char>, base: Seq<char>, sfx: Seq<char>, e: int)
    -> bool {
    match ArithUnaryType::spec_of_mnemonic(base) {
        Some(_) => if ArithOperandType::spec_of_mnemonic(sfx) is Some {
            spec_two_regs_err_arity(s, e)
        } else {
            false
        },
        None => match ArithType::spec_of_mnemonic(base) {
            Some(_) => if ArithOperandType::spec_of_mnemonic(sfx) is Some {
                spec_three_regs_err_arity(s, e)
            } else if ArithOperand2AddrType::spec_of_mnemonic(sfx) is Some {
                spec_two_regs_err_arity(s, e)
            } else {
                false
            },
            None => match ArrayAccessType::spec_of_mnemonic(base) {
                Some(_) => if ArrayValueType::spec_of_mnemonic(sfx) is Some {
                    spec_three_regs_err_arity(s, e)
                } else {
                    false
                },
                None => match DynamicFieldAccessType::spec_of_mnemonic(base) {
                    Some(_) => if FieldValueType::spec_of_mnemonic(sfx) is Some {
                        spec_two_reg_prefix_err_arity(s, e)
                    } else {
                        false
                    },
                    None => match StaticFieldAccessType::spec_of_mnemonic(base) {
                        Some(_) => if FieldValueType::spec_of_mnemonic(sfx) is Some {
                            spec_one_reg_prefix_err_arity(s, e)
                        } else {
                            false
                        },
                        None => false,
                    },
                },
            },
        },
    }
}

/// Whether a failure after a family mnemonic at `e` is an arity mismatch,
/// by the family the token selects, in the order the dispatcher tries
/// them.
pub open spec fn spec_families_err_arity(s: Seq<char>, tok: Seq<char>, e: int) -> bool {
    match InvokeType::spec_of_mnemonic(tok) {
        Some(it) => spec_invoke_err_arity(s, e, it),
        None => match ConstType::spec_of_mnemonic(tok) {
            Some(_) => spec_one_reg_prefix_err_arity(s, e),
            None => match TwoRegMoveType::spec_of_mnemonic(tok) {
                Some(_) => spec_two_regs_err_arity(s, e),
                None => match OneRegMoveType::spec_of_mnemonic(tok) {
                    Some(_) => spec_register_err_arity(s, e),
                    None => match ReturnType::spec_of_mnemonic(tok) {
                        Some(rt) => if rt == ReturnType::Void {
                            false
                        } else {
                            spec_register_err_arity(s, e)
                        },
                        None => match ConditionType::spec_of_mnemonic(tok) {
                            Some(_) => spec_one_reg_prefix_err_arity(s, e),
                            None => match TwoRegConditionType::spec_of_mnemonic(tok) {
                                Some(_) => spec_two_reg_prefix_err_arity(s, e),
                                None => match GotoType::spec_of_mnemonic(tok) {
                                    Some(_) => false,
                                    None => match ConstLiteralType::spec_of_mnemonic(tok) {
                                        Some(_) => spec_one_reg_prefix_err_arity(s, e),
                                        None => match LitArithType8::spec_of_mnemonic(tok) {
                                            Some(_) => spec_two_reg_prefix_err_arity(s, e),
                                            None => match LitArithType16::spec_of_mnemonic(
                                                tok,
                                            ) {
                                                Some(_) => spec_two_reg_prefix_err_arity(
                                                    s,
                                                    e,
                                                ),
                                                None => match ConvertType::spec_of_mnemonic(
                                                    tok,
                                                ) {
                                                    Some(_) => spec_two_regs_err_arity(s, e),
                                                    None => match CmpType::spec_of_mnemonic(
                                                        tok,
                                                    ) {
                                                        Some(_) => spec_three_regs_err_arity(
                                                            s,
                                                            e,
                                                        ),
                                                        None => match
                                                            SwitchType::spec_of_mnemonic(tok) {
                                                            Some(_) =>
                                                                spec_one_reg_prefix_err_arity(
                                                                s,
                                                                e,
                                                            ),
                                                            None => {
                                                                let d = spec_until_char(
                                                                    tok,
                                                                    0,
                                                                    '-',
                                                                );
                                                                if 0 <= d <= tok.len() {
                                                                    spec_split_err_arity(
                                                                        s,
                                                                        tok.subrange(0, d),
                                                                        if d < tok.len() {
                                                                            tok.subrange(
                                                                                d + 1,
                                                                                tok.len() as int,
                                                                            )
                                                                        } else {
                                                                            Seq::empty()
                                                                        },
                                                                        e,
                                                                    )
                                                                } else {
                                                                    false
                                                                }
                                                            },
                                                        },
                                                    },
                                                },
                                            },
                                        },
                                    },
                                },
                            },
                        },
                    },
                },
            },
        },
    }
}

/// Whether a failure after an extracted token at `e` is an arity
/// mismatch, over the exact spellings and then the families.
pub open spec fn spec_token_err_arity(s: Seq<char>, tok: Seq<char>, e: int) -> bool {
    if tok == "nop"@ {
        false
    } else if tok == "monitor-enter"@ {
        spec_register_err_arity(s, e)
    } else if tok == "monitor-exit"@ {
        spec_register_err_arity(s, e)
    } else if tok == "check-cast"@ {
        spec_one_reg_prefix_err_arity(s, e)
    } else if tok == "instance-of"@ {
        spec_two_reg_prefix_err_arity(s, e)
    } else if tok == "array-length"@ {
        spec_two_regs_err_arity(s, e)
    } else if tok == "new-instance"@ {
        spec_one_reg_prefix_err_arity(s, e)
    } else if tok == "new-array"@ {
        spec_two_reg_prefix_err_arity(s, e)
    } else if tok == "filled-new-array"@ {
        match spec_parse_register_list(s, e) {
            None => spec_reg_list_err_arity(s, e),
            Some((regs, p)) => spec_comma(s, p) is None,
        }
    } else if tok == "filled-new-array/range"@ {
        match spec_parse_register_range(s, e) {
            None => spec_reg_range_err_arity(s, e),
            Some((rr, p)) => spec_comma(s, p) is None,
        }
    } else if tok == "fill-array-data"@ {
        spec_one_reg_prefix_err_arity(s, e)
    } else if tok == "throw"@ {
        spec_register_err_arity(s, e)
    } else {
        spec_families_err_arity(s, tok, e)
    }
}

/// Whether a failure of the whole instruction grammar at `i` is an arity
/// mismatch: an empty or unknown token never is.
pub open spec fn spec_dex_op_err_arity(s: Seq<char>, i: int) -> bool {
    let i0 = spec_skip_ws(s, i);
    let e = spec_mnemonic_end(s, i0);
    if 0 <= i <= i0 <= s.len() && i0 < e <= s.len() {
        spec_token_err_arity(s, s.subrange(i0, e), e)
    } else {
        false
    }
}

/// Dispatch on a mnemonic split at its first `-` into a base operation and
/// a suffix: the unary and binary arithmetic, array-access and field-access
/// families.
pub open spec fn spec_dex_op_split(
    s: Seq<char>,
    base: Seq<char>,
    sfx: Seq<char>,
    e: int,
) -> Option<(SpecDexOp, int)> {
    match ArithUnaryType::spec_of_mnemonic(base) {
        Some(at) => match ArithOperandType::spec_of_mnemonic(sfx) {
            Some(ot) => match spec_two_regs(s, e) {
                Some(((d, sr), j)) => Some(
                    (
                        SpecDexOp::ArithUnary {
                            arith_type: at,
                            operand_type: ot,
                            dest: d,
                            src: sr,
                        },
                        j,
                    ),
                ),
                None => None,
            },
            None => None,
        },
        None => match ArithType::spec_of_mnemonic(base) {
            Some(at) => match ArithOperandType::spec_of_mnemonic(sfx) {
                Some(ot) => match spec_three_regs(s, e) {
                    Some(((d, s1, s2), j)) => Some(
                        (
                            SpecDexOp::Arith {
                                arith_type: at,
                                operand_type: ot,
                                dest: d,
                                src1: s1,
                                src2: s2,
                            },
                            j,
                        ),
                    ),
                    None => None,
                },
                None => match ArithOperand2AddrType::spec_of_mnemonic(sfx) {
                    Some(ot) => match spec_two_regs(s, e) {
                        Some(((d, sr), j)) => Some(
                            (
                                SpecDexOp::Arith2Addr {
                                    arith_type: at,
                                    operand_type: ot,
                                    dest: d,
                                    src: sr,
                                },
                                j,
                            ),
                        ),
                        None => None,
                    },
                    None => None,
                },
            },
            None => match ArrayAccessType::spec_of_mnemonic(base) {
                Some(at) => match ArrayValueType::spec_of_mnemonic(sfx) {
                    Some(vt) => match spec_three_regs(s, e) {
                        Some(((rg, ar, ix), j)) => Some(
                            (
                                SpecDexOp::ArrayAccess {
                                    access_type: at,
                                    value_type: vt,
                                    reg: rg,
                                    arr: ar,
                                    idx: ix,
                                },
                                j,
                            ),
                        ),
                        None => None,
                    },
                    None => None,
                },
                None => match DynamicFieldAccessType::spec_of_mnemonic(base) {
                    Some(at) => match FieldValueType::spec_of_mnemonic(sfx) {
                        Some(vt) => match spec_two_reg_and_field(s, e) {
                            Some(((rg, ob, f), j)) => Some(
                                (
                                    SpecDexOp::DynamicFieldAccess {
                                        access_type: at,
                                        value_type: vt,
                                        reg: rg,
                                        object: ob,
                                        field: f,
                                    },
                                    j,
                                ),
                            ),
                            None => None,
                        },
                        None => None,
                    },
                    None => match StaticFieldAccessType::spec_of_mnemonic(base) {
                        Some(at) => match FieldValueType::spec_of_mnemonic(sfx) {
                            Some(vt) => match spec_reg_and_field(s, e) {
                                Some(((rg, f), j)) => Some(
                                    (
                                        SpecDexOp::StaticFieldAccess {
                                            access_type: at,
                                            value_type: vt,
                                            reg: rg,
                                            field: f,
                                        },
                                        j,
                                    ),
                                ),
                                None => None,
                            },
                            None => None,
                        },
                        None => None,
                    },
                },
            },
        },
    }
}

/// Dispatch a constant-loading mnemonic to its literal width and, for the
/// `high16` forms, apply the store-shifted transform.
pub open spec fn spec_const_literal_dispatch(
    s: Seq<char>,
    clt: ConstLiteralType,
    e: int,
) -> Option<(SpecDexOp, int)> {
    match spec_reg_and_lit(s, e) {
        Some(((d, val), j)) => {
            let v = match clt {
                ConstLiteralType::Const4 => if -128 <= val <= 127 {
                    Some(ConstLiteralValue::Const4(val as i8))
                } else {
                    None
                },
                ConstLiteralType::Const16 => if -0x8000 <= val <= 0x7fff {
                    Some(ConstLiteralValue::Const16(val as i16))
                } else {
                    None
                },
                ConstLiteralType::Const => if -0x8000_0000 <= val <= 0x7fff_ffff {
                    Some(ConstLiteralValue::Const(val as i32))
                } else {
                    None
                },
                ConstLiteralType::ConstHigh16 => if -0x8000_0000 <= val <= 0x7fff_ffff {
                    Some(ConstLiteralValue::ConstHigh16(((val as i32) >> 16) as i64))
                } else {
                    None
                },
                ConstLiteralType::ConstWide16 => if -0x8000 <= val <= 0x7fff {
                    Some(ConstLiteralValue::ConstWide16(val as i16))
                } else {
                    None
                },
                ConstLiteralType::ConstWide32 => if -0x8000_0000 <= val <= 0x7fff_ffff {
                    Some(ConstLiteralValue::ConstWide32(val as i32))
                } else {
                    None
                },
                ConstLiteralType::ConstWide => if i64::MIN <= val <= i64::MAX {
                    Some(ConstLiteralValue::ConstWide(val as i64))
                } else {
                    None
                },
                ConstLiteralType::ConstWideHigh16 => if i64::MIN <= val <= i64::MAX {
                    Some(ConstLiteralValue::ConstWideHigh16((val as i64) >> 48))
                } else {
                    None
                },
            };
            match v {
                Some(value) => Some(
                    (SpecDexOp::ConstLiteral { const_type: clt, dest: d, value }, j),
                ),
                None => None,
            }
        },
        None => None,
    }
}

/// Dispatch an extracted mnemonic token: first the shapes looked up by
/// their exact spelling, then the mnemonic families, then the split
/// base-and-suffix families.
pub open spec fn spec_dex_op_with_token(s: Seq<char>, tok: Seq<char>, e: int) -> Option<
    (SpecDexOp, int),
> {
    if tok == "nop"@ {
        Some((SpecDexOp::Nop, e))
    } else if tok == "monitor-enter"@ {
        match spec_parse_register(s, e) {
            Some((r1, j)) => Some((SpecDexOp::MonitorEnter { src: r1 }, j)),
            None => None,
        }
    } else if tok == "monitor-exit"@ {
        match spec_parse_register(s, e) {
            Some((r1, j)) => Some((SpecDexOp::MonitorExit { src: r1 }, j)),
            None => None,
        }
    } else if tok == "check-cast"@ {
        match spec_reg_and_sot(s, e) {
            Some(((d, cl), j)) => Some((SpecDexOp::CheckCast { dest: d, class: cl }, j)),
            None => None,
        }
    } else if tok == "instance-of"@ {
        match spec_two_reg_and_sot(s, e) {
            Some(((d, sr, cl), j)) => Some(
                (SpecDexOp::InstanceOf { dest: d, src: sr, class: cl }, j),
            ),
            None => None,
        }
    } else if tok == "array-length"@ {
        match spec_two_regs(s, e) {
            Some(((d, a), j)) => Some((SpecDexOp::ArrayLength { dest: d, array: a }, j)),
            None => None,
        }
    } else if tok == "new-instance"@ {
        match spec_reg_and_sot(s, e) {
            Some(((d, cl), j)) => Some((SpecDexOp::NewInstance { dest: d, class: cl }, j)),
            None => None,
        }
    } else if tok == "new-array"@ {
        match spec_two_reg_and_sot(s, e) {
            Some(((d, sz, cl), j)) => Some(
                (SpecDexOp::NewArray { dest: d, size_reg: sz, class: cl }, j),
            ),
            None => None,
        }
    } else if tok == "filled-new-array"@ {
        match spec_parse_register_list(s, e) {
            Some((regs, p)) => match spec_comma(s, p) {
                Some(q) => match spec_parse_typesignature(s, q) {
                    Some((t, j)) => Some(
                        (
                            SpecDexOp::FilledNewArray {
                                registers: regs,
                                class: SpecStringOrTypeSig::TypeSig(t),
                            },
                            j,
                        ),
                    ),
                    None => None,
                },
                None => None,
            },
            None => None,
        }
    } else if tok == "filled-new-array/range"@ {
        match spec_parse_register_range(s, e) {
            Some((rr, p)) => match spec_comma(s, p) {
                Some(q) => match spec_parse_typesignature(s, q) {
                    Some((t, j)) => Some(
                        (
                            SpecDexOp::FilledNewArrayRange {
                                registers: rr,
                                class: SpecStringOrTypeSig::TypeSig(t),
                            },
                            j,
                        ),
                    ),
                    None => None,
                },
                None => None,
            },
            None => None,
        }
    } else if tok == "fill-array-data"@ {
        match spec_reg_and_label(s, e) {
            Some(((rg, n), j)) => Some((SpecDexOp::FillArrayData { reg: rg, offset: n }, j)),
            None => None,
        }
    } else if tok == "throw"@ {
        match spec_parse_register(s, e) {
            Some((r1, j)) => Some((SpecDexOp::Throw { src: r1 }, j)),
            None => None,
        }
    } else {
        spec_dex_op_families(s, tok, e)
    }
}

/// Dispatch a token through the mnemonic families, in the order the
/// grammar tries them.
pub open spec fn spec_dex_op_families(s: Seq<char>, tok: Seq<char>, e: int) -> Option<
    (SpecDexOp, int),
> {
    {
        match InvokeType::spec_of_mnemonic(tok) {
            Some(it) => spec_invoke_dispatch(s, e, it),
            None => match ConstType::spec_of_mnemonic(tok) {
                Some(ct) => match spec_reg_and_sot(s, e) {
                    Some(((d, v), j)) => Some(
                        (SpecDexOp::Const { const_type: ct, dest: d, value: v }, j),
                    ),
                    None => None,
                },
                None => match TwoRegMoveType::spec_of_mnemonic(tok) {
                    Some(mt) => match spec_two_regs(s, e) {
                        Some(((d, sr), j)) => Some(
                            (SpecDexOp::MoveTwoReg { move_type: mt, dest: d, src: sr }, j),
                        ),
                        None => None,
                    },
                    None => match OneRegMoveType::spec_of_mnemonic(tok) {
                        Some(mt) => match spec_parse_register(s, e) {
                            Some((d, j)) => Some(
                                (SpecDexOp::MoveOneReg { move_type: mt, dest: d }, j),
                            ),
                            None => None,
                        },
                        None => match ReturnType::spec_of_mnemonic(tok) {
                            Some(rt) => match rt {
                                ReturnType::Void => Some(
                                    (SpecDexOp::Return { return_type: rt, src: None }, e),
                                ),
                                _ => match spec_parse_register(s, e) {
                                    Some((r1, j)) => Some(
                                        (
                                            SpecDexOp::Return {
                                                return_type: rt,
                                                src: Some(r1),
                                            },
                                            j,
                                        ),
                                    ),
                                    None => None,
                                },
                            },
                            None => match ConditionType::spec_of_mnemonic(tok) {
                                Some(ct) => match spec_reg_and_label(s, e) {
                                    Some(((r1, n), j)) => Some(
                                        (
                                            SpecDexOp::Condition {
                                                cond_type: ct,
                                                reg1: r1,
                                                offset: n,
                                            },
                                            j,
                                        ),
                                    ),
                                    None => None,
                                },
                                None => match TwoRegConditionType::spec_of_mnemonic(tok) {
                                    Some(ct) => match spec_two_reg_and_label(s, e) {
                                        Some(((r1, r2, n), j)) => Some(
                                            (
                                                SpecDexOp::TwoRegCondition {
                                                    cond_type: ct,
                                                    reg1: r1,
                                                    reg2: r2,
                                                    offset: n,
                                                },
                                                j,
                                            ),
                                        ),
                                        None => None,
                                    },
                                    None => match GotoType::spec_of_mnemonic(tok) {
                                        Some(gt) => match spec_parse_label(s, e) {
                                            Some((n, j)) => Some(
                                                (
                                                    SpecDexOp::Goto {
                                                        goto_type: gt,
                                                        offset: n,
                                                    },
                                                    j,
                                                ),
                                            ),
                                            None => None,
                                        },
                                        None => match ConstLiteralType::spec_of_mnemonic(tok) {
                                            Some(clt) => spec_const_literal_dispatch(s, clt, e),
                                            None => match LitArithType8::spec_of_mnemonic(tok) {
                                                Some(at) => match spec_two_reg_and_lit(s, e) {
                                                    Some(((d, sr, val), j)) => if -128 <= val
                                                        <= 127 {
                                                        Some(
                                                            (
                                                                SpecDexOp::LitArith8 {
                                                                    arith_type: at,
                                                                    dest: d,
                                                                    src: sr,
                                                                    literal: val as i8,
                                                                },
                                                                j,
                                                            ),
                                                        )
                                                    } else {
                                                        None
                                                    },
                                                    None => None,
                                                },
                                                None => match LitArithType16::spec_of_mnemonic(
                                                    tok,
                                                ) {
                                                    Some(at) => match spec_two_reg_and_lit(
                                                        s,
                                                        e,
                                                    ) {
                                                        Some(((d, sr, val), j)) => if -0x8000
                                                            <= val <= 0x7fff {
                                                            Some(
                                                                (
                                                                    SpecDexOp::LitArith16 {
                                                                        arith_type: at,
                                                                        dest: d,
                                                                        src: sr,
                                                                        literal: val as i16,
                                                                    },
                                                                    j,
                                                                ),
                                                            )
                                                        } else {
                                                            None
                                                        },
                                                        None => None,
                                                    },
                                                    None => match ConvertType::spec_of_mnemonic(
                                                        tok,
                                                    ) {
                                                        Some(cv) => match spec_two_regs(s, e) {
                                                            Some(((d, sr), j)) => Some(
                                                                (
                                                                    SpecDexOp::Convert {
                                                                        convert_type: cv,
                                                                        dest: d,
                                                                        src: sr,
                                                                    },
                                                                    j,
                                                                ),
                                                            ),
                                                            None => None,
                                                        },
                                                        None => match CmpType::spec_of_mnemonic(
                                                            tok,
                                                        ) {
                                                            Some(cm) => match spec_three_regs(
                                                                s,
                                                                e,
                                                            ) {
                                                                Some(((d, s1, s2), j)) => Some(
                                                                    (
                                                                        SpecDexOp::Cmp {
                                                                            cmp_type: cm,
                                                                            dest: d,
                                                                            src1: s1,
                                                                            src2: s2,
                                                                        },
                                                                        j,
                                                                    ),
                                                                ),
                                                                None => None,
                                                            },
                                                            None => match
                                                                SwitchType::spec_of_mnemonic(
                                                                tok,
                                                            ) {
                                                                Some(st) => match
                                                                    spec_reg_and_label(s, e) {
                                                                    Some(((rg, n), j)) => Some(
                                                                        (
                                                                            SpecDexOp::Switch {
                                                                                switch_type: st,
                                                                                reg: rg,
                                                                                offset: n,
                                                                            },
                                                                            j,
                                                                        ),
                                                                    ),
                                                                    None => None,
                                                                },
                                                                None => {
                                                                    let d = spec_until_char(
                                                                        tok,
                                                                        0,
                                                                        '-',
                                                                    );
                                                                    if 0 <= d <= tok.len() {
                                                                        spec_dex_op_split(
                                                                            s,
                                                                            tok.subrange(0, d),
                                                                            if d < tok.len() {
                                                                                tok.subrange(
                                                                                    d + 1,
                                                                                    tok.len() as int,
                                                                                )
                                                                            } else {
                                                                                Seq::empty()
                                                                            },
                                                                            e,
                                                                        )
                                                                    } else {
                                                                        None
                                                                    }
                                                                },
                                                            },
                                                        },
                                                    },
                                                },
                                            },
                                        },
                                    },
                                },
                            },
                        },
                    },
                },
            },
        }
    }
}

/// The instruction grammar at `i`, after leading whitespace: a mnemonic
/// token, then the operands its shape requires.
pub open spec fn spec_parse_dex_op(s: Seq<char>, i: int) -> Option<(SpecDexOp, int)> {
    let i0 = spec_skip_ws(s, i);
    if !(0 <= i <= i0 <= s.len()) {
        None
    } else {
        let e = spec_mnemonic_end(s, i0);
        if i0 < e <= s.len() {
            spec_dex_op_with_token(s, s.subrange(i0, e), e)
        } else {
            None
        }
    }
}

fn const_literal_dispatch(s: &str, clt: ConstLiteralType, e: usize) -> (r: Result<
    (DexOp, usize),
    ParseError,
>)
    requires
        e <= s@.len(),
    ensures
        match spec_const_literal_dispatch(s@, clt, e as int) {
            Some((v, j)) => r matches Ok(p) && p.0@ == v && p.1 == j && e <= j <= s@.len(),
            None => r is Err,
        },
        r matches Err(e) ==> !(e is UnknownMnemonic),
        r matches Err(e2) ==> (e2 is ArityMismatch <==> spec_one_reg_prefix_err_arity(
            s@,
            e as int,
        )),
{
    match reg_comma(s, e) {
        Ok((d, p)) => {
            let p2 = skip_ws(s, p);
            match clt {
                ConstLiteralType::Const4 => match parse_int_lit_i8(s, p2) {
                    Ok((v, j)) => Ok(
                        (
                            DexOp::ConstLiteral {
                                const_type: clt,
                                dest: d,
                                value: ConstLiteralValue::Const4(v),
                            },
                            j,
                        ),
                    ),
                    Err(er) => Err(er),
                },
                ConstLiteralType::Const16 => match parse_int_lit_i16(s, p2) {
                    Ok((v, j)) => Ok(
                        (
                            DexOp::ConstLiteral {
                                const_type: clt,
                                dest: d,
                                value: ConstLiteralValue::Const16(v),
                            },
                            j,
                        ),
                    ),
                    Err(er) => Err(er),
                },
                ConstLiteralType::Const => match parse_int_lit_i32(s, p2) {
                    Ok((v, j)) => Ok(
                        (
                            DexOp::ConstLiteral {
                                const_type: clt,
                                dest: d,
                                value: ConstLiteralValue::Const(v),
                            },
                            j,
                        ),
                    ),
                    Err(er) => Err(er),
                },
                ConstLiteralType::ConstHigh16 => match parse_int_lit_i32(s, p2) {
                    Ok((v, j)) => Ok(
                        (
                            DexOp::ConstLiteral {
                                const_type: clt,
                                dest: d,
                                value: ConstLiteralValue::ConstHigh16((v >> 16) as i64),
                            },
                            j,
                        ),
                    ),
                    Err(er) => Err(er),
                },
                ConstLiteralType::ConstWide16 => match parse_int_lit_i16(s, p2) {
                    Ok((v, j)) => Ok(
                        (
                            DexOp::ConstLiteral {
                                const_type: clt,
                                dest: d,
                                value: ConstLiteralValue::ConstWide16(v),
                            },
                            j,
                        ),
                    ),
                    Err(er) => Err(er),
                },
                ConstLiteralType::ConstWide32 => match parse_int_lit_i32(s, p2) {
                    Ok((v, j)) => Ok(
                        (
                            DexOp::ConstLiteral {
                                const_type: clt,
                                dest: d,
                                value: ConstLiteralValue::ConstWide32(v),
                            },
                            j,
                        ),
                    ),
                    Err(er) => Err(er),
                },
                ConstLiteralType::ConstWide => match parse_int_lit_i64(s, p2) {
                    Ok((v, j)) => Ok(
                        (
                            DexOp::ConstLiteral {
                                const_type: clt,
                                dest: d,
                                value: ConstLiteralValue::ConstWide(v),
                            },
                            j,
                        ),
                    ),
                    Err(er) => Err(er),
                },
                ConstLiteralType::ConstWideHigh16 => match parse_int_lit_i64(s, p2) {
                    Ok((v, j)) => Ok(
                        (
                            DexOp::ConstLiteral {
                                const_type: clt,
                                dest: d,
                                value: ConstLiteralValue::ConstWideHigh16(v >> 48),
                            },
                            j,
                        ),
                    ),
                    Err(er) => Err(er),
                },
            }
        },
        Err(er) => Err(er),
    }
}

fn dex_op_split(s: &str, base: &str, sfx: &str, e: usize) -> (r: Result<(DexOp, usize),
    ParseError>)
    requires
        e <= s@.len(),
    ensures
        match spec_dex_op_split(s@, base@, sfx@, e as int) {
            Some((v, j)) => r matches Ok(p) && p.0@ == v && p.1 == j && e <= j <= s@.len(),
            None => r is Err,
        },
        r matches Err(er) ==> (er is UnknownMnemonic <==> !spec_split_known(base@, sfx@)),
        r matches Err(er) ==> (er is ArityMismatch <==> spec_split_err_arity(
            s@,
            base@,
            sfx@,
            e as int,
        )),
{
    match ArithUnaryType::from_mnemonic(base) {
        Some(at) => match ArithOperandType::from_mnemonic(sfx) {
            Some(ot) => match two_regs(s, e) {
                Ok(((d, sr), j)) => Ok(
                    (
                        DexOp::ArithUnary {
                            arith_type: at,
                            operand_type: ot,
                            dest: d,
                            src: sr,
                        },
                        j,
                    ),
                ),
                Err(er) => Err(er),
            },
            None => Err(ParseError::UnknownMnemonic(e)),
        },
        None => match ArithType::from_mnemonic(base) {
            Some(at) => match ArithOperandType::from_mnemonic(sfx) {
                Some(ot) => match three_regs(s, e) {
                    Ok(((d, s1, s2), j)) => Ok(
                        (
                            DexOp::Arith {
                                arith_type: at,
                                operand_type: ot,
                                dest: d,
                                src1: s1,
                                src2: s2,
                            },
                            j,
                        ),
                    ),
                    Err(er) => Err(er),
                },
                None => match ArithOperand2AddrType::from_mnemonic(sfx) {
                    Some(ot) => match two_regs(s, e) {
                        Ok(((d, sr), j)) => Ok(
                            (
                                DexOp::Arith2Addr {
                                    arith_type: at,
                                    operand_type: ot,
                                    dest: d,
                                    src: sr,
                                },
                                j,
                            ),
                        ),
                        Err(er) => Err(er),
                    },
                    None => Err(ParseError::UnknownMnemonic(e)),
                },
            },
            None => match ArrayAccessType::from_mnemonic(base) {
                Some(at) => match ArrayValueType::from_mnemonic(sfx) {
                    Some(vt) => match three_regs(s, e) {
                        Ok(((rg, ar, ix), j)) => Ok(
                            (
                                DexOp::ArrayAccess {
                                    access_type: at,
                                    value_type: vt,
                                    reg: rg,
                                    arr: ar,
                                    idx: ix,
                                },
                                j,
                            ),
                        ),
                        Err(er) => Err(er),
                    },
                    None => Err(ParseError::UnknownMnemonic(e)),
                },
                None => match DynamicFieldAccessType::from_mnemonic(base) {
                    Some(at) => match FieldValueType::from_mnemonic(sfx) {
                        Some(vt) => match two_reg_and_field(s, e) {
                            Ok(((rg, ob, f), j)) => Ok(
                                (
                                    DexOp::DynamicFieldAccess {
                                        access_type: at,
                                        value_type: vt,
                                        reg: rg,
                                        object: ob,
                                        field: f,
                                    },
                                    j,
                                ),
                            ),
                            Err(er) => Err(er),
                        },
                        None => Err(ParseError::UnknownMnemonic(e)),
                    },
                    None => match StaticFieldAccessType::from_mnemonic(base) {
                        Some(at) => match FieldValueType::from_mnemonic(sfx) {
                            Some(vt) => match reg_and_field(s, e) {
                                Ok(((rg, f), j)) => Ok(
                                    (
                                        DexOp::StaticFieldAccess {
                                            access_type: at,
                                            value_type: vt,
                                            reg: rg,
                                            field: f,
                                        },
                                        j,
                                    ),
                                ),
                                Err(er) => Err(er),
                            },
                            None => Err(ParseError::UnknownMnemonic(e)),
                        },
                        None => Err(ParseError::UnknownMnemonic(e)),
                    },
                },
            },
        },
    }
}

#[verifier::spinoff_prover]
#[verifier::rlimit(100)]
fn dex_op_with_token(s: &str, tok: &str, e: usize) -> (r: Result<(DexOp, usize), ParseError>)
    requires
        e <= s@.len(),
    ensures
        match spec_dex_op_with_token(s@, tok@, e as int) {
            Some((v, j)) => r matches Ok(p) && p.0@ == v && p.1 == j && e <= j <= s@.len(),
            None => r is Err,
        },
        r matches Err(er) ==> (er is UnknownMnemonic <==> !spec_token_known(tok@)),
        r matches Err(er) ==> (er is ArityMismatch <==> spec_token_err_arity(
            s@,
            tok@,
            e as int,
        )),
{
    if str_eq(tok, "nop") {
        return Ok((DexOp::Nop, e));
    }
    if str_eq(tok, "monitor-enter") {
        return match parse_register(s, e) {
            Ok((r1, j)) => Ok((DexOp::MonitorEnter { src: r1 }, j)),
            Err(er) => Err(er),
        };
    }
    if str_eq(tok, "monitor-exit") {
        return match parse_register(s, e) {
            Ok((r1, j)) => Ok((DexOp::MonitorExit { src: r1 }, j)),
            Err(er) => Err(er),
        };
    }
    if str_eq(tok, "check-cast") {
        return match reg_and_sot(s, e) {
            Ok(((d, cl), j)) => Ok((DexOp::CheckCast { dest: d, class: cl }, j)),
            Err(er) => Err(er),
        };
    }
    if str_eq(tok, "instance-of") {
        return match two_reg_and_sot(s, e) {
            Ok(((d, sr, cl), j)) => Ok((DexOp::InstanceOf { dest: d, src: sr, class: cl }, j)),
            Err(er) => Err(er),
        };
    }
    if str_eq(tok, "array-length") {
        return match two_regs(s, e) {
            Ok(((d, a), j)) => Ok((DexOp::ArrayLength { dest: d, array: a }, j)),
            Err(er) => Err(er),
        };
    }
    dex_op_exact_rest(s, tok, e)
}

/// The exact-spelling shapes the dispatcher tries after the first six,
/// and then the mnemonic families.
#[verifier::spinoff_prover]
#[verifier::rlimit(100)]
fn dex_op_exact_rest(s: &str, tok: &str, e: usize) -> (r: Result<(DexOp, usize), ParseError>)
    requires
        e <= s@.len(),
        tok@ != "nop"@,
        tok@ != "monitor-enter"@,
        tok@ != "monitor-exit"@,
        tok@ != "check-cast"@,
        tok@ != "instance-of"@,
        tok@ != "array-length"@,
    ensures
        match spec_dex_op_with_token(s@, tok@, e as int) {
            Some((v, j)) => r matches Ok(p) && p.0@ == v && p.1 == j && e <= j <= s@.len(),
            None => r is Err,
        },
        r matches Err(er) ==> (er is UnknownMnemonic <==> !spec_token_known(tok@)),
        r matches Err(er) ==> (er is ArityMismatch <==> spec_token_err_arity(
            s@,
            tok@,
            e as int,
        )),
{
    if str_eq(tok, "new-instance") {
        return match reg_and_sot(s, e) {
            Ok(((d, cl), j)) => Ok((DexOp::NewInstance { dest: d, class: cl }, j)),
            Err(er) => Err(er),
        };
    }
    if str_eq(tok, "new-array") {
        return match two_reg_and_sot(s, e) {
            Ok(((d, sz, cl), j)) => Ok((DexOp::NewArray { dest: d, size_reg: sz, class: cl },
                j)),
            Err(er) => Err(er),
        };
    }
    if str_eq(tok, "filled-new-array") {
        return match parse_register_list(s, e) {
            Ok((regs, p)) => match comma(s, p) {
                Ok(q) => match parse_typesignature(s, q) {
                    Ok((t, j)) => Ok(
                        (
                            DexOp::FilledNewArray {
                                registers: regs,
                                class: StringOrTypeSig::TypeSig(t),
                            },
                            j,
                        ),
                    ),
                    Err(er) => Err(er),
                },
                Err(er) => Err(er),
            },
            Err(er) => Err(er),
        };
    }
    if str_eq(tok, "filled-new-array/range") {
        return match parse_register_range(s, e) {
            Ok((rr, p)) => match comma(s, p) {
                Ok(q) => match parse_typesignature(s, q) {
                    Ok((t, j)) => Ok(
                        (
                            DexOp::FilledNewArrayRange {
                                registers: rr,
                                class: StringOrTypeSig::TypeSig(t),
                            },
                            j,
                        ),
                    ),
                    Err(er) => Err(er),
                },
                Err(er) => Err(er),
            },
            Err(er) => Err(er),
        };
    }
    if str_eq(tok, "fill-array-data") {
        return match reg_and_label(s, e) {
            Ok(((rg, n), j)) => Ok((DexOp::FillArrayData { reg: rg, offset: n }, j)),
            Err(er) => Err(er),
        };
    }
    if str_eq(tok, "throw") {
        return match parse_register(s, e) {
            Ok((r1, j)) => Ok((DexOp::Throw { src: r1 }, j)),
            Err(er) => Err(er),
        };
    }
    dex_op_families(s, tok, e)
}

fn dex_op_families(s: &str, tok: &str, e: usize) -> (r: Result<(DexOp, usize), ParseError>)
    requires
        e <= s@.len(),
    ensures
        match spec_dex_op_families(s@, tok@, e as int) {
            Some((v, j)) => r matches Ok(p) && p.0@ == v && p.1 == j && e <= j <= s@.len(),
            None => r is Err,
        },
        r matches Err(er) ==> (er is UnknownMnemonic <==> !spec_families_known(tok@)),
        r matches Err(er) ==> (er is ArityMismatch <==> spec_families_err_arity(
            s@,
            tok@,
            e as int,
        )),
{
    match InvokeType::from_mnemonic(tok) {
        Some(it) => {
            return invoke_dispatch(s, e, it);
        },
        None => {},
    }
    match ConstType::from_mnemonic(tok) {
        Some(ct) => {
            return match reg_and_sot(s, e) {
                Ok(((d, v), j)) => Ok((DexOp::Const { const_type: ct, dest: d, value: v }, j)),
                Err(er) => Err(er),
            };
        },
        None => {},
    }
    match TwoRegMoveType::from_mnemonic(tok) {
        Some(mt) => {
            return match two_regs(s, e) {
                Ok(((d, sr), j)) => Ok((DexOp::MoveTwoReg { move_type: mt, dest: d, src: sr },
                    j)),
                Err(er) => Err(er),
            };
        },
        None => {},
    }
    match OneRegMoveType::from_mnemonic(tok) {
        Some(mt) => {
            return match parse_register(s, e) {
                Ok((d, j)) => Ok((DexOp::MoveOneReg { move_type: mt, dest: d }, j)),
                Err(er) => Err(er),
            };
        },
        None => {},
    }
    match ReturnType::from_mnemonic(tok) {
        Some(rt) => {
            let void = match rt {
                ReturnType::Void => true,
                _ => false,
            };
            if void {
                return Ok((DexOp::Return { return_type: rt, src: None }, e));
            }
            return match parse_register(s, e) {
                Ok((r1, j)) => Ok((DexOp::Return { return_type: rt, src: Some(r1) }, j)),
                Err(er) => Err(er),
            };
        },
        None => {},
    }
    match ConditionType::from_mnemonic(tok) {
        Some(ct) => {
            return match reg_and_label(s, e) {
                Ok(((r1, n), j)) => Ok((DexOp::Condition { cond_type: ct, reg1: r1, offset: n },
                    j)),
                Err(er) => Err(er),
            };
        },
        None => {},
    }
    match TwoRegConditionType::from_mnemonic(tok) {
        Some(ct) => {
            return match two_reg_and_label(s, e) {
                Ok(((r1, r2, n), j)) => Ok(
                    (DexOp::TwoRegCondition { cond_type: ct, reg1: r1, reg2: r2, offset: n },
                        j),
                ),
                Err(er) => Err(er),
            };
        },
        None => {},
    }
    match GotoType::from_mnemonic(tok) {
        Some(gt) => {
            return match parse_label(s, e) {
                Ok((n, j)) => Ok((DexOp::Goto { goto_type: gt, offset: n }, j)),
                Err(er) => Err(er),
            };
        },
        None => {},
    }
    match ConstLiteralType::from_mnemonic(tok) {
        Some(clt) => {
            return const_literal_dispatch(s, clt, e);
        },
        None => {},
    }
    match LitArithType8::from_mnemonic(tok) {
        Some(at) => {
            return match reg_comma(s, e) {
                Ok((d, p)) => match reg_comma(s, p) {
                    Ok((sr, q)) => {
                        let q2 = skip_ws(s, q);
                        match parse_int_lit_i8(s, q2) {
                            Ok((v, j)) => Ok(
                                (
                                    DexOp::LitArith8 {
                                        arith_type: at,
                                        dest: d,
                                        src: sr,
                                        literal: v,
                                    },
                                    j,
                                ),
                            ),
                            Err(er) => Err(er),
                        }
                    },
                    Err(er) => Err(er),
                },
                Err(er) => Err(er),
            };
        },
        None => {},
    }
    match LitArithType16::from_mnemonic(tok) {
        Some(at) => {
            return match reg_comma(s, e) {
                Ok((d, p)) => match reg_comma(s, p) {
                    Ok((sr, q)) => {
                        let q2 = skip_ws(s, q);
                        match parse_int_lit_i16(s, q2) {
                            Ok((v, j)) => Ok(
                                (
                                    DexOp::LitArith16 {
                                        arith_type: at,
                                        dest: d,
                                        src: sr,
                                        literal: v,
                                    },
                                    j,
                                ),
                            ),
                            Err(er) => Err(er),
                        }
                    },
                    Err(er) => Err(er),
                },
                Err(er) => Err(er),
            };
        },
        None => {},
    }
    match ConvertType::from_mnemonic(tok) {
        Some(cv) => {
            return match two_regs(s, e) {
                Ok(((d, sr), j)) => Ok((DexOp::Convert { convert_type: cv, dest: d, src: sr },
                    j)),
                Err(er) => Err(er),
            };
        },
        None => {},
    }
    match CmpType::from_mnemonic(tok) {
        Some(cm) => {
            return match three_regs(s, e) {
                Ok(((d, s1, s2), j)) => Ok(
                    (DexOp::Cmp { cmp_type: cm, dest: d, src1: s1, src2: s2 }, j),
                ),
                Err(er) => Err(er),
            };
        },
        None => {},
    }
    match SwitchType::from_mnemonic(tok) {
        Some(st) => {
            return match reg_and_label(s, e) {
                Ok(((rg, n), j)) => Ok((DexOp::Switch { switch_type: st, reg: rg, offset: n },
                    j)),
                Err(er) => Err(er),
            };
        },
        None => {},
    }
    let tn = tok.unicode_len();
    let d = until_char(tok, 0, '-');
    let base = tok.substring_char(0, d);
    if d < tn {
        let sfx = tok.substring_char(d + 1, tn);
        dex_op_split(s, base, sfx, e)
    } else {
        proof {
            reveal_strlit("");
            assert(""@ =~= Seq::<char>::empty());
        }
        dex_op_split(s, base, "", e)
    }
}

/// Parse one instruction: the mnemonic token and its operands. Trailing
/// text, such as a line comment or the next line, is left unconsumed.
pub fn parse_dex_op(s: &str, i: usize) -> (r: Result<(DexOp, usize), ParseError>)
    requires
        i <= s@.len(),
    ensures
        match spec_parse_dex_op(s@, i as int) {
            Some((op, j)) => r matches Ok(p) && p.0@ == op && p.1 == j && i <= j <= s@.len(),
            None => r is Err,
        },
        r matches Err(er) ==> (er is UnknownMnemonic <==> !spec_dex_op_token_known(
            s@,
            i as int,
        )),
        r matches Err(er) ==> (er is ArityMismatch <==> spec_dex_op_err_arity(s@, i as int)),
{
    let i0 = skip_ws(s, i);
    let e = mnemonic_end(s, i0);
    if e <= i0 {
        return Err(ParseError::UnknownMnemonic(i0));
    }
    let tok = s.substring_char(i0, e);
    dex_op_with_token(s, tok, e)
}

} // verus!
