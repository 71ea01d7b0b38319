//! Operations that appear inside a method body: branch labels, catch and
//! switch directives, array data, and the instructions themselves.

use vstd::prelude::*;
use vstd::string::*;

use crate::ParseError;
use crate::num::{int_lit_value, parse_int_lit_i32, parse_int_lit_i64, parse_int_lit_u32,
    spec_hex_u64, u64_to_hex, spec_dec_u64, u64_to_dec};
use crate::object_identifier::{ObjectIdentifier, parse_object_identifier};
use crate::signature::type_signature::{SpecObjectIdentifier, spec_oid_jni,
    spec_parse_object_identifier, jni_of_oid};
use crate::text::{
    label_end, skip_ws, spec_label_end, spec_skip_ws, match_lit,
    spec_match_at,
};

pub mod dex_op;

use dex_op::{DexOp, SpecDexOp, parse_dex_op, spec_parse_dex_op, spec_render_dex_op,
    spec_dex_op_wf};

verus! {

/// A symbolic branch or switch target, written `:name`.
#[derive(Debug, PartialEq, Eq, Clone)]
pub struct Label(pub String);

impl View for Label {
    type V = Seq<char>;

    open spec fn view(&self) -> Seq<char> {
        self.0@
    }
}

/// The text of a label: a colon before the name.
pub open spec fn spec_label_text(name: Seq<char>) -> Seq<char> {
    seq![':'] + name
}

/// The label grammar at `i`, after leading whitespace: `:` then one or
/// more label characters.
pub open spec fn spec_parse_label(s: Seq<char>, i: int) -> Option<(Seq<char>, int)> {
    let i0 = spec_skip_ws(s, i);
    if i <= i0 && i0 < s.len() && s[i0] == ':' {
        let e = spec_label_end(s, i0 + 1);
        if i0 + 1 < e <= s.len() {
            Some((s.subrange(i0 + 1, e), e))
        } else {
            None
        }
    } else {
        None
    }
}

impl Label {
    /// Render this label with its leading colon.
    pub fn to_smali(&self) -> (r: String)
        ensures
            r@ == spec_label_text(self@),
    {
        let mut s = String::new();
        s.push(':');
        s.append(self.0.as_str());
        proof {
            assert(s@ =~= spec_label_text(self@));
        }
        s
    }
}

/// Parse a label: `:` then one or more name characters.
pub fn parse_label(s: &str, i: usize) -> (r: Result<(Label, usize), ParseError>)
    requires
        i <= s@.len(),
    ensures
        match spec_parse_label(s@, i as int) {
            Some((name, j)) => r matches Ok(p) && p.0@ == name && p.1 == j && i <= j
                <= s@.len(),
            None => r matches Err(e) && e is MalformedOperand,
        },
{
    let i0 = skip_ws(s, i);
    if i0 < s.unicode_len() && s.get_char(i0) == ':' {
        let e = label_end(s, i0 + 1);
        if e > i0 + 1 {
            let name = s.substring_char(i0 + 1, e).to_owned();
            Ok((Label(name), e))
        } else {
            Err(ParseError::MalformedOperand(i0))
        }
    } else {
        Err(ParseError::MalformedOperand(i0))
    }
}

// ---------------------------------------------------------------------------
// Try ranges and catch directives.
// ---------------------------------------------------------------------------

/// A protected range in a try/catch directive.
#[derive(Debug, PartialEq, Eq, Clone)]
pub struct TryRange {
    pub start: Label,
    pub end: Label,
}

/// Mathematical model of a `TryRange`.
pub struct SpecTryRange {
    pub start: Seq<char>,
    pub end: Seq<char>,
}

impl View for TryRange {
    type V = SpecTryRange;

    open spec fn view(&self) -> SpecTryRange {
        SpecTryRange { start: self.start@, end: self.end@ }
    }
}

/// The text of a try range: `{:start .. :end}`.
pub open spec fn spec_try_range_text(t: SpecTryRange) -> Seq<char> {
    seq!['{'] + spec_label_text(t.start) + seq![' ', '.', '.', ' '] + spec_label_text(t.end)
        + seq!['}']
}

/// The try-range grammar at `i`: `{`, a label, `..`, a label, `}`.
pub open spec fn spec_parse_try_range(s: Seq<char>, i: int) -> Option<(SpecTryRange, int)> {
    let i0 = spec_skip_ws(s, i);
    if i <= i0 && i0 < s.len() && s[i0] == '{' {
        match spec_parse_label(s, i0 + 1) {
            Some((a, j)) => {
                let j2 = spec_skip_ws(s, j);
                if j <= j2 && j2 + 2 <= s.len() && s[j2] == '.' && s[j2 + 1] == '.' {
                    match spec_parse_label(s, j2 + 2) {
                        Some((b, k)) => {
                            let k2 = spec_skip_ws(s, k);
                            if k <= k2 && k2 < s.len() && s[k2] == '}' {
                                Some((SpecTryRange { start: a, end: b }, k2 + 1))
                            } else {
                                None
                            }
                        },
                        None => None,
                    }
                } else {
                    None
                }
            },
            None => None,
        }
    } else {
        None
    }
}

impl TryRange {
    /// Render this try range: `{:start .. :end}`.
    pub fn to_smali(&self) -> (r: String)
        ensures
            r@ == spec_try_range_text(self@),
    {
        let mut s = String::new();
        s.push('{');
        let a = self.start.to_smali();
        s.append(a.as_str());
        s.push(' ');
        s.push('.');
        s.push('.');
        s.push(' ');
        let b = self.end.to_smali();
        s.append(b.as_str());
        s.push('}');
        proof {
            assert(s@ =~= spec_try_range_text(self@));
        }
        s
    }
}

/// Parse a try range.
pub fn parse_try_range(s: &str, i: usize) -> (r: Result<(TryRange, usize), ParseError>)
    requires
        i <= s@.len(),
    ensures
        match spec_parse_try_range(s@, i as int) {
            Some((v, j)) => r matches Ok(p) && p.0@ == v && p.1 == j && i <= j <= s@.len(),
            None => r is Err,
        },
{
    let i0 = skip_ws(s, i);
    if i0 < s.unicode_len() && s.get_char(i0) == '{' {
        match parse_label(s, i0 + 1) {
            Ok((a, j)) => {
                let j2 = skip_ws(s, j);
                if s.unicode_len() - j2 >= 2 && s.get_char(j2) == '.' && s.get_char(j2 + 1)
                    == '.' {
                    match parse_label(s, j2 + 2) {
                        Ok((b, k)) => {
                            let k2 = skip_ws(s, k);
                            if k2 < s.unicode_len() && s.get_char(k2) == '}' {
                                Ok((TryRange { start: a, end: b }, k2 + 1))
                            } else {
                                Err(ParseError::MalformedOperand(k2))
                            }
                        },
                        Err(e) => Err(e),
                    }
                } else {
                    Err(ParseError::MalformedOperand(j2))
                }
            },
            Err(e) => Err(e),
        }
    } else {
        Err(ParseError::MalformedOperand(i0))
    }
}

/// A catch directive: with an exception type, or catch-all.
#[derive(Debug, PartialEq, Eq)]
pub enum CatchDirective {
    Catch { exception: ObjectIdentifier, try_range: TryRange, handler: Label },
    CatchAll { try_range: TryRange, handler: Label },
}

/// Mathematical model of a `CatchDirective`.
pub enum SpecCatchDirective {
    Catch { exception: SpecObjectIdentifier, try_range: SpecTryRange, handler: Seq<char> },
    CatchAll { try_range: SpecTryRange, handler: Seq<char> },
}

impl View for CatchDirective {
    type V = SpecCatchDirective;

    open spec fn view(&self) -> SpecCatchDirective {
        match self {
            CatchDirective::Catch { exception, try_range, handler } =>
                SpecCatchDirective::Catch {
                exception: exception@,
                try_range: try_range@,
                handler: handler@,
            },
            CatchDirective::CatchAll { try_range, handler } => SpecCatchDirective::CatchAll {
                try_range: try_range@,
                handler: handler@,
            },
        }
    }
}

/// The text of a catch directive.
pub open spec fn spec_catch_directive_text(c: SpecCatchDirective) -> Seq<char> {
    match c {
        SpecCatchDirective::Catch { exception, try_range, handler } => ".catch "@
            + spec_oid_jni(exception) + seq![' '] + spec_try_range_text(try_range) + seq![' ']
            + spec_label_text(handler),
        SpecCatchDirective::CatchAll { try_range, handler } => ".catchall "@
            + spec_try_range_text(try_range) + seq![' '] + spec_label_text(handler),
    }
}

/// The catch-directive grammar at `i`: `.catchall` first, `.catch` second.
pub open spec fn spec_parse_catch_directive(s: Seq<char>, i: int) -> Option<
    (SpecCatchDirective, int),
> {
    let i0 = spec_skip_ws(s, i);
    if !(0 <= i <= i0 <= s.len()) {
        None
    } else if spec_match_at(s, i0, ".catchall"@) {
        let p = i0 + ".catchall"@.len();
        match spec_parse_try_range(s, p) {
            Some((t, j)) => match spec_parse_label(s, j) {
                Some((h, k)) => Some(
                    (SpecCatchDirective::CatchAll { try_range: t, handler: h }, k),
                ),
                None => None,
            },
            None => None,
        }
    } else if spec_match_at(s, i0, ".catch"@) {
        let p = i0 + ".catch"@.len();
        let p2 = spec_skip_ws(s, p);
        if p <= p2 <= s.len() {
            match spec_parse_object_identifier(s, p2) {
                Some((o, q)) => match spec_parse_try_range(s, q) {
                    Some((t, j)) => match spec_parse_label(s, j) {
                        Some((h, k)) => Some(
                            (
                                SpecCatchDirective::Catch {
                                    exception: o,
                                    try_range: t,
                                    handler: h,
                                },
                                k,
                            ),
                        ),
                        None => None,
                    },
                    None => None,
                },
                None => None,
            }
        } else {
            None
        }
    } else {
        None
    }
}

impl CatchDirective {
    /// Render this catch directive on one line.
    pub fn to_smali(&self) -> (r: String)
        ensures
            r@ == spec_catch_directive_text(self@),
    {
        match self {
            CatchDirective::Catch { exception, try_range, handler } => {
                let mut s = String::from_str(".catch ");
                let a = jni_of_oid(exception);
                s.append(a.as_str());
                s.push(' ');
                let b = try_range.to_smali();
                s.append(b.as_str());
                s.push(' ');
                let c = handler.to_smali();
                s.append(c.as_str());
                proof {
                    assert(s@ =~= spec_catch_directive_text(self@));
                }
                s
            },
            CatchDirective::CatchAll { try_range, handler } => {
                let mut s = String::from_str(".catchall ");
                let b = try_range.to_smali();
                s.append(b.as_str());
                s.push(' ');
                let c = handler.to_smali();
                s.append(c.as_str());
                proof {
                    assert(s@ =~= spec_catch_directive_text(self@));
                }
                s
            },
        }
    }
}

/// Parse a catch directive.
pub fn parse_catch_directive(s: &str, i: usize) -> (r: Result<(CatchDirective, usize),
    ParseError>)
    requires
        i <= s@.len(),
    ensures
        match spec_parse_catch_directive(s@, i as int) {
            Some((v, j)) => r matches Ok(p) && p.0@ == v && p.1 == j && i <= j <= s@.len(),
            None => r is Err,
        },
{
    let i0 = skip_ws(s, i);
    match match_lit(s, i0, ".catchall") {
        Some(p) => {
            match parse_try_range(s, p) {
                Ok((t, j)) => match parse_label(s, j) {
                    Ok((h, k)) => Ok((CatchDirective::CatchAll { try_range: t, handler: h },
                        k)),
                    Err(e) => Err(e),
                },
                Err(e) => Err(e),
            }
        },
        None => match match_lit(s, i0, ".catch") {
            Some(p) => {
                let p2 = skip_ws(s, p);
                match parse_object_identifier(s, p2) {
                    Ok((o, q)) => match parse_try_range(s, q) {
                        Ok((t, j)) => match parse_label(s, j) {
                            Ok((h, k)) => Ok(
                                (
                                    CatchDirective::Catch {
                                        exception: o,
                                        try_range: t,
                                        handler: h,
                                    },
                                    k,
                                ),
                            ),
                            Err(e) => Err(e),
                        },
                        Err(e) => Err(e),
                    },
                    Err(e) => Err(e),
                }
            },
            None => Err(ParseError::MalformedOperand(i0)),
        },
    }
}

// ---------------------------------------------------------------------------
// Array-data directives.
// ---------------------------------------------------------------------------

/// One element of an `.array-data` block. The floating-point forms carry
/// the raw bit pattern, which is also how the dialect writes them.
#[derive(Debug, Clone, Copy, PartialEq, Eq, Structural)]
pub enum ArrayDataElement {
    Byte(i8),
    Short(i16),
    Int(i32),
    Long(i64),
    Float(u32),
    Double(u64),
}

/// The text of an array-data element: two's-complement hexadecimal with
/// the width's suffix letter.
pub open spec fn spec_ade_text(e: ArrayDataElement) -> Seq<char> {
    match e {
        ArrayDataElement::Byte(b) => seq!['0', 'x'] + spec_hex_u64((b as u8) as int)
            + seq!['t'],
        ArrayDataElement::Short(v) => seq!['0', 'x'] + spec_hex_u64((v as u16) as int)
            + seq!['s'],
        ArrayDataElement::Int(v) => seq!['0', 'x'] + spec_hex_u64((v as u32) as int),
        ArrayDataElement::Long(v) => seq!['0', 'x'] + spec_hex_u64((v as u64) as int)
            + seq!['l'],
        ArrayDataElement::Float(bits) => seq!['0', 'x'] + spec_hex_u64(bits as int)
            + seq!['f'],
        ArrayDataElement::Double(bits) => seq!['0', 'x'] + spec_hex_u64(bits as int)
            + seq!['d'],
    }
}

impl ArrayDataElement {
    /// Render this element in hexadecimal with its suffix letter.
    pub fn to_smali(&self) -> (r: String)
        ensures
            r@ == spec_ade_text(*self),
    {
        let mut s = String::new();
        s.push('0');
        s.push('x');
        match self {
            ArrayDataElement::Byte(b) => {
                let h = u64_to_hex((*b as u8) as u64);
                s.append(h.as_str());
                s.push('t');
            },
            ArrayDataElement::Short(v) => {
                let h = u64_to_hex((*v as u16) as u64);
                s.append(h.as_str());
                s.push('s');
            },
            ArrayDataElement::Int(v) => {
                let h = u64_to_hex((*v as u32) as u64);
                s.append(h.as_str());
            },
            ArrayDataElement::Long(v) => {
                let h = u64_to_hex(*v as u64);
                s.append(h.as_str());
                s.push('l');
            },
            ArrayDataElement::Float(bits) => {
                let h = u64_to_hex(*bits as u64);
                s.append(h.as_str());
                s.push('f');
            },
            ArrayDataElement::Double(bits) => {
                let h = u64_to_hex(*bits);
                s.append(h.as_str());
                s.push('d');
            },
        }
        proof {
            assert(s@ =~= spec_ade_text(*self));
        }
        s
    }
}

/// An `.array-data` directive: the element width from its header and the
/// parsed elements.
#[derive(Debug, PartialEq, Eq)]
pub struct ArrayDataDirective {
    pub width: u32,
    pub elements: Vec<ArrayDataElement>,
}

/// Mathematical model of an `ArrayDataDirective`.
pub struct SpecArrayDataDirective {
    pub width: u32,
    pub elements: Seq<ArrayDataElement>,
}

impl View for ArrayDataDirective {
    type V = SpecArrayDataDirective;

    open spec fn view(&self) -> SpecArrayDataDirective {
        SpecArrayDataDirective { width: self.width, elements: self.elements@ }
    }
}

/// The element lines of an array-data block: four to a line, each element
/// followed by a space, each line indented and newline-terminated.
pub open spec fn spec_ade_lines(l: Seq<ArrayDataElement>, k: int) -> Seq<char>
    decreases l.len() - k,
{
    if 0 <= k < l.len() {
        (if k % 4 == 0 {
            seq![' ', ' ', ' ', ' ']
        } else {
            Seq::empty()
        }) + spec_ade_text(l[k]) + seq![' '] + (if k % 4 == 3 || k == l.len() - 1 {
            seq!['\n']
        } else {
            Seq::empty()
        }) + spec_ade_lines(l, k + 1)
    } else {
        Seq::empty()
    }
}

fn render_ade_lines(v: &Vec<ArrayDataElement>, k: usize) -> (r: String)
    requires
        k <= v@.len(),
    ensures
        r@ == spec_ade_lines(v@, k as int),
    decreases v@.len() - k,
{
    if k >= v.len() {
        let s = String::new();
        proof {
            assert(s@ =~= spec_ade_lines(v@, k as int));
        }
        s
    } else {
        let mut s = String::new();
        if k % 4 == 0 {
            s.push(' ');
            s.push(' ');
            s.push(' ');
            s.push(' ');
        }
        let t = v[k].to_smali();
        s.append(t.as_str());
        s.push(' ');
        if k % 4 == 3 || k == v.len() - 1 {
            s.push('\n');
        }
        let rest = render_ade_lines(v, k + 1);
        s.append(rest.as_str());
        proof {
            assert(s@ =~= spec_ade_lines(v@, k as int));
        }
        s
    }
}

/// The text of an array-data directive, header and footer included.
pub open spec fn spec_array_data_text(a: SpecArrayDataDirective) -> Seq<char> {
    ".array-data 0x"@ + spec_hex_u64(a.width as int) + seq!['\n'] + spec_ade_lines(
        a.elements,
        0,
    ) + ".end array-data"@
}

impl ArrayDataDirective {
    /// Render this directive, header and footer included.
    pub fn to_smali(&self) -> (r: String)
        ensures
            r@ == spec_array_data_text(self@),
    {
        let mut s = String::from_str(".array-data 0x");
        let h = u64_to_hex(self.width as u64);
        s.append(h.as_str());
        s.push('\n');
        let lines = render_ade_lines(&self.elements, 0);
        s.append(lines.as_str());
        s.append(".end array-data");
        proof {
            assert(s@ =~= spec_array_data_text(self@));
        }
        s
    }
}

/// The elements of an array-data block from `i` to its `.end` footer.
pub open spec fn spec_ade_items(s: Seq<char>, i: int, width: u32) -> Option<
    (Seq<ArrayDataElement>, int),
>
    decreases s.len() - i,
{
    let p = spec_skip_ws(s, i);
    if !(0 <= i <= p <= s.len()) {
        None
    } else if spec_match_at(s, p, ".end array-data"@) {
        Some((Seq::empty(), p + ".end array-data"@.len()))
    } else {
        match int_lit_value(s, p) {
            Some((val, j)) => if p < j <= s.len() && i64::MIN <= val <= i64::MAX {
                let elem_and_end = if j < s.len() && s[j] == 't' {
                    (ArrayDataElement::Byte((val as i64) as i8), j + 1)
                } else if j < s.len() && s[j] == 's' {
                    (ArrayDataElement::Short((val as i64) as i16), j + 1)
                } else if j < s.len() && s[j] == 'l' {
                    (ArrayDataElement::Long(val as i64), j + 1)
                } else if j < s.len() && s[j] == 'f' {
                    (ArrayDataElement::Float((val as i64) as u32), j + 1)
                } else if j < s.len() && s[j] == 'd' {
                    (ArrayDataElement::Double((val as i64) as u64), j + 1)
                } else if width == 1 {
                    (ArrayDataElement::Byte((val as i64) as i8), j)
                } else if width == 2 {
                    (ArrayDataElement::Short((val as i64) as i16), j)
                } else if width == 8 {
                    (ArrayDataElement::Long(val as i64), j)
                } else {
                    (ArrayDataElement::Int((val as i64) as i32), j)
                };
                match spec_ade_items(s, elem_and_end.1, width) {
                    Some((rest, k)) => Some((seq![elem_and_end.0] + rest, k)),
                    None => None,
                }
            } else {
                None
            },
            None => None,
        }
    }
}

fn ade_items(s: &str, i: usize, width: u32) -> (r: Result<(Vec<ArrayDataElement>, usize),
    ParseError>)
    requires
        i <= s@.len(),
    ensures
        match spec_ade_items(s@, i as int, width) {
            Some((l, j)) => r matches Ok(p) && p.0@ == l && p.1 == j && i <= j <= s@.len(),
            None => r is Err,
        },
    decreases s@.len() - i,
{
    let p = skip_ws(s, i);
    match match_lit(s, p, ".end array-data") {
        Some(q) => {
            let v: Vec<ArrayDataElement> = Vec::new();
            Ok((v, q))
        },
        None => match parse_int_lit_i64(s, p) {
            Ok((val, j)) => {
                if j <= p {
                    return Err(ParseError::MalformedOperand(p));
                }
                let sl = s.unicode_len();
                let c = if j < sl {
                    s.get_char(j)
                } else {
                    ' '
                };
                let elem: ArrayDataElement;
                let next: usize;
                if j < sl && c == 't' {
                    elem = ArrayDataElement::Byte(#[verifier::truncate] (val as i8));
                    next = j + 1;
                } else if j < sl && c == 's' {
                    elem = ArrayDataElement::Short(#[verifier::truncate] (val as i16));
                    next = j + 1;
                } else if j < sl && c == 'l' {
                    elem = ArrayDataElement::Long(val);
                    next = j + 1;
                } else if j < sl && c == 'f' {
                    elem = ArrayDataElement::Float(#[verifier::truncate] (val as u32));
                    next = j + 1;
                } else if j < sl && c == 'd' {
                    elem = ArrayDataElement::Double(#[verifier::truncate] (val as u64));
                    next = j + 1;
                } else if width == 1 {
                    elem = ArrayDataElement::Byte(#[verifier::truncate] (val as i8));
                    next = j;
                } else if width == 2 {
                    elem = ArrayDataElement::Short(#[verifier::truncate] (val as i16));
                    next = j;
                } else if width == 8 {
                    elem = ArrayDataElement::Long(val);
                    next = j;
                } else {
                    elem = ArrayDataElement::Int(#[verifier::truncate] (val as i32));
                    next = j;
                }
                match ade_items(s, next, width) {
                    Ok((mut rest, k)) => {
                        proof {
                            assert(rest@.insert(0, elem) =~= seq![elem] + rest@);
                        }
                        rest.insert(0, elem);
                        Ok((rest, k))
                    },
                    Err(e) => Err(e),
                }
            },
            Err(e) => Err(e),
        },
    }
}

/// The array-data grammar at `i`: the header with its width, the elements,
/// and the `.end` footer.
pub open spec fn spec_parse_array_data_directive(s: Seq<char>, i: int) -> Option<
    (SpecArrayDataDirective, int),
> {
    let p = spec_skip_ws(s, i);
    if !(0 <= i <= p <= s.len()) {
        None
    } else if spec_match_at(s, p, ".array-data"@) {
        let q = p + ".array-data"@.len();
        let q2 = spec_skip_ws(s, q);
        if q <= q2 <= s.len() {
            match int_lit_value(s, q2) {
                Some((w, j)) => if 0 <= w <= u32::MAX {
                    match spec_ade_items(s, j, w as u32) {
                        Some((elems, k)) => Some(
                            (
                                SpecArrayDataDirective {
                                    width: w as u32,
                                    elements: elems,
                                },
                                k,
                            ),
                        ),
                        None => None,
                    }
                } else {
                    None
                },
                None => None,
            }
        } else {
            None
        }
    } else {
        None
    }
}

/// Parse an array-data directive.
pub fn parse_array_data_directive(s: &str, i: usize) -> (r: Result<(ArrayDataDirective, usize),
    ParseError>)
    requires
        i <= s@.len(),
    ensures
        match spec_parse_array_data_directive(s@, i as int) {
            Some((v, j)) => r matches Ok(p) && p.0@ == v && p.1 == j && i <= j <= s@.len(),
            None => r is Err,
        },
{
    let p = skip_ws(s, i);
    match match_lit(s, p, ".array-data") {
        Some(q) => {
            let q2 = skip_ws(s, q);
            match parse_int_lit_u32(s, q2) {
                Ok((w, j)) => match ade_items(s, j, w) {
                    Ok((elems, k)) => Ok((ArrayDataDirective { width: w, elements: elems },
                        k)),
                    Err(e) => Err(e),
                },
                Err(e) => Err(e),
            }
        },
        None => Err(ParseError::MalformedOperand(p)),
    }
}

// ---------------------------------------------------------------------------
// Switch directives.
// ---------------------------------------------------------------------------

/// The views of a sequence of labels.
pub open spec fn spec_view_labels(l: Seq<Label>) -> Seq<Seq<char>> {
    Seq::new(l.len(), |k: int| l[k]@)
}

/// A `.packed-switch` directive: the first key and the target labels.
#[derive(Debug, PartialEq, Eq)]
pub struct PackedSwitchDirective {
    pub first_key: i32,
    pub targets: Vec<Label>,
}

/// Mathematical model of a `PackedSwitchDirective`.
pub struct SpecPackedSwitchDirective {
    pub first_key: i32,
    pub targets: Seq<Seq<char>>,
}

impl View for PackedSwitchDirective {
    type V = SpecPackedSwitchDirective;

    open spec fn view(&self) -> SpecPackedSwitchDirective {
        SpecPackedSwitchDirective {
            first_key: self.first_key,
            targets: spec_view_labels(self.targets@),
        }
    }
}

/// The indented, newline-terminated label lines of a packed switch.
pub open spec fn spec_label_lines(l: Seq<Seq<char>>, k: int) -> Seq<char>
    decreases l.len() - k,
{
    if 0 <= k < l.len() {
        seq![' ', ' ', ' ', ' '] + spec_label_text(l[k]) + seq!['\n'] + spec_label_lines(
            l,
            k + 1,
        )
    } else {
        Seq::empty()
    }
}

fn render_label_lines(v: &Vec<Label>, k: usize) -> (r: String)
    requires
        k <= v@.len(),
    ensures
        r@ == spec_label_lines(spec_view_labels(v@), k as int),
    decreases v@.len() - k,
{
    if k >= v.len() {
        let s = String::new();
        proof {
            assert(s@ =~= spec_label_lines(spec_view_labels(v@), k as int));
        }
        s
    } else {
        let mut s = String::new();
        s.push(' ');
        s.push(' ');
        s.push(' ');
        s.push(' ');
        let t = v[k].to_smali();
        s.append(t.as_str());
        s.push('\n');
        let rest = render_label_lines(v, k + 1);
        s.append(rest.as_str());
        proof {
            assert(s@ =~= spec_label_lines(spec_view_labels(v@), k as int));
        }
        s
    }
}

/// The text of a packed-switch directive: the first key in hexadecimal,
/// the target labels one per line, and the `.end` footer.
pub open spec fn spec_packed_switch_text(p: SpecPackedSwitchDirective) -> Seq<char> {
    ".packed-switch 0x"@ + spec_hex_u64((p.first_key as u32) as int) + seq!['\n']
        + spec_label_lines(p.targets, 0) + ".end packed-switch"@
}

impl PackedSwitchDirective {
    /// Render this directive, header and footer included.
    pub fn to_smali(&self) -> (r: String)
        ensures
            r@ == spec_packed_switch_text(self@),
    {
        let mut s = String::from_str(".packed-switch 0x");
        let h = u64_to_hex((self.first_key as u32) as u64);
        s.append(h.as_str());
        s.push('\n');
        let lines = render_label_lines(&self.targets, 0);
        s.append(lines.as_str());
        s.append(".end packed-switch");
        proof {
            assert(s@ =~= spec_packed_switch_text(self@));
        }
        s
    }
}

/// The target labels of a packed switch, up to and including the footer.
pub open spec fn spec_packed_targets(s: Seq<char>, i: int) -> Option<(Seq<Seq<char>>, int)>
    decreases s.len() - i,
{
    let p = spec_skip_ws(s, i);
    if !(0 <= i <= p <= s.len()) {
        None
    } else if spec_match_at(s, p, ".end packed-switch"@) {
        Some((Seq::empty(), p + ".end packed-switch"@.len()))
    } else {
        match spec_parse_label(s, p) {
            Some((n, j)) => if p < j <= s.len() {
                match spec_packed_targets(s, j) {
                    Some((rest, k)) => Some((seq![n] + rest, k)),
                    None => None,
                }
            } else {
                None
            },
            None => None,
        }
    }
}

fn packed_targets(s: &str, i: usize) -> (r: Result<(Vec<Label>, usize), ParseError>)
    requires
        i <= s@.len(),
    ensures
        match spec_packed_targets(s@, i as int) {
            Some((l, j)) => r matches Ok(p) && spec_view_labels(p.0@) == l && p.1 == j && i <= j
                <= s@.len(),
            None => r is Err,
        },
    decreases s@.len() - i,
{
    let p = skip_ws(s, i);
    match match_lit(s, p, ".end packed-switch") {
        Some(q) => {
            let v: Vec<Label> = Vec::new();
            proof {
                assert(spec_view_labels(v@) =~= Seq::<Seq<char>>::empty());
            }
            Ok((v, q))
        },
        None => match parse_label(s, p) {
            Ok((n, j)) => {
                if j <= p {
                    return Err(ParseError::MalformedOperand(p));
                }
                match packed_targets(s, j) {
                    Ok((mut rest, k)) => {
                        proof {
                            assert(spec_view_labels(rest@.insert(0, n)) =~= seq![n@]
                                + spec_view_labels(rest@));
                        }
                        rest.insert(0, n);
                        Ok((rest, k))
                    },
                    Err(e) => Err(e),
                }
            },
            Err(e) => Err(e),
        },
    }
}

/// The packed-switch grammar at `i`: the header with its first key, the
/// target labels, and the `.end` footer.
pub open spec fn spec_parse_packed_switch_directive(s: Seq<char>, i: int) -> Option<
    (SpecPackedSwitchDirective, int),
> {
    let p = spec_skip_ws(s, i);
    if !(0 <= i <= p <= s.len()) {
        None
    } else if spec_match_at(s, p, ".packed-switch"@) {
        let q = p + ".packed-switch"@.len();
        let q2 = spec_skip_ws(s, q);
        if q <= q2 <= s.len() {
            match int_lit_value(s, q2) {
                Some((w, j)) => if i32::MIN <= w <= i32::MAX {
                    match spec_packed_targets(s, j) {
                        Some((ts, k)) => Some(
                            (
                                SpecPackedSwitchDirective {
                                    first_key: w as i32,
                                    targets: ts,
                                },
                                k,
                            ),
                        ),
                        None => None,
                    }
                } else {
                    None
                },
                None => None,
            }
        } else {
            None
        }
    } else {
        None
    }
}

/// Parse a packed-switch directive.
pub fn parse_packed_switch_directive(s: &str, i: usize) -> (r: Result<
    (PackedSwitchDirective, usize),
    ParseError,
>)
    requires
        i <= s@.len(),
    ensures
        match spec_parse_packed_switch_directive(s@, i as int) {
            Some((v, j)) => r matches Ok(p) && p.0@ == v && p.1 == j && i <= j <= s@.len(),
            None => r is Err,
        },
{
    let p = skip_ws(s, i);
    match match_lit(s, p, ".packed-switch") {
        Some(q) => {
            let q2 = skip_ws(s, q);
            match parse_int_lit_i32(s, q2) {
                Ok((w, j)) => match packed_targets(s, j) {
                    Ok((ts, k)) => Ok((PackedSwitchDirective { first_key: w, targets: ts },
                        k)),
                    Err(e) => Err(e),
                },
                Err(e) => Err(e),
            }
        },
        None => Err(ParseError::MalformedOperand(p)),
    }
}

/// An entry in a sparse-switch directive: a key and its target label.
#[derive(Debug, PartialEq, Eq, Clone)]
pub struct SparseSwitchEntry {
    pub key: i32,
    pub target: Label,
}

/// Mathematical model of a `SparseSwitchEntry`.
pub struct SpecSparseSwitchEntry {
    pub key: i32,
    pub target: Seq<char>,
}

impl View for SparseSwitchEntry {
    type V = SpecSparseSwitchEntry;

    open spec fn view(&self) -> SpecSparseSwitchEntry {
        SpecSparseSwitchEntry { key: self.key, target: self.target@ }
    }
}

/// The views of a sequence of sparse-switch entries.
pub open spec fn spec_view_ssentries(l: Seq<SparseSwitchEntry>) -> Seq<SpecSparseSwitchEntry> {
    Seq::new(l.len(), |k: int| l[k]@)
}

/// The text of a sparse-switch entry: the key in hexadecimal, an arrow,
/// and the target label.
pub open spec fn spec_sse_text(e: SpecSparseSwitchEntry) -> Seq<char> {
    "0x"@ + spec_hex_u64((e.key as u32) as int) + " -> "@ + spec_label_text(e.target)
}

impl SparseSwitchEntry {
    /// Render this entry: key, arrow, target.
    pub fn to_smali(&self) -> (r: String)
        ensures
            r@ == spec_sse_text(self@),
    {
        let mut s = String::from_str("0x");
        let h = u64_to_hex((self.key as u32) as u64);
        s.append(h.as_str());
        s.append(" -> ");
        let t = self.target.to_smali();
        s.append(t.as_str());
        proof {
            assert(s@ =~= spec_sse_text(self@));
        }
        s
    }
}

/// The sparse-switch-entry grammar at `i`: a key, `->`, a label.
pub open spec fn spec_parse_sparse_switch_entry(s: Seq<char>, i: int) -> Option<
    (SpecSparseSwitchEntry, int),
> {
    let p = spec_skip_ws(s, i);
    if !(0 <= i <= p <= s.len()) {
        None
    } else {
        match int_lit_value(s, p) {
            Some((w, j)) => if i32::MIN <= w <= i32::MAX {
                let j2 = spec_skip_ws(s, j);
                if j <= j2 && j2 + 2 <= s.len() && s[j2] == '-' && s[j2 + 1] == '>' {
                    match spec_parse_label(s, j2 + 2) {
                        Some((n, k)) => Some(
                            (SpecSparseSwitchEntry { key: w as i32, target: n }, k),
                        ),
                        None => None,
                    }
                } else {
                    None
                }
            } else {
                None
            },
            None => None,
        }
    }
}

/// Parse a sparse-switch entry.
pub fn parse_sparse_switch_entry(s: &str, i: usize) -> (r: Result<(SparseSwitchEntry, usize),
    ParseError>)
    requires
        i <= s@.len(),
    ensures
        match spec_parse_sparse_switch_entry(s@, i as int) {
            Some((v, j)) => r matches Ok(p) && p.0@ == v && p.1 == j && i <= j <= s@.len(),
            None => r is Err,
        },
{
    let p = skip_ws(s, i);
    match parse_int_lit_i32(s, p) {
        Ok((w, j)) => {
            let j2 = skip_ws(s, j);
            if s.unicode_len() - j2 >= 2 && s.get_char(j2) == '-' && s.get_char(j2 + 1) == '>' {
                match parse_label(s, j2 + 2) {
                    Ok((n, k)) => Ok((SparseSwitchEntry { key: w, target: n }, k)),
                    Err(e) => Err(e),
                }
            } else {
                Err(ParseError::MalformedOperand(j2))
            }
        },
        Err(e) => Err(e),
    }
}

/// A `.sparse-switch` directive.
#[derive(Debug, PartialEq, Eq)]
pub struct SparseSwitchDirective {
    pub entries: Vec<SparseSwitchEntry>,
}

/// Mathematical model of a `SparseSwitchDirective`.
pub struct SpecSparseSwitchDirective {
    pub entries: Seq<SpecSparseSwitchEntry>,
}

impl View for SparseSwitchDirective {
    type V = SpecSparseSwitchDirective;

    open spec fn view(&self) -> SpecSparseSwitchDirective {
        SpecSparseSwitchDirective { entries: spec_view_ssentries(self.entries@) }
    }
}

/// The indented, newline-terminated entry lines of a sparse switch.
pub open spec fn spec_sse_lines(l: Seq<SpecSparseSwitchEntry>, k: int) -> Seq<char>
    decreases l.len() - k,
{
    if 0 <= k < l.len() {
        seq![' ', ' ', ' ', ' '] + spec_sse_text(l[k]) + seq!['\n'] + spec_sse_lines(l, k + 1)
    } else {
        Seq::empty()
    }
}

fn render_sse_lines(v: &Vec<SparseSwitchEntry>, k: usize) -> (r: String)
    requires
        k <= v@.len(),
    ensures
        r@ == spec_sse_lines(spec_view_ssentries(v@), k as int),
    decreases v@.len() - k,
{
    if k >= v.len() {
        let s = String::new();
        proof {
            assert(s@ =~= spec_sse_lines(spec_view_ssentries(v@), k as int));
        }
        s
    } else {
        let mut s = String::new();
        s.push(' ');
        s.push(' ');
        s.push(' ');
        s.push(' ');
        let t = v[k].to_smali();
        s.append(t.as_str());
        s.push('\n');
        let rest = render_sse_lines(v, k + 1);
        s.append(rest.as_str());
        proof {
            assert(s@ =~= spec_sse_lines(spec_view_ssentries(v@), k as int));
        }
        s
    }
}

/// The text of a sparse-switch directive, header and footer included.
pub open spec fn spec_sparse_switch_text(p: SpecSparseSwitchDirective) -> Seq<char> {
    ".sparse-switch\n"@ + spec_sse_lines(p.entries, 0) + ".end sparse-switch"@
}

impl SparseSwitchDirective {
    /// Render this directive, header and footer included.
    pub fn to_smali(&self) -> (r: String)
        ensures
            r@ == spec_sparse_switch_text(self@),
    {
        let mut s = String::from_str(".sparse-switch\n");
        let lines = render_sse_lines(&self.entries, 0);
        s.append(lines.as_str());
        s.append(".end sparse-switch");
        proof {
            assert(s@ =~= spec_sparse_switch_text(self@));
        }
        s
    }
}

/// The entries of a sparse switch, up to and including the footer.
pub open spec fn spec_sparse_entries(s: Seq<char>, i: int) -> Option<
    (Seq<SpecSparseSwitchEntry>, int),
>
    decreases s.len() - i,
{
    let p = spec_skip_ws(s, i);
    if !(0 <= i <= p <= s.len()) {
        None
    } else if spec_match_at(s, p, ".end sparse-switch"@) {
        Some((Seq::empty(), p + ".end sparse-switch"@.len()))
    } else {
        match spec_parse_sparse_switch_entry(s, p) {
            Some((en, j)) => if p < j <= s.len() {
                match spec_sparse_entries(s, j) {
                    Some((rest, k)) => Some((seq![en] + rest, k)),
                    None => None,
                }
            } else {
                None
            },
            None => None,
        }
    }
}

fn sparse_entries(s: &str, i: usize) -> (r: Result<(Vec<SparseSwitchEntry>, usize),
    ParseError>)
    requires
        i <= s@.len(),
    ensures
        match spec_sparse_entries(s@, i as int) {
            Some((l, j)) => r matches Ok(p) && spec_view_ssentries(p.0@) == l && p.1 == j && i
                <= j <= s@.len(),
            None => r is Err,
        },
    decreases s@.len() - i,
{
    let p = skip_ws(s, i);
    match match_lit(s, p, ".end sparse-switch") {
        Some(q) => {
            let v: Vec<SparseSwitchEntry> = Vec::new();
            proof {
                assert(spec_view_ssentries(v@) =~= Seq::<SpecSparseSwitchEntry>::empty());
            }
            Ok((v, q))
        },
        None => match parse_sparse_switch_entry(s, p) {
            Ok((en, j)) => {
                if j <= p {
                    return Err(ParseError::MalformedOperand(p));
                }
                match sparse_entries(s, j) {
                    Ok((mut rest, k)) => {
                        proof {
                            assert(spec_view_ssentries(rest@.insert(0, en)) =~= seq![en@]
                                + spec_view_ssentries(rest@));
                        }
                        rest.insert(0, en);
                        Ok((rest, k))
                    },
                    Err(e) => Err(e),
                }
            },
            Err(e) => Err(e),
        },
    }
}

/// The sparse-switch grammar at `i`: the header, the entries, and the
/// `.end` footer.
pub open spec fn spec_parse_sparse_switch_directive(s: Seq<char>, i: int) -> Option<
    (SpecSparseSwitchDirective, int),
> {
    let p = spec_skip_ws(s, i);
    if !(0 <= i <= p <= s.len()) {
        None
    } else if spec_match_at(s, p, ".sparse-switch"@) {
        match spec_sparse_entries(s, p + ".sparse-switch"@.len()) {
            Some((es, k)) => Some((SpecSparseSwitchDirective { entries: es }, k)),
            None => None,
        }
    } else {
        None
    }
}

/// Parse a sparse-switch directive.
pub fn parse_sparse_switch_directive(s: &str, i: usize) -> (r: Result<
    (SparseSwitchDirective, usize),
    ParseError,
>)
    requires
        i <= s@.len(),
    ensures
        match spec_parse_sparse_switch_directive(s@, i as int) {
            Some((v, j)) => r matches Ok(p) && p.0@ == v && p.1 == j && i <= j <= s@.len(),
            None => r is Err,
        },
{
    let p = skip_ws(s, i);
    match match_lit(s, p, ".sparse-switch") {
        Some(q) => match sparse_entries(s, q) {
            Ok((es, k)) => Ok((SparseSwitchDirective { entries: es }, k)),
            Err(e) => Err(e),
        },
        None => Err(ParseError::MalformedOperand(p)),
    }
}

// ---------------------------------------------------------------------------
// One operation of a method body.
// ---------------------------------------------------------------------------

/// One operation within a method body: a label, a line-number directive,
/// an instruction, or a catch, array-data or switch directive.
#[derive(Debug, PartialEq, Eq)]
pub enum Op {
    Label(Label),
    Line(u32),
    Op(DexOp),
    Catch(CatchDirective),
    ArrayData(ArrayDataDirective),
    PackedSwitch(PackedSwitchDirective),
    SparseSwitch(SparseSwitchDirective),
}

/// Mathematical model of an `Op`.
pub enum SpecOp {
    Label(Seq<char>),
    Line(u32),
    Op(SpecDexOp),
    Catch(SpecCatchDirective),
    ArrayData(SpecArrayDataDirective),
    PackedSwitch(SpecPackedSwitchDirective),
    SparseSwitch(SpecSparseSwitchDirective),
}

impl View for Op {
    type V = SpecOp;

    open spec fn view(&self) -> SpecOp {
        match self {
            Op::Label(l) => SpecOp::Label(l@),
            Op::Line(n) => SpecOp::Line(*n),
            Op::Op(d) => SpecOp::Op(d@),
            Op::Catch(c) => SpecOp::Catch(c@),
            Op::ArrayData(a) => SpecOp::ArrayData(a@),
            Op::PackedSwitch(p) => SpecOp::PackedSwitch(p@),
            Op::SparseSwitch(p) => SpecOp::SparseSwitch(p@),
        }
    }
}

/// Whether an operation carries what its rendering needs.
pub open spec fn spec_op_wf(o: SpecOp) -> bool {
    match o {
        SpecOp::Op(d) => spec_dex_op_wf(d),
        _ => true,
    }
}

/// The text of one operation, without indentation or trailing newline.
pub open spec fn spec_op_text(o: SpecOp) -> Seq<char> {
    match o {
        SpecOp::Label(n) => spec_label_text(n),
        SpecOp::Line(l) => ".line "@ + spec_dec_u64(l as int),
        SpecOp::Op(d) => spec_render_dex_op(d),
        SpecOp::Catch(c) => spec_catch_directive_text(c),
        SpecOp::ArrayData(a) => spec_array_data_text(a),
        SpecOp::PackedSwitch(p) => spec_packed_switch_text(p),
        SpecOp::SparseSwitch(p) => spec_sparse_switch_text(p),
    }
}

impl Op {
    /// Render this operation, without indentation or trailing newline.
    pub fn to_smali(&self) -> (r: String)
        requires
            spec_op_wf(self@),
        ensures
            r@ == spec_op_text(self@),
    {
        match self {
            Op::Label(l) => l.to_smali(),
            Op::Line(n) => {
                let mut s = String::from_str(".line ");
                let d = u64_to_dec(*n as u64);
                s.append(d.as_str());
                proof {
                    assert(s@ =~= spec_op_text(self@));
                }
                s
            },
            Op::Op(d) => d.to_smali(),
            Op::Catch(c) => c.to_smali(),
            Op::ArrayData(a) => a.to_smali(),
            Op::PackedSwitch(p) => p.to_smali(),
            Op::SparseSwitch(p) => p.to_smali(),
        }
    }
}

/// The operation grammar at `i`: a label, a `.line` directive, an
/// instruction, or a catch, array-data or switch directive, tried in that
/// order.
pub open spec fn spec_parse_op(s: Seq<char>, i: int) -> Option<(SpecOp, int)> {
    match spec_parse_label(s, i) {
        Some((n, j)) => Some((SpecOp::Label(n), j)),
        None => {
            let p = spec_skip_ws(s, i);
            if !(0 <= i <= p <= s.len()) {
                None
            } else if spec_match_at(s, p, ".line"@) {
                let q = p + ".line"@.len();
                let q2 = spec_skip_ws(s, q);
                if q <= q2 <= s.len() {
                    match int_lit_value(s, q2) {
                        Some((w, j)) => if 0 <= w <= u32::MAX {
                            Some((SpecOp::Line(w as u32), j))
                        } else {
                            None
                        },
                        None => None,
                    }
                } else {
                    None
                }
            } else {
                match spec_parse_dex_op(s, i) {
                    Some((d, j)) => Some((SpecOp::Op(d), j)),
                    None => match spec_parse_catch_directive(s, i) {
                        Some((c, j)) => Some((SpecOp::Catch(c), j)),
                        None => match spec_parse_array_data_directive(s, i) {
                            Some((a, j)) => Some((SpecOp::ArrayData(a), j)),
                            None => match spec_parse_packed_switch_directive(s, i) {
                                Some((ps, j)) => Some((SpecOp::PackedSwitch(ps), j)),
                                None => match spec_parse_sparse_switch_directive(s, i) {
                                    Some((ss, j)) => Some((SpecOp::SparseSwitch(ss), j)),
                                    None => None,
                                },
                            },
                        },
                    },
                }
            }
        },
    }
}

/// Parse one operation of a method body.
pub fn parse_op(s: &str, i: usize) -> (r: Result<(Op, usize), ParseError>)
    requires
        i <= s@.len(),
    ensures
        match spec_parse_op(s@, i as int) {
            Some((v, j)) => r matches Ok(p) && p.0@ == v && p.1 == j && i <= j <= s@.len(),
            None => r is Err,
        },
{
    match parse_label(s, i) {
        Ok((n, j)) => Ok((Op::Label(n), j)),
        Err(_) => {
            let p = skip_ws(s, i);
            match match_lit(s, p, ".line") {
                Some(q) => {
                    let q2 = skip_ws(s, q);
                    match parse_int_lit_u32(s, q2) {
                        Ok((w, j)) => Ok((Op::Line(w), j)),
                        Err(e) => Err(e),
                    }
                },
                None => match parse_dex_op(s, i) {
                    Ok((d, j)) => Ok((Op::Op(d), j)),
                    Err(_) => match parse_catch_directive(s, i) {
                        Ok((c, j)) => Ok((Op::Catch(c), j)),
                        Err(_) => match parse_array_data_directive(s, i) {
                            Ok((a, j)) => Ok((Op::ArrayData(a), j)),
                            Err(_) => match parse_packed_switch_directive(s, i) {
                                Ok((ps, j)) => Ok((Op::PackedSwitch(ps), j)),
                                Err(_) => match parse_sparse_switch_directive(s, i) {
                                    Ok((ss, j)) => Ok((Op::SparseSwitch(ss), j)),
                                    Err(e) => Err(e),
                                },
                            },
                        },
                    },
                },
            }
        },
    }
}

} // verus!
