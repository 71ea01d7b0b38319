//! A symbolic reference to a method, e.g.
//! `Ljava/lang/Object;-><init>()V`.

use vstd::prelude::*;
use vstd::string::*;

use crate::ParseError;
use crate::signature::method_signature::{
    MethodParameter, SpecMethodParameter, parse_method_parameter, spec_ms_jni,
    spec_parse_method_parameter,
};
use crate::signature::type_signature::{
    SpecTypeSignature, TypeSignature, parse_typesignature, spec_parse_typesignature,
    spec_ts_jni,
};
use crate::text::{spec_skip_ws, skip_ws};

verus! {

/// A symbolic reference to a method: its class and its
/// name-and-signature pair.
#[derive(Debug, PartialEq, Eq)]
pub struct MethodRef {
    pub class: TypeSignature,
    pub param: MethodParameter,
}

/// Mathematical model of a `MethodRef`.
pub struct SpecMethodRef {
    pub class: SpecTypeSignature,
    pub param: SpecMethodParameter,
}

impl View for MethodRef {
    type V = SpecMethodRef;

    open spec fn view(&self) -> SpecMethodRef {
        SpecMethodRef { class: self.class@, param: self.param@ }
    }
}

/// The text of a method reference: `<class>-><name><signature>`.
pub open spec fn spec_method_ref_text(m: SpecMethodRef) -> Seq<char> {
    spec_ts_jni(m.class) + seq!['-', '>'] + m.param.ident + spec_ms_jni(m.param.ms)
}

/// The method-reference grammar at `i`: a type signature, `->`, then a
/// name-and-signature pair.
pub open spec fn spec_parse_method_ref(s: Seq<char>, i: int) -> Option<(SpecMethodRef, int)> {
    match spec_parse_typesignature(s, i) {
        Some((class, j)) => {
            let j2 = spec_skip_ws(s, j);
            if j <= j2 && j2 + 2 <= s.len() && s[j2] == '-' && s[j2 + 1] == '>' {
                match spec_parse_method_parameter(s, j2 + 2) {
                    Some((param, k)) => Some((SpecMethodRef { class, param }, k)),
                    None => None,
                }
            } else {
                None
            }
        },
        None => None,
    }
}

impl MethodRef {
    /// Render this method reference: `<class>-><name><signature>`.
    pub fn to_smali(&self) -> (r: String)
        ensures
            r@ == spec_method_ref_text(self@),
    {
        let mut s = self.class.to_jni();
        s.push('-');
        s.push('>');
        s.append(self.param.ident.as_str());
        let ms = self.param.ms.to_jni();
        s.append(ms.as_str());
        proof {
            assert(s@ =~= spec_method_ref_text(self@));
        }
        s
    }
}

/// Parse a method reference.
pub fn parse_method_ref(s: &str, i: usize) -> (r: Result<(MethodRef, usize), ParseError>)
    requires
        i <= s@.len(),
    ensures
        match spec_parse_method_ref(s@, i as int) {
            Some((v, j)) => r matches Ok(p) && p.0@ == v && p.1 == j && i <= j <= s@.len(),
            None => r matches Err(e) && e is MalformedOperand,
        },
{
    match parse_typesignature(s, i) {
        Ok((class, j)) => {
            let j2 = skip_ws(s, j);
            if s.unicode_len() - j2 >= 2 && s.get_char(j2) == '-' && s.get_char(j2 + 1) == '>' {
                match parse_method_parameter(s, j2 + 2) {
                    Ok((param, k)) => Ok((MethodRef { class, param }, k)),
                    Err(e) => Err(e),
                }
            } else {
                Err(ParseError::MalformedOperand(j2))
            }
        },
        Err(e) => Err(e),
    }
}

} // verus!
