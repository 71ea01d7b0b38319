//! A symbolic reference to a field: `Lcom/example/MyClass;->myField:I`.

use vstd::prelude::*;
use vstd::string::*;

use crate::ParseError;
use crate::object_identifier::ObjectIdentifier;
use crate::signature::type_signature::{
    SpecObjectIdentifier, SpecTypeParameter, TypeParameter, jni_of_oid, oid_parse,
    spec_oid_jni, spec_parse_object_identifier, spec_parse_type_parameter, spec_ts_jni,
    parse_type_parameter,
};

verus! {

/// A symbolic reference to a field: its class and its name-and-type pair.
#[derive(Debug, PartialEq, Eq)]
pub struct FieldRef {
    pub class: ObjectIdentifier,
    pub param: TypeParameter,
}

/// Mathematical model of a `FieldRef`.
pub struct SpecFieldRef {
    pub class: SpecObjectIdentifier,
    pub param: SpecTypeParameter,
}

impl View for FieldRef {
    type V = SpecFieldRef;

    open spec fn view(&self) -> SpecFieldRef {
        SpecFieldRef { class: self.class@, param: self.param@ }
    }
}

/// The text of a field reference: `<class>-><name>:<type>`.
pub open spec fn spec_field_ref_text(f: SpecFieldRef) -> Seq<char> {
    spec_oid_jni(f.class) + seq!['-', '>'] + f.param.ident + seq![':'] + spec_ts_jni(
        f.param.ts,
    )
}

/// The field-reference grammar at `i`: an object identifier, `->`, then a
/// name-and-type pair.
pub open spec fn spec_parse_field_ref(s: Seq<char>, i: int) -> Option<(SpecFieldRef, int)> {
    match spec_parse_object_identifier(s, i) {
        Some((class, j)) => {
            if j + 2 <= s.len() && s[j] == '-' && s[j + 1] == '>' {
                match spec_parse_type_parameter(s, j + 2) {
                    Some((param, k)) => Some((SpecFieldRef { class, param }, k)),
                    None => None,
                }
            } else {
                None
            }
        },
        None => None,
    }
}

impl FieldRef {
    /// Render this field reference: `<class>-><name>:<type>`.
    pub fn to_smali(&self) -> (r: String)
        ensures
            r@ == spec_field_ref_text(self@),
    {
        let mut s = jni_of_oid(&self.class);
        s.push('-');
        s.push('>');
        s.append(self.param.ident.as_str());
        s.push(':');
        let ts = self.param.ts.to_jni();
        s.append(ts.as_str());
        proof {
            assert(s@ =~= spec_field_ref_text(self@));
        }
        s
    }
}

/// Parse a field reference.
pub fn parse_field_ref(s: &str, i: usize) -> (r: Result<(FieldRef, usize), ParseError>)
    requires
        i <= s@.len(),
    ensures
        match spec_parse_field_ref(s@, i as int) {
            Some((v, j)) => r matches Ok(p) && p.0@ == v && p.1 == j && i <= j <= s@.len(),
            None => r matches Err(e) && e is MalformedOperand,
        },
{
    match oid_parse(s, i) {
        Ok((class, j)) => {
            if s.unicode_len() - j >= 2 && s.get_char(j) == '-' && s.get_char(j + 1) == '>' {
                match parse_type_parameter(s, j + 2) {
                    Ok((param, k)) => Ok((FieldRef { class, param }, k)),
                    Err(e) => Err(e),
                }
            } else {
                Err(ParseError::MalformedOperand(j))
            }
        },
        Err(e) => Err(e),
    }
}

} // verus!
