//! A Java object identifier, e.g. `java.lang.Object`, stored in its smali
//! (JNI) spelling `Ljava/lang/Object;`.

use vstd::prelude::*;
use vstd::string::*;

use crate::ParseError;
use crate::signature::type_signature::{
    SpecObjectIdentifier, TypeSignature, jni_of_oid, oid_parse, spec_oid_jni,
    spec_parse_object_identifier, spec_view_oid,
};

verus! {

/// A Java object identifier: the class name with `/` separators, optional
/// generic type arguments, and an optional `.suffix` member part.
#[derive(Debug, PartialEq, Eq)]
pub struct ObjectIdentifier {
    pub class_name: String,
    pub type_arguments: Option<Vec<TypeSignature>>,
    pub suffix: Option<String>,
}

impl View for ObjectIdentifier {
    type V = SpecObjectIdentifier;

    open spec fn view(&self) -> SpecObjectIdentifier {
        spec_view_oid(*self)
    }
}

/// The class name with every `/` replaced by `.`.
pub open spec fn spec_map_slash(s: Seq<char>) -> Seq<char> {
    Seq::new(
        s.len(),
        |k: int|
            if s[k] == '/' {
                '.'
            } else {
                s[k]
            },
    )
}

impl ObjectIdentifier {
    /// The JNI spelling, `L` to `;`, type arguments and suffix included.
    pub fn as_jni_type(&self) -> (r: String)
        ensures
            r@ == spec_oid_jni(self@),
    {
        jni_of_oid(self)
    }

    /// The Java spelling of the class name: `/` becomes `.`.
    pub fn as_java_type(&self) -> (r: String)
        ensures
            r@ == spec_map_slash(self.class_name@),
    {
        let mut out = String::new();
        let n = self.class_name.as_str().unicode_len();
        let mut k: usize = 0;
        while k < n
            invariant
                k <= n,
                n == self.class_name@.len(),
                out@ =~= spec_map_slash(self.class_name@).subrange(0, k as int),
            decreases n - k,
        {
            let c = self.class_name.as_str().get_char(k);
            if c == '/' {
                out.push('.');
            } else {
                out.push(c);
            }
            k += 1;
            proof {
                assert(out@ =~= spec_map_slash(self.class_name@).subrange(0, k as int));
            }
        }
        proof {
            assert(out@ =~= spec_map_slash(self.class_name@));
        }
        out
    }
}

/// Parse an object identifier, `L` to `;`.
pub fn parse_object_identifier(s: &str, i: usize) -> (r: Result<(ObjectIdentifier, usize),
    ParseError>)
    requires
        i <= s@.len(),
    ensures
        match spec_parse_object_identifier(s@, i as int) {
            Some((v, j)) => r matches Ok(p) && p.0@ == v && p.1 == j && i <= j <= s@.len(),
            None => r matches Err(e) && e is MalformedOperand,
        },
{
    oid_parse(s, i)
}

} // verus!
