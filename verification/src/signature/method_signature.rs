//! Java method signatures: optional generic parameters, argument list,
//! return type and optional `throws` clause, in their JNI textual form.

use vstd::prelude::*;
use vstd::string::*;

use crate::ParseError;
use crate::signature::type_signature::{
    SpecTypeSignature, TypeSignature, jni_of_ts_vec, parse_ts_list, parse_typesignature,
    spec_parse_ts_list, spec_parse_typesignature, spec_ts_jni, spec_ts_seq_jni,
    spec_view_ts, spec_view_ts_seq,
};
use crate::text::{spec_skip_ws, skip_ws, spec_until_char, until_char};

verus! {

/// A method signature: arguments and result, with optional generic
/// parameters and an optional `throws` type.
#[derive(Debug, PartialEq, Eq)]
pub struct MethodSignature {
    pub type_parameters: Option<Vec<TypeSignature>>,
    pub args: Vec<TypeSignature>,
    pub result: TypeSignature,
    pub throws: Option<TypeSignature>,
}

/// An identifier together with a method signature, as in `<init>()V`.
#[derive(Debug, PartialEq, Eq)]
pub struct MethodParameter {
    pub ident: String,
    pub ms: MethodSignature,
}

/// Mathematical model of a `MethodSignature`.
pub struct SpecMethodSignature {
    pub type_parameters: Option<Seq<SpecTypeSignature>>,
    pub args: Seq<SpecTypeSignature>,
    pub result: SpecTypeSignature,
    pub throws: Option<SpecTypeSignature>,
}

/// Mathematical model of a `MethodParameter`.
pub struct SpecMethodParameter {
    pub ident: Seq<char>,
    pub ms: SpecMethodSignature,
}

impl View for MethodSignature {
    type V = SpecMethodSignature;

    open spec fn view(&self) -> SpecMethodSignature {
        SpecMethodSignature {
            type_parameters: match self.type_parameters {
                Some(v) => Some(spec_view_ts_seq(v@)),
                None => None,
            },
            args: spec_view_ts_seq(self.args@),
            result: spec_view_ts(self.result),
            throws: match self.throws {
                Some(t) => Some(spec_view_ts(t)),
                None => None,
            },
        }
    }
}

impl View for MethodParameter {
    type V = SpecMethodParameter;

    open spec fn view(&self) -> SpecMethodParameter {
        SpecMethodParameter { ident: self.ident@, ms: self.ms@ }
    }
}

/// The JNI text of a method signature.
pub open spec fn spec_ms_jni(m: SpecMethodSignature) -> Seq<char> {
    (match m.type_parameters {
        Some(l) => seq!['<'] + spec_ts_seq_jni(l, 0) + seq!['>'],
        None => Seq::empty(),
    }) + seq!['('] + spec_ts_seq_jni(m.args, 0) + seq![')'] + spec_ts_jni(m.result) + (
    match m.throws {
        Some(t) => seq!['^'] + spec_ts_jni(t),
        None => Seq::empty(),
    })
}

/// Completes the method-signature grammar from the argument list on, with
/// the already-parsed generic parameters handed in.
pub open spec fn spec_parse_ms_args(
    s: Seq<char>,
    tps: Option<Seq<SpecTypeSignature>>,
    p: int,
) -> Option<(SpecMethodSignature, int)> {
    if 0 <= p < s.len() && s[p] == '(' {
        match spec_parse_ts_list(s, p + 1, ')') {
            Some((args, p2)) => match spec_parse_typesignature(s, p2) {
                Some((ret, p3)) => {
                    let p3s = spec_skip_ws(s, p3);
                    if 0 <= p3s < s.len() && s[p3s] == '^' {
                        match spec_parse_typesignature(s, p3s + 1) {
                            Some((th, p4)) => Some(
                                (
                                    SpecMethodSignature {
                                        type_parameters: tps,
                                        args,
                                        result: ret,
                                        throws: Some(th),
                                    },
                                    p4,
                                ),
                            ),
                            None => Some(
                                (
                                    SpecMethodSignature {
                                        type_parameters: tps,
                                        args,
                                        result: ret,
                                        throws: None,
                                    },
                                    p3,
                                ),
                            ),
                        }
                    } else {
                        Some(
                            (
                                SpecMethodSignature {
                                    type_parameters: tps,
                                    args,
                                    result: ret,
                                    throws: None,
                                },
                                p3,
                            ),
                        )
                    }
                },
                None => None,
            },
            None => None,
        }
    } else {
        None
    }
}

/// The method-signature grammar at `i`: optional `<`-led generic
/// parameters, `(`-led arguments, return type, optional `^`-led throws.
pub open spec fn spec_parse_methodsignature(s: Seq<char>, i: int) -> Option<
    (SpecMethodSignature, int),
> {
    if !(0 <= i <= s.len()) {
        None
    } else if i < s.len() && s[i] == '<' {
        match spec_parse_ts_list(s, i + 1, '>') {
            Some((l, p1)) => spec_parse_ms_args(s, Some(l), p1),
            None => None,
        }
    } else {
        spec_parse_ms_args(s, None, i)
    }
}

/// The `ident(...)ret` grammar at `i`: everything before the first `(` is
/// the identifier, the rest a method signature.
pub open spec fn spec_parse_method_parameter(s: Seq<char>, i: int) -> Option<
    (SpecMethodParameter, int),
> {
    if !(0 <= i <= s.len()) {
        None
    } else {
        let e = spec_until_char(s, i, '(');
        if e < s.len() {
            match spec_parse_methodsignature(s, e) {
                Some((ms, j)) => Some((SpecMethodParameter { ident: s.subrange(i, e), ms }, j)),
                None => None,
            }
        } else {
            None
        }
    }
}

impl MethodSignature {
    /// Render this method signature in its JNI form.
    pub fn to_jni(&self) -> (r: String)
        ensures
            r@ == spec_ms_jni(self@),
    {
        let mut s = String::new();
        match &self.type_parameters {
            Some(v) => {
                s.push('<');
                let mid = jni_of_ts_vec(v, 0);
                s.append(mid.as_str());
                s.push('>');
            },
            None => {},
        }
        s.push('(');
        let args = jni_of_ts_vec(&self.args, 0);
        s.append(args.as_str());
        s.push(')');
        let ret = self.result.to_jni();
        s.append(ret.as_str());
        match &self.throws {
            Some(t) => {
                s.push('^');
                let th = t.to_jni();
                s.append(th.as_str());
            },
            None => {},
        }
        proof {
            assert(s@ =~= spec_ms_jni(self@));
        }
        s
    }

    /// Build a method signature from its JNI text, which must be valid.
    pub fn from_jni(s: &str) -> (r: MethodSignature)
        requires
            spec_parse_methodsignature(s@, 0) is Some,
        ensures
            match spec_parse_methodsignature(s@, 0) {
                Some((m, j)) => r@ == m,
                None => true,
            },
    {
        match parse_methodsignature(s, 0) {
            Ok((m, _)) => m,
            Err(_) => {
                proof {
                    assert(false);
                }
                MethodSignature {
                    type_parameters: None,
                    args: Vec::new(),
                    result: TypeSignature::Void,
                    throws: None,
                }
            },
        }
    }
}

/// Complete a method signature from the argument list on.
fn parse_ms_args(s: &str, tps: Option<Vec<TypeSignature>>, p: usize) -> (r: Result<
    (MethodSignature, usize),
    ParseError,
>)
    requires
        p <= s@.len(),
    ensures
        match spec_parse_ms_args(
            s@,
            match tps {
                Some(v) => Some(spec_view_ts_seq(v@)),
                None => None,
            },
            p as int,
        ) {
            Some((m, j)) => r matches Ok(q) && q.0@ == m && q.1 == j && p <= j <= s@.len(),
            None => r matches Err(e) && e is MalformedOperand,
        },
{
    if p < s.unicode_len() && s.get_char(p) == '(' {
        match parse_ts_list(s, p + 1, ')') {
            Ok((args, p2)) => match parse_typesignature(s, p2) {
                Ok((ret, p3)) => {
                    let p3s = skip_ws(s, p3);
                    if p3s < s.unicode_len() && s.get_char(p3s) == '^' {
                        match parse_typesignature(s, p3s + 1) {
                            Ok((th, p4)) => Ok(
                                (
                                    MethodSignature {
                                        type_parameters: tps,
                                        args,
                                        result: ret,
                                        throws: Some(th),
                                    },
                                    p4,
                                ),
                            ),
                            Err(_) => Ok(
                                (
                                    MethodSignature {
                                        type_parameters: tps,
                                        args,
                                        result: ret,
                                        throws: None,
                                    },
                                    p3,
                                ),
                            ),
                        }
                    } else {
                        Ok(
                            (
                                MethodSignature {
                                    type_parameters: tps,
                                    args,
                                    result: ret,
                                    throws: None,
                                },
                                p3,
                            ),
                        )
                    }
                },
                Err(e) => Err(e),
            },
            Err(e) => Err(e),
        }
    } else {
        Err(ParseError::MalformedOperand(p))
    }
}

/// Parse a method signature.
pub fn parse_methodsignature(s: &str, i: usize) -> (r: Result<(MethodSignature, usize),
    ParseError>)
    requires
        i <= s@.len(),
    ensures
        match spec_parse_methodsignature(s@, i as int) {
            Some((m, j)) => r matches Ok(q) && q.0@ == m && q.1 == j && i <= j <= s@.len(),
            None => r matches Err(e) && e is MalformedOperand,
        },
{
    if i < s.unicode_len() && s.get_char(i) == '<' {
        match parse_ts_list(s, i + 1, '>') {
            Ok((l, p1)) => parse_ms_args(s, Some(l), p1),
            Err(e) => Err(e),
        }
    } else {
        parse_ms_args(s, None, i)
    }
}

/// Parse an identifier followed by a method signature.
pub fn parse_method_parameter(s: &str, i: usize) -> (r: Result<(MethodParameter, usize),
    ParseError>)
    requires
        i <= s@.len(),
    ensures
        match spec_parse_method_parameter(s@, i as int) {
            Some((m, j)) => r matches Ok(q) && q.0@ == m && q.1 == j && i <= j <= s@.len(),
            None => r matches Err(e) && e is MalformedOperand,
        },
{
    let e = until_char(s, i, '(');
    if e < s.unicode_len() {
        match parse_methodsignature(s, e) {
            Ok((ms, j)) => {
                let ident = s.substring_char(i, e).to_owned();
                Ok((MethodParameter { ident, ms }, j))
            },
            Err(e2) => Err(e2),
        }
    } else {
        Err(ParseError::MalformedOperand(i))
    }
}

} // verus!
