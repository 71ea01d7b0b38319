//! Java type signatures in their JNI textual form: the recursive data type,
//! its mathematical view, the canonical renderer and the parser, with spec
//! definitions for both directions.

use vstd::prelude::*;
use vstd::string::*;

use crate::ParseError;
use crate::object_identifier::ObjectIdentifier;
use crate::text::{
    spec_ident_end, ident_end, spec_skip_ws, skip_ws, spec_until_char,
    until_char, spec_cname_end, cname_end,
};

verus! {

/// Represents a Java type: array, object or primitive type.
#[derive(Debug, PartialEq, Eq)]
pub enum TypeSignature {
    Array(Box<TypeSignature>),
    Object(Box<ObjectIdentifier>),
    Int,
    Bool,
    Byte,
    Char,
    Short,
    Long,
    Float,
    Double,
    Void,
    TypeParameters(Vec<TypeSignature>, Box<TypeSignature>),
    TypeParameter(Box<TypeParameter>),
    TypeVariableSignature(String),
    WildcardPlus,
    WildcardMinus,
    WildcardStar,
}

/// An identifier bound to a type, as in `CONSTANT_FIELD:I`.
#[derive(Debug, PartialEq, Eq)]
pub struct TypeParameter {
    pub ident: String,
    pub ts: TypeSignature,
}

/// Mathematical model of a `TypeSignature`.
pub enum SpecTypeSignature {
    Array(Box<SpecTypeSignature>),
    Object(Box<SpecObjectIdentifier>),
    Int,
    Bool,
    Byte,
    Char,
    Short,
    Long,
    Float,
    Double,
    Void,
    TypeParameters(Seq<SpecTypeSignature>, Box<SpecTypeSignature>),
    TypeParameter(Box<SpecTypeParameter>),
    TypeVariableSignature(Seq<char>),
    WildcardPlus,
    WildcardMinus,
    WildcardStar,
}

/// Mathematical model of an `ObjectIdentifier`.
pub struct SpecObjectIdentifier {
    pub class_name: Seq<char>,
    pub type_arguments: Option<Seq<SpecTypeSignature>>,
    pub suffix: Option<Seq<char>>,
}

/// Mathematical model of a `TypeParameter`.
pub struct SpecTypeParameter {
    pub ident: Seq<char>,
    pub ts: SpecTypeSignature,
}

pub open spec fn spec_view_ts(t: TypeSignature) -> SpecTypeSignature
    decreases t,
{
    match t {
        TypeSignature::Array(a) => SpecTypeSignature::Array(Box::new(spec_view_ts(*a))),
        TypeSignature::Object(o) => SpecTypeSignature::Object(Box::new(spec_view_oid(*o))),
        TypeSignature::Int => SpecTypeSignature::Int,
        TypeSignature::Bool => SpecTypeSignature::Bool,
        TypeSignature::Byte => SpecTypeSignature::Byte,
        TypeSignature::Char => SpecTypeSignature::Char,
        TypeSignature::Short => SpecTypeSignature::Short,
        TypeSignature::Long => SpecTypeSignature::Long,
        TypeSignature::Float => SpecTypeSignature::Float,
        TypeSignature::Double => SpecTypeSignature::Double,
        TypeSignature::Void => SpecTypeSignature::Void,
        TypeSignature::TypeParameters(ps, rest) => SpecTypeSignature::TypeParameters(
            spec_view_ts_seq(ps@),
            Box::new(spec_view_ts(*rest)),
        ),
        TypeSignature::TypeParameter(tp) => SpecTypeSignature::TypeParameter(
            Box::new(SpecTypeParameter { ident: tp.ident@, ts: spec_view_ts(tp.ts) }),
        ),
        TypeSignature::TypeVariableSignature(n) => SpecTypeSignature::TypeVariableSignature(n@),
        TypeSignature::WildcardPlus => SpecTypeSignature::WildcardPlus,
        TypeSignature::WildcardMinus => SpecTypeSignature::WildcardMinus,
        TypeSignature::WildcardStar => SpecTypeSignature::WildcardStar,
    }
}

pub open spec fn spec_view_ts_seq(l: Seq<TypeSignature>) -> Seq<SpecTypeSignature>
    decreases l, l.len(),
{
    if l.len() == 0 {
        Seq::empty()
    } else {
        seq![spec_view_ts(l[0])] + spec_view_ts_seq(l.drop_first())
    }
}

pub proof fn lemma_view_ts_seq_props(l: Seq<TypeSignature>)
    ensures
        spec_view_ts_seq(l).len() == l.len(),
        forall|k: int| 0 <= k < l.len() ==> spec_view_ts_seq(l)[k] == spec_view_ts(#[trigger] l[k]),
    decreases l.len(),
{
    if l.len() > 0 {
        lemma_view_ts_seq_props(l.drop_first());
        assert forall|k: int| 0 <= k < l.len() implies spec_view_ts_seq(l)[k] == spec_view_ts(
            #[trigger] l[k],
        ) by {
            if k > 0 {
                assert(l.drop_first()[k - 1] == l[k]);
                assert(spec_view_ts_seq(l.drop_first())[k - 1] == spec_view_ts(
                    l.drop_first()[k - 1],
                ));
            }
        }
    }
}

pub open spec fn spec_view_oid(o: ObjectIdentifier) -> SpecObjectIdentifier
    decreases o,
{
    SpecObjectIdentifier {
        class_name: o.class_name@,
        type_arguments: match o.type_arguments {
            Some(v) => Some(spec_view_ts_seq(v@)),
            None => None,
        },
        suffix: match o.suffix {
            Some(x) => Some(x@),
            None => None,
        },
    }
}

impl View for TypeSignature {
    type V = SpecTypeSignature;

    open spec fn view(&self) -> SpecTypeSignature {
        spec_view_ts(*self)
    }
}

impl View for TypeParameter {
    type V = SpecTypeParameter;

    open spec fn view(&self) -> SpecTypeParameter {
        SpecTypeParameter { ident: self.ident@, ts: spec_view_ts(self.ts) }
    }
}

// ---------------------------------------------------------------------------
// Rendering to the JNI form.
// ---------------------------------------------------------------------------

/// The JNI text of a type signature.
pub open spec fn spec_ts_jni(t: SpecTypeSignature) -> Seq<char>
    decreases t, 0int,
{
    match t {
        SpecTypeSignature::Array(a) => seq!['['] + spec_ts_jni(*a),
        SpecTypeSignature::Object(o) => spec_oid_jni(*o),
        SpecTypeSignature::Int => seq!['I'],
        SpecTypeSignature::Bool => seq!['Z'],
        SpecTypeSignature::Byte => seq!['B'],
        SpecTypeSignature::Char => seq!['C'],
        SpecTypeSignature::Short => seq!['S'],
        SpecTypeSignature::Long => seq!['J'],
        SpecTypeSignature::Float => seq!['F'],
        SpecTypeSignature::Double => seq!['D'],
        SpecTypeSignature::Void => seq!['V'],
        SpecTypeSignature::TypeParameters(ps, rest) => seq!['<'] + spec_ts_seq_jni(ps, 0)
            + seq!['>'] + spec_ts_jni(*rest),
        SpecTypeSignature::TypeParameter(tp) => tp.ident + seq![':'] + spec_ts_jni(tp.ts),
        SpecTypeSignature::TypeVariableSignature(n) => seq!['T'] + n + seq![';'],
        SpecTypeSignature::WildcardPlus => seq!['+'],
        SpecTypeSignature::WildcardMinus => seq!['-'],
        SpecTypeSignature::WildcardStar => seq!['*'],
    }
}

/// The concatenated JNI text of the signatures `l[k..]`.
pub open spec fn spec_ts_seq_jni(l: Seq<SpecTypeSignature>, k: int) -> Seq<char>
    decreases l, l.len() - k,
{
    if 0 <= k < l.len() {
        spec_ts_jni(l[k]) + spec_ts_seq_jni(l, k + 1)
    } else {
        Seq::empty()
    }
}

/// The JNI text of an object identifier, `L` to `;`.
pub open spec fn spec_oid_jni(o: SpecObjectIdentifier) -> Seq<char>
    decreases o, 1int,
{
    seq!['L'] + o.class_name + (match o.type_arguments {
        Some(l) => seq!['<'] + spec_ts_seq_jni(l, 0) + seq!['>'],
        None => Seq::empty(),
    }) + (match o.suffix {
        Some(x) => seq!['.'] + x,
        None => Seq::empty(),
    }) + seq![';']
}

impl TypeSignature {
    /// Render this type signature in its JNI form.
    pub fn to_jni(&self) -> (r: String)
        ensures
            r@ == spec_ts_jni(self@),
        decreases *self, 0int,
    {
        match self {
            TypeSignature::Array(a) => {
                let mut s = String::new();
                s.push('[');
                let inner = a.to_jni();
                s.append(inner.as_str());
                proof {
                    assert(s@ =~= spec_ts_jni(self@));
                }
                s
            },
            TypeSignature::Object(o) => jni_of_oid(o),
            TypeSignature::Int => {
                let mut s = String::new();
                s.push('I');
                proof {
                    assert(s@ =~= spec_ts_jni(self@));
                }
                s
            },
            TypeSignature::Bool => {
                let mut s = String::new();
                s.push('Z');
                proof {
                    assert(s@ =~= spec_ts_jni(self@));
                }
                s
            },
            TypeSignature::Byte => {
                let mut s = String::new();
                s.push('B');
                proof {
                    assert(s@ =~= spec_ts_jni(self@));
                }
                s
            },
            TypeSignature::Char => {
                let mut s = String::new();
                s.push('C');
                proof {
                    assert(s@ =~= spec_ts_jni(self@));
                }
                s
            },
            TypeSignature::Short => {
                let mut s = String::new();
                s.push('S');
                proof {
                    assert(s@ =~= spec_ts_jni(self@));
                }
                s
            },
            TypeSignature::Long => {
                let mut s = String::new();
                s.push('J');
                proof {
                    assert(s@ =~= spec_ts_jni(self@));
                }
                s
            },
            TypeSignature::Float => {
                let mut s = String::new();
                s.push('F');
                proof {
                    assert(s@ =~= spec_ts_jni(self@));
                }
                s
            },
            TypeSignature::Double => {
                let mut s = String::new();
                s.push('D');
                proof {
                    assert(s@ =~= spec_ts_jni(self@));
                }
                s
            },
            TypeSignature::Void => {
                let mut s = String::new();
                s.push('V');
                proof {
                    assert(s@ =~= spec_ts_jni(self@));
                }
                s
            },
            TypeSignature::TypeParameters(ps, rest) => {
                let mut s = String::new();
                s.push('<');
                let mid = jni_of_ts_vec(ps, 0);
                s.append(mid.as_str());
                s.push('>');
                let tail = rest.to_jni();
                s.append(tail.as_str());
                proof {
                    assert(s@ =~= spec_ts_jni(self@));
                }
                s
            },
            TypeSignature::TypeParameter(tp) => {
                let mut s = tp.ident.clone();
                s.push(':');
                let tail = tp.ts.to_jni();
                s.append(tail.as_str());
                proof {
                    assert(s@ =~= spec_ts_jni(self@));
                }
                s
            },
            TypeSignature::TypeVariableSignature(n) => {
                let mut s = String::new();
                s.push('T');
                s.append(n.as_str());
                s.push(';');
                proof {
                    assert(s@ =~= spec_ts_jni(self@));
                }
                s
            },
            TypeSignature::WildcardPlus => {
                let mut s = String::new();
                s.push('+');
                proof {
                    assert(s@ =~= spec_ts_jni(self@));
                }
                s
            },
            TypeSignature::WildcardMinus => {
                let mut s = String::new();
                s.push('-');
                proof {
                    assert(s@ =~= spec_ts_jni(self@));
                }
                s
            },
            TypeSignature::WildcardStar => {
                let mut s = String::new();
                s.push('*');
                proof {
                    assert(s@ =~= spec_ts_jni(self@));
                }
                s
            },
        }
    }
}

/// The Java-source text of a type signature; only arrays, primitives and
/// plain object names have one, anything else renders empty.
pub open spec fn spec_ts_java(t: SpecTypeSignature) -> Seq<char>
    decreases t,
{
    match t {
        SpecTypeSignature::Array(a) => spec_ts_java(*a) + "[]"@,
        SpecTypeSignature::Bool => "boolean"@,
        SpecTypeSignature::Byte => "byte"@,
        SpecTypeSignature::Char => "char"@,
        SpecTypeSignature::Short => "short"@,
        SpecTypeSignature::Int => "int"@,
        SpecTypeSignature::Long => "long"@,
        SpecTypeSignature::Float => "float"@,
        SpecTypeSignature::Double => "double"@,
        SpecTypeSignature::Object(o) => crate::object_identifier::spec_map_slash(o.class_name),
        SpecTypeSignature::Void => "void"@,
        _ => Seq::empty(),
    }
}

impl TypeSignature {
    /// Render this type signature in Java-source spelling.
    pub fn to_java(&self) -> (r: String)
        ensures
            r@ == spec_ts_java(self@),
        decreases *self,
    {
        match self {
            TypeSignature::Array(a) => {
                let mut s = a.to_java();
                s.append("[]");
                proof {
                    assert(s@ =~= spec_ts_java(self@));
                }
                s
            },
            TypeSignature::Bool => {
                let s = "boolean".to_owned();
                proof {
                    assert(s@ =~= spec_ts_java(self@));
                }
                s
            },
            TypeSignature::Byte => {
                let s = "byte".to_owned();
                proof {
                    assert(s@ =~= spec_ts_java(self@));
                }
                s
            },
            TypeSignature::Char => {
                let s = "char".to_owned();
                proof {
                    assert(s@ =~= spec_ts_java(self@));
                }
                s
            },
            TypeSignature::Short => {
                let s = "short".to_owned();
                proof {
                    assert(s@ =~= spec_ts_java(self@));
                }
                s
            },
            TypeSignature::Int => {
                let s = "int".to_owned();
                proof {
                    assert(s@ =~= spec_ts_java(self@));
                }
                s
            },
            TypeSignature::Long => {
                let s = "long".to_owned();
                proof {
                    assert(s@ =~= spec_ts_java(self@));
                }
                s
            },
            TypeSignature::Float => {
                let s = "float".to_owned();
                proof {
                    assert(s@ =~= spec_ts_java(self@));
                }
                s
            },
            TypeSignature::Double => {
                let s = "double".to_owned();
                proof {
                    assert(s@ =~= spec_ts_java(self@));
                }
                s
            },
            TypeSignature::Object(o) => {
                let s = o.as_java_type();
                proof {
                    assert(self@ == SpecTypeSignature::Object(
                        Box::new(spec_view_oid(**o)),
                    ));
                    assert(spec_view_oid(**o).class_name == o.class_name@);
                    assert(s@ =~= spec_ts_java(self@));
                }
                s
            },
            TypeSignature::Void => {
                let s = "void".to_owned();
                proof {
                    assert(s@ =~= spec_ts_java(self@));
                }
                s
            },
            TypeSignature::TypeParameters(_, _) => {
                let s = String::new();
                proof {
                    assert(s@ =~= spec_ts_java(self@));
                }
                s
            },
            TypeSignature::TypeParameter(_) => {
                let s = String::new();
                proof {
                    assert(s@ =~= spec_ts_java(self@));
                }
                s
            },
            TypeSignature::TypeVariableSignature(_) => {
                let s = String::new();
                proof {
                    assert(s@ =~= spec_ts_java(self@));
                }
                s
            },
            TypeSignature::WildcardPlus => {
                let s = String::new();
                proof {
                    assert(s@ =~= spec_ts_java(self@));
                }
                s
            },
            TypeSignature::WildcardMinus => {
                let s = String::new();
                proof {
                    assert(s@ =~= spec_ts_java(self@));
                }
                s
            },
            TypeSignature::WildcardStar => {
                let s = String::new();
                proof {
                    assert(s@ =~= spec_ts_java(self@));
                }
                s
            },
        }
    }

    /// Build a type signature from its JNI text, which must be valid.
    pub fn from_jni(s: &str) -> (r: TypeSignature)
        requires
            spec_parse_typesignature(s@, 0) is Some,
        ensures
            match spec_parse_typesignature(s@, 0) {
                Some((t, j)) => r@ == t,
                None => true,
            },
    {
        match parse_typesignature(s, 0) {
            Ok((t, _)) => t,
            Err(_) => {
                proof {
                    assert(false);
                }
                TypeSignature::Void
            },
        }
    }
}

/// Render the JNI text of the signatures `v[k..]`, concatenated.
pub fn jni_of_ts_vec(v: &Vec<TypeSignature>, k: usize) -> (r: String)
    requires
        k <= v@.len(),
    ensures
        r@ == spec_ts_seq_jni(spec_view_ts_seq(v@), k as int),
    decreases *v, v@.len() - k,
{
    proof {
        lemma_view_ts_seq_props(v@);
    }
    if k >= v.len() {
        let s = String::new();
        proof {
            assert(s@ =~= spec_ts_seq_jni(spec_view_ts_seq(v@), k as int));
        }
        s
    } else {
        let mut s = v[k].to_jni();
        let rest = jni_of_ts_vec(v, k + 1);
        s.append(rest.as_str());
        proof {
            assert(s@ =~= spec_ts_seq_jni(spec_view_ts_seq(v@), k as int));
        }
        s
    }
}

/// Render the JNI text of an object identifier, `L` to `;`.
pub fn jni_of_oid(o: &ObjectIdentifier) -> (r: String)
    ensures
        r@ == spec_oid_jni(spec_view_oid(*o)),
    decreases *o, 1int,
{
    let mut s = String::new();
    s.push('L');
    s.append(o.class_name.as_str());
    match &o.type_arguments {
        Some(v) => {
            s.push('<');
            let mid = jni_of_ts_vec(v, 0);
            s.append(mid.as_str());
            s.push('>');
        },
        None => {},
    }
    match &o.suffix {
        Some(x) => {
            s.push('.');
            s.append(x.as_str());
        },
        None => {},
    }
    s.push(';');
    proof {
        assert(s@ =~= spec_oid_jni(spec_view_oid(*o)));
    }
    s
}

// ---------------------------------------------------------------------------
// Parsing from the JNI form.
// ---------------------------------------------------------------------------

/// The type-signature grammar at `i`, after leading whitespace: primitives,
/// `<`-led parameter lists, object identifiers, `T`-led type variables,
/// `[`-led arrays, and `ident:type` pairs, tried in that order.
pub open spec fn spec_parse_typesignature(s: Seq<char>, i: int) -> Option<
    (SpecTypeSignature, int),
>
    decreases s.len() - i, 2int,
{
    let i0 = spec_skip_ws(s, i);
    if i < 0 || i0 < i || i0 >= s.len() {
        None
    } else {
        let c = s[i0];
        if c == 'Z' {
            Some((SpecTypeSignature::Bool, i0 + 1))
        } else if c == 'B' {
            Some((SpecTypeSignature::Byte, i0 + 1))
        } else if c == 'C' {
            Some((SpecTypeSignature::Char, i0 + 1))
        } else if c == 'S' {
            Some((SpecTypeSignature::Short, i0 + 1))
        } else if c == 'I' {
            Some((SpecTypeSignature::Int, i0 + 1))
        } else if c == 'J' {
            Some((SpecTypeSignature::Long, i0 + 1))
        } else if c == 'F' {
            Some((SpecTypeSignature::Float, i0 + 1))
        } else if c == 'D' {
            Some((SpecTypeSignature::Double, i0 + 1))
        } else if c == 'V' {
            Some((SpecTypeSignature::Void, i0 + 1))
        } else if c == '*' {
            Some((SpecTypeSignature::WildcardStar, i0 + 1))
        } else if c == '+' {
            Some((SpecTypeSignature::WildcardPlus, i0 + 1))
        } else if c == '-' {
            Some((SpecTypeSignature::WildcardMinus, i0 + 1))
        } else if c == '<' {
            match spec_parse_ts_list(s, i0 + 1, '>') {
                Some((ps, k)) => if i0 < k <= s.len() {
                    match spec_parse_typesignature(s, k) {
                        Some((rest, j)) => Some(
                            (SpecTypeSignature::TypeParameters(ps, Box::new(rest)), j),
                        ),
                        None => None,
                    }
                } else {
                    None
                },
                None => None,
            }
        } else if c == 'L' {
            match spec_parse_object_identifier(s, i0) {
                Some((o, j)) => Some((SpecTypeSignature::Object(Box::new(o)), j)),
                None => match spec_parse_type_parameter(s, i0) {
                    Some((tp, j)) => Some(
                        (SpecTypeSignature::TypeParameter(Box::new(tp)), j),
                    ),
                    None => None,
                },
            }
        } else if c == 'T' {
            let e = spec_until_char(s, i0 + 1, ';');
            if i0 + 1 <= e < s.len() && s[e] == ';' {
                Some((SpecTypeSignature::TypeVariableSignature(s.subrange(i0 + 1, e)), e + 1))
            } else {
                match spec_parse_type_parameter(s, i0) {
                    Some((tp, j)) => Some(
                        (SpecTypeSignature::TypeParameter(Box::new(tp)), j),
                    ),
                    None => None,
                }
            }
        } else if c == '[' {
            match spec_parse_typesignature(s, i0 + 1) {
                Some((inner, j)) => Some((SpecTypeSignature::Array(Box::new(inner)), j)),
                None => None,
            }
        } else {
            match spec_parse_type_parameter(s, i0) {
                Some((tp, j)) => Some((SpecTypeSignature::TypeParameter(Box::new(tp)), j)),
                None => None,
            }
        }
    }
}

/// The `ident:type` grammar at `i`.
pub open spec fn spec_parse_type_parameter(s: Seq<char>, i: int) -> Option<
    (SpecTypeParameter, int),
>
    decreases s.len() - i, 0int,
{
    if i < 0 || i > s.len() {
        None
    } else {
        let e = spec_ident_end(s, i);
        if i <= e < s.len() && s[e] == ':' {
            match spec_parse_typesignature(s, e + 1) {
                Some((ts, j)) => Some((SpecTypeParameter { ident: s.subrange(i, e), ts }, j)),
                None => None,
            }
        } else {
            None
        }
    }
}

/// Completes an object identifier after its type arguments: the optional
/// `.suffix` part and the closing `;`.
pub open spec fn spec_oid_rest(
    s: Seq<char>,
    name: Seq<char>,
    args: Option<Seq<SpecTypeSignature>>,
    p: int,
) -> Option<(SpecObjectIdentifier, int)> {
    if 0 <= p < s.len() && s[p] == '.' {
        let e = spec_until_char(s, p + 1, ';');
        if p + 1 <= e < s.len() && s[e] == ';' {
            Some(
                (
                    SpecObjectIdentifier {
                        class_name: name,
                        type_arguments: args,
                        suffix: Some(s.subrange(p + 1, e)),
                    },
                    e + 1,
                ),
            )
        } else {
            None
        }
    } else if 0 <= p < s.len() && s[p] == ';' {
        Some(
            (
                SpecObjectIdentifier { class_name: name, type_arguments: args, suffix: None },
                p + 1,
            ),
        )
    } else {
        None
    }
}

/// The object-identifier grammar at `i`: `L`, the class name, optional
/// `<`-led type arguments, an optional `.suffix`, and `;`.
pub open spec fn spec_parse_object_identifier(s: Seq<char>, i: int) -> Option<
    (SpecObjectIdentifier, int),
>
    decreases s.len() - i, 1int,
{
    if !(0 <= i < s.len()) || s[i] != 'L' {
        None
    } else {
        let e1 = spec_cname_end(s, i + 1);
        if !(i + 1 <= e1 <= s.len()) {
            None
        } else {
            let name = s.subrange(i + 1, e1);
            if e1 < s.len() && s[e1] == '<' {
                match spec_parse_ts_list(s, e1 + 1, '>') {
                    Some((args, p2)) => if e1 < p2 <= s.len() {
                        spec_oid_rest(s, name, Some(args), p2)
                    } else {
                        None
                    },
                    None => None,
                }
            } else {
                spec_oid_rest(s, name, None, e1)
            }
        }
    }
}

/// Zero or more type signatures up to and including the terminator `term`.
pub open spec fn spec_parse_ts_list(s: Seq<char>, i: int, term: char) -> Option<
    (Seq<SpecTypeSignature>, int),
>
    decreases s.len() - i, 3int,
{
    if i < 0 {
        None
    } else {
        let p0 = spec_skip_ws(s, i);
        if !(i <= p0 <= s.len()) {
            None
        } else if p0 < s.len() && s[p0] == term {
            Some((Seq::empty(), p0 + 1))
        } else {
            match spec_parse_typesignature(s, p0) {
                Some((t, j)) => if p0 < j <= s.len() {
                    match spec_parse_ts_list(s, j, term) {
                        Some((rest, k)) => Some((seq![t] + rest, k)),
                        None => None,
                    }
                } else {
                    None
                },
                None => None,
            }
        }
    }
}

/// A `<`-led list of type signatures, as used for generic parameters.
pub open spec fn spec_parse_type_parameters(s: Seq<char>, i: int) -> Option<
    (Seq<SpecTypeSignature>, int),
> {
    if 0 <= i < s.len() && s[i] == '<' {
        spec_parse_ts_list(s, i + 1, '>')
    } else {
        None
    }
}

proof fn lemma_view_ts_seq_insert0(l: Seq<TypeSignature>, t: TypeSignature)
    ensures
        spec_view_ts_seq(l.insert(0, t)) =~= seq![spec_view_ts(t)] + spec_view_ts_seq(l),
{
    assert(l.insert(0, t).len() == l.len() + 1);
    assert(l.insert(0, t)[0] == t);
    assert(l.insert(0, t).drop_first() =~= l);
}

/// Parse one type signature, leading whitespace included.
pub fn parse_typesignature(s: &str, i: usize) -> (r: Result<(TypeSignature, usize), ParseError>)
    requires
        i <= s@.len(),
    ensures
        match spec_parse_typesignature(s@, i as int) {
            Some((v, j)) => r matches Ok(p) && p.0@ == v && p.1 == j && i <= j <= s@.len(),
            None => r matches Err(e) && e is MalformedOperand,
        },
    decreases s@.len() - i, 2int,
{
    let i0 = skip_ws(s, i);
    if i0 >= s.unicode_len() {
        return Err(ParseError::MalformedOperand(i0));
    }
    let c = s.get_char(i0);
    if c == 'Z' {
        Ok((TypeSignature::Bool, i0 + 1))
    } else if c == 'B' {
        Ok((TypeSignature::Byte, i0 + 1))
    } else if c == 'C' {
        Ok((TypeSignature::Char, i0 + 1))
    } else if c == 'S' {
        Ok((TypeSignature::Short, i0 + 1))
    } else if c == 'I' {
        Ok((TypeSignature::Int, i0 + 1))
    } else if c == 'J' {
        Ok((TypeSignature::Long, i0 + 1))
    } else if c == 'F' {
        Ok((TypeSignature::Float, i0 + 1))
    } else if c == 'D' {
        Ok((TypeSignature::Double, i0 + 1))
    } else if c == 'V' {
        Ok((TypeSignature::Void, i0 + 1))
    } else if c == '*' {
        Ok((TypeSignature::WildcardStar, i0 + 1))
    } else if c == '+' {
        Ok((TypeSignature::WildcardPlus, i0 + 1))
    } else if c == '-' {
        Ok((TypeSignature::WildcardMinus, i0 + 1))
    } else if c == '<' {
        match parse_ts_list(s, i0 + 1, '>') {
            Ok((ps, k)) => match parse_typesignature(s, k) {
                Ok((rest, j)) => Ok((TypeSignature::TypeParameters(ps, Box::new(rest)), j)),
                Err(e) => Err(e),
            },
            Err(e) => Err(e),
        }
    } else if c == 'L' {
        match oid_parse(s, i0) {
            Ok((o, j)) => Ok((TypeSignature::Object(Box::new(o)), j)),
            Err(_) => match parse_type_parameter(s, i0) {
                Ok((tp, j)) => Ok((TypeSignature::TypeParameter(Box::new(tp)), j)),
                Err(e) => Err(e),
            },
        }
    } else if c == 'T' {
        let e = until_char(s, i0 + 1, ';');
        if e < s.unicode_len() {
            let name = s.substring_char(i0 + 1, e).to_owned();
            Ok((TypeSignature::TypeVariableSignature(name), e + 1))
        } else {
            match parse_type_parameter(s, i0) {
                Ok((tp, j)) => Ok((TypeSignature::TypeParameter(Box::new(tp)), j)),
                Err(e) => Err(e),
            }
        }
    } else if c == '[' {
        match parse_typesignature(s, i0 + 1) {
            Ok((inner, j)) => Ok((TypeSignature::Array(Box::new(inner)), j)),
            Err(e) => Err(e),
        }
    } else {
        match parse_type_parameter(s, i0) {
            Ok((tp, j)) => Ok((TypeSignature::TypeParameter(Box::new(tp)), j)),
            Err(e) => Err(e),
        }
    }
}

/// Parse an `ident:type` pair.
pub fn parse_type_parameter(s: &str, i: usize) -> (r: Result<(TypeParameter, usize), ParseError>)
    requires
        i <= s@.len(),
    ensures
        match spec_parse_type_parameter(s@, i as int) {
            Some((v, j)) => r matches Ok(p) && p.0@ == v && p.1 == j && i <= j <= s@.len(),
            None => r matches Err(e) && e is MalformedOperand,
        },
    decreases s@.len() - i, 0int,
{
    let e = ident_end(s, i);
    if e < s.unicode_len() && s.get_char(e) == ':' {
        match parse_typesignature(s, e + 1) {
            Ok((ts, j)) => {
                let ident = s.substring_char(i, e).to_owned();
                Ok((TypeParameter { ident, ts }, j))
            },
            Err(e2) => Err(e2),
        }
    } else {
        Err(ParseError::MalformedOperand(i))
    }
}

/// Parse an object identifier, `L` to `;`.
pub fn oid_parse(s: &str, i: usize) -> (r: Result<(ObjectIdentifier, usize), ParseError>)
    requires
        i <= s@.len(),
    ensures
        match spec_parse_object_identifier(s@, i as int) {
            Some((v, j)) => r matches Ok(p) && p.0@ == v && p.1 == j && i <= j <= s@.len(),
            None => r matches Err(e) && e is MalformedOperand,
        },
    decreases s@.len() - i, 1int,
{
    if i >= s.unicode_len() || s.get_char(i) != 'L' {
        return Err(ParseError::MalformedOperand(i));
    }
    let e1 = cname_end(s, i + 1);
    let name = s.substring_char(i + 1, e1).to_owned();
    if e1 < s.unicode_len() && s.get_char(e1) == '<' {
        match parse_ts_list(s, e1 + 1, '>') {
            Ok((args, p2)) => oid_rest(s, name, Some(args), p2, Ghost(i as int)),
            Err(e) => Err(e),
        }
    } else {
        oid_rest(s, name, None, e1, Ghost(i as int))
    }
}

/// Complete an object identifier after its type arguments.
fn oid_rest(s: &str, name: String, args: Option<Vec<TypeSignature>>, p: usize, start: Ghost<int>)
    -> (r: Result<(ObjectIdentifier, usize), ParseError>)
    requires
        p <= s@.len(),
    ensures
        match spec_oid_rest(
            s@,
            name@,
            match args {
                Some(v) => Some(spec_view_ts_seq(v@)),
                None => None,
            },
            p as int,
        ) {
            Some((v, j)) => r matches Ok(q) && q.0@ == v && q.1 == j && p <= j <= s@.len(),
            None => r matches Err(e) && e is MalformedOperand,
        },
{
    if p < s.unicode_len() && s.get_char(p) == '.' {
        let e = until_char(s, p + 1, ';');
        if e < s.unicode_len() {
            let sfx = s.substring_char(p + 1, e).to_owned();
            Ok(
                (
                    ObjectIdentifier {
                        class_name: name,
                        type_arguments: args,
                        suffix: Some(sfx),
                    },
                    e + 1,
                ),
            )
        } else {
            Err(ParseError::MalformedOperand(p))
        }
    } else if p < s.unicode_len() && s.get_char(p) == ';' {
        Ok((ObjectIdentifier { class_name: name, type_arguments: args, suffix: None }, p + 1))
    } else {
        Err(ParseError::MalformedOperand(p))
    }
}

/// Parse zero or more type signatures up to and including `term`.
pub fn parse_ts_list(s: &str, i: usize, term: char) -> (r: Result<(Vec<TypeSignature>, usize),
    ParseError>)
    requires
        i <= s@.len(),
    ensures
        match spec_parse_ts_list(s@, i as int, term) {
            Some((l, j)) => r matches Ok(p) && spec_view_ts_seq(p.0@) == l && p.1 == j && i <= j
                <= s@.len(),
            None => r matches Err(e) && e is MalformedOperand,
        },
    decreases s@.len() - i, 3int,
{
    let p0 = skip_ws(s, i);
    if p0 < s.unicode_len() && s.get_char(p0) == term {
        let v: Vec<TypeSignature> = Vec::new();
        proof {
            assert(spec_view_ts_seq(v@) =~= Seq::<SpecTypeSignature>::empty());
        }
        Ok((v, p0 + 1))
    } else {
        match parse_typesignature(s, p0) {
            Ok((t, j)) => {
                if j <= p0 {
                    return Err(ParseError::MalformedOperand(p0));
                }
                match parse_ts_list(s, j, term) {
                    Ok((mut rest, k)) => {
                        proof {
                            lemma_view_ts_seq_insert0(rest@, t);
                        }
                        rest.insert(0, t);
                        Ok((rest, k))
                    },
                    Err(e) => Err(e),
                }
            },
            Err(e) => Err(e),
        }
    }
}

/// Parse a `<`-led list of type signatures, as used for generic parameters.
pub fn parse_type_parameters(s: &str, i: usize) -> (r: Result<(Vec<TypeSignature>, usize),
    ParseError>)
    requires
        i <= s@.len(),
    ensures
        match spec_parse_type_parameters(s@, i as int) {
            Some((l, j)) => r matches Ok(p) && spec_view_ts_seq(p.0@) == l && p.1 == j && i <= j
                <= s@.len(),
            None => r matches Err(e) && e is MalformedOperand,
        },
{
    if i < s.unicode_len() && s.get_char(i) == '<' {
        parse_ts_list(s, i + 1, '>')
    } else {
        Err(ParseError::MalformedOperand(i))
    }
}

} // verus!
