//! A smali class: the whole document, with its header, interfaces,
//! annotations, fields and methods.

use vstd::prelude::*;
use vstd::string::*;

use crate::ParseError;
use crate::annotation::{
    Annotation, SpecAnnotation, parse_annotations, spec_annotation_text,
    spec_parse_annotations, spec_view_ann_seq, write_annotation, lemma_view_ann_seq_props,
};
use crate::field::{Field, SpecField, parse_field, spec_parse_field};
use crate::method::{
    Method, SpecMethod, parse_method, spec_method_text, spec_method_wf, spec_parse_method,
    write_method,
};
use crate::modifier::{Modifier, parse_modifiers, spec_parse_modifiers, spec_modifiers_text,
    write_modifiers};
use crate::object_identifier::{ObjectIdentifier, parse_object_identifier};
use crate::signature::type_signature::{
    SpecObjectIdentifier, jni_of_oid, spec_oid_jni,
    spec_parse_object_identifier, spec_ts_jni,
};
use crate::text::{
    match_lit, parse_string_lit, skip_ws, spec_match_at, spec_parse_string_lit, spec_skip_ws,
};

verus! {

/// A smali class, i.e. the whole `.smali` document.
#[derive(Debug, PartialEq, Eq)]
pub struct Class {
    /// The name of this class.
    pub name: ObjectIdentifier,
    /// Class modifiers.
    pub modifiers: Vec<Modifier>,
    /// The source filename, if included in the document.
    pub source: Option<String>,
    /// The superclass.
    pub super_class: ObjectIdentifier,
    /// The interfaces the class implements.
    pub implements: Vec<ObjectIdentifier>,
    /// Class level annotations.
    pub annotations: Vec<Annotation>,
    /// The fields defined by the class.
    pub fields: Vec<Field>,
    /// The methods defined by the class.
    pub methods: Vec<Method>,
}

/// Mathematical model of a `Class`.
pub struct SpecClass {
    pub name: SpecObjectIdentifier,
    pub modifiers: Seq<Modifier>,
    pub source: Option<Seq<char>>,
    pub super_class: SpecObjectIdentifier,
    pub implements: Seq<SpecObjectIdentifier>,
    pub annotations: Seq<SpecAnnotation>,
    pub fields: Seq<SpecField>,
    pub methods: Seq<SpecMethod>,
}

/// The views of a sequence of object identifiers.
pub open spec fn spec_view_oids(l: Seq<ObjectIdentifier>) -> Seq<SpecObjectIdentifier> {
    Seq::new(l.len(), |k: int| l[k]@)
}

/// The views of a sequence of fields.
pub open spec fn spec_view_fields(l: Seq<Field>) -> Seq<SpecField> {
    Seq::new(l.len(), |k: int| l[k]@)
}

/// The views of a sequence of methods.
pub open spec fn spec_view_methods(l: Seq<Method>) -> Seq<SpecMethod> {
    Seq::new(l.len(), |k: int| l[k]@)
}

impl View for Class {
    type V = SpecClass;

    open spec fn view(&self) -> SpecClass {
        SpecClass {
            name: self.name@,
            modifiers: self.modifiers@,
            source: match self.source {
                Some(v) => Some(v@),
                None => None,
            },
            super_class: self.super_class@,
            implements: spec_view_oids(self.implements@),
            annotations: spec_view_ann_seq(self.annotations@),
            fields: spec_view_fields(self.fields@),
            methods: spec_view_methods(self.methods@),
        }
    }
}

/// Whether every method of a class carries what rendering needs.
pub open spec fn spec_class_wf(c: SpecClass) -> bool {
    forall|k: int| 0 <= k < c.methods.len() ==> spec_method_wf(#[trigger] c.methods[k])
}

/// Zero or more `.implements` declarations.
pub open spec fn spec_parse_implements(s: Seq<char>, i: int) -> (Seq<SpecObjectIdentifier>,
    int)
    decreases s.len() - i,
{
    if !(0 <= i <= s.len()) {
        (Seq::empty(), i)
    } else {
        let p = spec_skip_ws(s, i);
        if i <= p <= s.len() && spec_match_at(s, p, ".implements"@) {
            let q = spec_skip_ws(s, p + ".implements"@.len());
            if p < q <= s.len() {
                match spec_parse_object_identifier(s, q) {
                    Some((o, j)) => if i < j <= s.len() {
                        let rest = spec_parse_implements(s, j);
                        (seq![o] + rest.0, rest.1)
                    } else {
                        (Seq::empty(), i)
                    },
                    None => (Seq::empty(), i),
                }
            } else {
                (Seq::empty(), i)
            }
        } else {
            (Seq::empty(), i)
        }
    }
}

fn parse_implements(s: &str, i: usize) -> (r: (Vec<ObjectIdentifier>, usize))
    requires
        i <= s@.len(),
    ensures
        spec_view_oids(r.0@) == spec_parse_implements(s@, i as int).0,
        r.1 == spec_parse_implements(s@, i as int).1,
        i <= r.1 <= s@.len(),
    decreases s@.len() - i,
{
    proof {
        reveal_strlit(".implements");
    }
    let p = skip_ws(s, i);
    match match_lit(s, p, ".implements") {
        Some(q0) => {
            let q = skip_ws(s, q0);
            match parse_object_identifier(s, q) {
                Ok((o, j)) => {
                    if j <= i {
                        let e: Vec<ObjectIdentifier> = Vec::new();
                        proof {
                            assert(spec_view_oids(e@) =~= Seq::<SpecObjectIdentifier>::empty());
                        }
                        return (e, i);
                    }
                    let (mut rest, end) = parse_implements(s, j);
                    proof {
                        assert(spec_view_oids(rest@.insert(0, o)) =~= seq![o@]
                            + spec_view_oids(rest@));
                    }
                    rest.insert(0, o);
                    (rest, end)
                },
                Err(_) => {
                    let e: Vec<ObjectIdentifier> = Vec::new();
                    proof {
                        assert(spec_view_oids(e@) =~= Seq::<SpecObjectIdentifier>::empty());
                    }
                    (e, i)
                },
            }
        },
        None => {
            let e: Vec<ObjectIdentifier> = Vec::new();
            proof {
                assert(spec_view_oids(e@) =~= Seq::<SpecObjectIdentifier>::empty());
            }
            (e, i)
        },
    }
}

/// Zero or more `.field` declarations.
pub open spec fn spec_parse_fields(s: Seq<char>, i: int) -> (Seq<SpecField>, int)
    decreases s.len() - i,
{
    if !(0 <= i <= s.len()) {
        (Seq::empty(), i)
    } else {
        match spec_parse_field(s, i) {
            Some((v, j)) => if i < j <= s.len() {
                let rest = spec_parse_fields(s, j);
                (seq![v] + rest.0, rest.1)
            } else {
                (Seq::empty(), i)
            },
            None => (Seq::empty(), i),
        }
    }
}

fn parse_fields(s: &str, i: usize) -> (r: (Vec<Field>, usize))
    requires
        i <= s@.len(),
    ensures
        spec_view_fields(r.0@) == spec_parse_fields(s@, i as int).0,
        r.1 == spec_parse_fields(s@, i as int).1,
        i <= r.1 <= s@.len(),
    decreases s@.len() - i,
{
    match parse_field(s, i) {
        Ok((v, j)) => {
            if j <= i {
                let e: Vec<Field> = Vec::new();
                proof {
                    assert(spec_view_fields(e@) =~= Seq::<SpecField>::empty());
                }
                return (e, i);
            }
            let (mut rest, end) = parse_fields(s, j);
            proof {
                assert(spec_view_fields(rest@.insert(0, v)) =~= seq![v@] + spec_view_fields(
                    rest@,
                ));
            }
            rest.insert(0, v);
            (rest, end)
        },
        Err(_) => {
            let e: Vec<Field> = Vec::new();
            proof {
                assert(spec_view_fields(e@) =~= Seq::<SpecField>::empty());
            }
            (e, i)
        },
    }
}

/// Zero or more `.method` blocks.
pub open spec fn spec_parse_methods(s: Seq<char>, i: int) -> (Seq<SpecMethod>, int)
    decreases s.len() - i,
{
    if !(0 <= i <= s.len()) {
        (Seq::empty(), i)
    } else {
        match spec_parse_method(s, i) {
            Some((v, j)) => if i < j <= s.len() {
                let rest = spec_parse_methods(s, j);
                (seq![v] + rest.0, rest.1)
            } else {
                (Seq::empty(), i)
            },
            None => (Seq::empty(), i),
        }
    }
}

fn parse_methods(s: &str, i: usize) -> (r: (Vec<Method>, usize))
    requires
        i <= s@.len(),
    ensures
        spec_view_methods(r.0@) == spec_parse_methods(s@, i as int).0,
        r.1 == spec_parse_methods(s@, i as int).1,
        i <= r.1 <= s@.len(),
    decreases s@.len() - i,
{
    match parse_method(s, i) {
        Ok((v, j)) => {
            if j <= i {
                let e: Vec<Method> = Vec::new();
                proof {
                    assert(spec_view_methods(e@) =~= Seq::<SpecMethod>::empty());
                }
                return (e, i);
            }
            let (mut rest, end) = parse_methods(s, j);
            proof {
                assert(spec_view_methods(rest@.insert(0, v)) =~= seq![v@]
                    + spec_view_methods(rest@));
            }
            rest.insert(0, v);
            (rest, end)
        },
        Err(_) => {
            let e: Vec<Method> = Vec::new();
            proof {
                assert(spec_view_methods(e@) =~= Seq::<SpecMethod>::empty());
            }
            (e, i)
        },
    }
}

/// The class grammar at `i`: the `.class` header, the `.super` line, an
/// optional `.source` line, the interfaces, annotations, fields and
/// methods.
pub open spec fn spec_parse_class(s: Seq<char>, i: int) -> Option<(SpecClass, int)> {
    let p = spec_skip_ws(s, i);
    if !(0 <= i <= p <= s.len()) {
        None
    } else if spec_match_at(s, p, ".class"@) {
        let m = spec_parse_modifiers(s, p + ".class"@.len());
        let p2 = spec_skip_ws(s, m.1);
        if m.1 <= p2 <= s.len() {
            match spec_parse_object_identifier(s, p2) {
                Some((name, j)) => {
                    let p3 = spec_skip_ws(s, j);
                    if j <= p3 <= s.len() && spec_match_at(s, p3, ".super"@) {
                        let q = spec_skip_ws(s, p3 + ".super"@.len());
                        if p3 < q <= s.len() {
                            match spec_parse_object_identifier(s, q) {
                                Some((sup, j2)) => {
                                    let p4 = spec_skip_ws(s, j2);
                                    let src = if j2 <= p4 <= s.len() && spec_match_at(
                                        s,
                                        p4,
                                        ".source"@,
                                    ) {
                                        match spec_parse_string_lit(
                                            s,
                                            p4 + ".source"@.len(),
                                        ) {
                                            Some((t, j3)) => (Some(t), j3),
                                            None => (None, j2),
                                        }
                                    } else {
                                        (None, j2)
                                    };
                                    let imp = spec_parse_implements(s, src.1);
                                    let anns = spec_parse_annotations(s, imp.1);
                                    let flds = spec_parse_fields(s, anns.1);
                                    let mths = spec_parse_methods(s, flds.1);
                                    Some(
                                        (
                                            SpecClass {
                                                name,
                                                modifiers: m.0,
                                                source: src.0,
                                                super_class: sup,
                                                implements: imp.0,
                                                annotations: anns.0,
                                                fields: flds.0,
                                                methods: mths.0,
                                            },
                                            mths.1,
                                        ),
                                    )
                                },
                                None => None,
                            }
                        } else {
                            None
                        }
                    } else {
                        None
                    }
                },
                None => None,
            }
        } else {
            None
        }
    } else {
        None
    }
}

/// Parse a whole smali class document.
#[verifier::rlimit(100)]
pub fn parse_class(s: &str, i: usize) -> (r: Result<(Class, usize), ParseError>)
    requires
        i <= s@.len(),
    ensures
        match spec_parse_class(s@, i as int) {
            Some((v, j)) => r matches Ok(p) && p.0@ == v && p.1 == j && i <= j <= s@.len(),
            None => r is Err,
        },
{
    proof {
        reveal_strlit(".super");
    }
    let p = skip_ws(s, i);
    match match_lit(s, p, ".class") {
        Some(q) => {
            let (mods, m_end) = parse_modifiers(s, q);
            let p2 = skip_ws(s, m_end);
            match parse_object_identifier(s, p2) {
                Ok((name, j)) => {
                    let p3 = skip_ws(s, j);
                    match match_lit(s, p3, ".super") {
                        Some(q0) => {
                            let q1 = skip_ws(s, q0);
                            match parse_object_identifier(s, q1) {
                                Ok((sup, j2)) => {
                                    let p4 = skip_ws(s, j2);
                                    let src: Option<String>;
                                    let s_end: usize;
                                    match match_lit(s, p4, ".source") {
                                        Some(q2) => match parse_string_lit(s, q2) {
                                            Some((t, j3)) => {
                                                src = Some(t);
                                                s_end = j3;
                                            },
                                            None => {
                                                src = None;
                                                s_end = j2;
                                            },
                                        },
                                        None => {
                                            src = None;
                                            s_end = j2;
                                        },
                                    }
                                    let (imp, i_end) = parse_implements(s, s_end);
                                    let (anns, a_end) = parse_annotations(s, i_end);
                                    let (flds, f_end) = parse_fields(s, a_end);
                                    let (mths, m_end2) = parse_methods(s, f_end);
                                    Ok(
                                        (
                                            Class {
                                                name,
                                                modifiers: mods,
                                                source: src,
                                                super_class: sup,
                                                implements: imp,
                                                annotations: anns,
                                                fields: flds,
                                                methods: mths,
                                            },
                                            m_end2,
                                        ),
                                    )
                                },
                                Err(e) => Err(e),
                            }
                        },
                        None => Err(ParseError::MalformedOperand(p3)),
                    }
                },
                Err(e) => Err(e),
            }
        },
        None => Err(ParseError::MalformedOperand(p)),
    }
}

// ---------------------------------------------------------------------------
// Writing classes back out.
// ---------------------------------------------------------------------------

/// The `.implements` lines, each newline-terminated.
pub open spec fn spec_implements_lines(l: Seq<SpecObjectIdentifier>, k: int) -> Seq<char>
    decreases l.len() - k,
{
    if 0 <= k < l.len() {
        ".implements "@ + spec_oid_jni(l[k]) + seq!['\n'] + spec_implements_lines(l, k + 1)
    } else {
        Seq::empty()
    }
}

fn render_implements_lines(v: &Vec<ObjectIdentifier>, k: usize) -> (r: String)
    requires
        k <= v@.len(),
    ensures
        r@ == spec_implements_lines(spec_view_oids(v@), k as int),
    decreases v@.len() - k,
{
    if k >= v.len() {
        let s = String::new();
        proof {
            assert(s@ =~= spec_implements_lines(spec_view_oids(v@), k as int));
        }
        s
    } else {
        let mut s = String::from_str(".implements ");
        let t = jni_of_oid(&v[k]);
        s.append(t.as_str());
        s.push('\n');
        let rest = render_implements_lines(v, k + 1);
        s.append(rest.as_str());
        proof {
            assert(s@ =~= spec_implements_lines(spec_view_oids(v@), k as int));
        }
        s
    }
}

/// The class-level annotation blocks, each followed by a blank line.
pub open spec fn spec_class_ann_lines(l: Seq<SpecAnnotation>, k: int) -> Seq<char>
    decreases l.len() - k,
{
    if 0 <= k < l.len() {
        spec_annotation_text(l[k], false, false) + seq!['\n'] + spec_class_ann_lines(l, k + 1)
    } else {
        Seq::empty()
    }
}

fn render_class_ann_lines(v: &Vec<Annotation>, k: usize) -> (r: String)
    requires
        k <= v@.len(),
    ensures
        r@ == spec_class_ann_lines(spec_view_ann_seq(v@), k as int),
    decreases v@.len() - k,
{
    proof {
        lemma_view_ann_seq_props(v@);
    }
    if k >= v.len() {
        let s = String::new();
        proof {
            assert(s@ =~= spec_class_ann_lines(spec_view_ann_seq(v@), k as int));
        }
        s
    } else {
        let mut s = write_annotation(&v[k], false, false);
        s.push('\n');
        let rest = render_class_ann_lines(v, k + 1);
        s.append(rest.as_str());
        proof {
            assert(s@ =~= spec_class_ann_lines(spec_view_ann_seq(v@), k as int));
        }
        s
    }
}

/// The annotation blocks inside a field, concatenated.
pub open spec fn spec_field_ann_text(l: Seq<SpecAnnotation>, k: int) -> Seq<char>
    decreases l.len() - k,
{
    if 0 <= k < l.len() {
        spec_annotation_text(l[k], false, true) + spec_field_ann_text(l, k + 1)
    } else {
        Seq::empty()
    }
}

fn render_field_anns(v: &Vec<Annotation>, k: usize) -> (r: String)
    requires
        k <= v@.len(),
    ensures
        r@ == spec_field_ann_text(spec_view_ann_seq(v@), k as int),
    decreases v@.len() - k,
{
    proof {
        lemma_view_ann_seq_props(v@);
    }
    if k >= v.len() {
        let s = String::new();
        proof {
            assert(s@ =~= spec_field_ann_text(spec_view_ann_seq(v@), k as int));
        }
        s
    } else {
        let mut s = write_annotation(&v[k], false, true);
        let rest = render_field_anns(v, k + 1);
        s.append(rest.as_str());
        proof {
            assert(s@ =~= spec_field_ann_text(spec_view_ann_seq(v@), k as int));
        }
        s
    }
}

/// The text of one `.field` line with its annotations and blank line.
pub open spec fn spec_field_text(f: SpecField) -> Seq<char> {
    ".field "@ + spec_modifiers_text(f.modifiers, 0) + f.param.ident + seq![':'] + spec_ts_jni(
        f.param.ts,
    ) + (match f.initial_value {
        Some(v) => " = "@ + v,
        None => Seq::empty(),
    }) + seq!['\n'] + (if f.annotations.len() > 0 {
        spec_field_ann_text(f.annotations, 0) + ".end field\n"@
    } else {
        Seq::empty()
    }) + seq!['\n']
}

/// The field lines of a class.
pub open spec fn spec_field_lines(l: Seq<SpecField>, k: int) -> Seq<char>
    decreases l.len() - k,
{
    if 0 <= k < l.len() {
        spec_field_text(l[k]) + spec_field_lines(l, k + 1)
    } else {
        Seq::empty()
    }
}

#[verifier::rlimit(100)]
fn render_field_lines(v: &Vec<Field>, k: usize) -> (r: String)
    requires
        k <= v@.len(),
    ensures
        r@ == spec_field_lines(spec_view_fields(v@), k as int),
    decreases v@.len() - k,
{
    if k >= v.len() {
        let s = String::new();
        proof {
            assert(s@ =~= spec_field_lines(spec_view_fields(v@), k as int));
        }
        s
    } else {
        let f = &v[k];
        let mut s = String::from_str(".field ");
        let mods = write_modifiers(&f.modifiers);
        s.append(mods.as_str());
        s.append(f.param.ident.as_str());
        s.push(':');
        let ts = f.param.ts.to_jni();
        s.append(ts.as_str());
        match &f.initial_value {
            Some(iv) => {
                s.append(" = ");
                s.append(iv.as_str());
            },
            None => {},
        }
        s.push('\n');
        if f.annotations.len() > 0 {
            let anns = render_field_anns(&f.annotations, 0);
            s.append(anns.as_str());
            s.append(".end field\n");
        }
        s.push('\n');
        let rest = render_field_lines(v, k + 1);
        s.append(rest.as_str());
        proof {
            assert(s@ =~= spec_field_lines(spec_view_fields(v@), k as int));
        }
        s
    }
}

/// The method blocks of a class, concatenated.
pub open spec fn spec_methods_text(l: Seq<SpecMethod>, k: int) -> Seq<char>
    decreases l.len() - k,
{
    if 0 <= k < l.len() {
        spec_method_text(l[k]) + spec_methods_text(l, k + 1)
    } else {
        Seq::empty()
    }
}

fn render_methods(v: &Vec<Method>, k: usize) -> (r: String)
    requires
        k <= v@.len(),
        forall|m: int| 0 <= m < v@.len() ==> spec_method_wf(#[trigger] spec_view_methods(v@)[m]),
    ensures
        r@ == spec_methods_text(spec_view_methods(v@), k as int),
    decreases v@.len() - k,
{
    if k >= v.len() {
        let s = String::new();
        proof {
            assert(s@ =~= spec_methods_text(spec_view_methods(v@), k as int));
        }
        s
    } else {
        proof {
            assert(spec_method_wf(spec_view_methods(v@)[k as int]));
        }
        let mut s = write_method(&v[k]);
        let rest = render_methods(v, k + 1);
        s.append(rest.as_str());
        proof {
            assert(s@ =~= spec_methods_text(spec_view_methods(v@), k as int));
        }
        s
    }
}

/// The text of a whole smali class document.
pub open spec fn spec_class_text(c: SpecClass) -> Seq<char> {
    ".class "@ + spec_modifiers_text(c.modifiers, 0) + spec_oid_jni(c.name) + seq!['\n']
        + ".super "@ + spec_oid_jni(c.super_class) + seq!['\n'] + (match c.source {
        Some(v) => ".source \""@ + v + "\"\n"@,
        None => Seq::empty(),
    }) + (if c.implements.len() > 0 {
        "\n# interfaces\n"@ + spec_implements_lines(c.implements, 0)
    } else {
        Seq::empty()
    }) + (if c.annotations.len() > 0 {
        "\n# annotations\n"@ + spec_class_ann_lines(c.annotations, 0)
    } else {
        Seq::empty()
    }) + (if c.fields.len() > 0 {
        "\n# fields\n"@ + spec_field_lines(c.fields, 0)
    } else {
        Seq::empty()
    }) + (if c.methods.len() > 0 {
        "\n# methods\n"@ + spec_methods_text(c.methods, 0)
    } else {
        Seq::empty()
    })
}

/// The header of a class document: the `.class`, `.super` and optional
/// `.source` lines.
pub open spec fn spec_class_head_text(c: SpecClass) -> Seq<char> {
    ".class "@ + spec_modifiers_text(c.modifiers, 0) + spec_oid_jni(c.name) + seq!['\n']
        + ".super "@ + spec_oid_jni(c.super_class) + seq!['\n'] + (match c.source {
        Some(v) => ".source \""@ + v + "\"\n"@,
        None => Seq::empty(),
    })
}

fn write_class_head(dex: &Class) -> (r: String)
    ensures
        r@ == spec_class_head_text(dex@),
{
    let mut out = String::from_str(".class ");
    let mods = write_modifiers(&dex.modifiers);
    out.append(mods.as_str());
    let name = jni_of_oid(&dex.name);
    out.append(name.as_str());
    out.push('\n');
    out.append(".super ");
    let sup = jni_of_oid(&dex.super_class);
    out.append(sup.as_str());
    out.push('\n');
    match &dex.source {
        Some(v) => {
            out.append(".source \"");
            out.append(v.as_str());
            out.append("\"\n");
        },
        None => {},
    }
    proof {
        assert(out@ =~= spec_class_head_text(dex@));
    }
    out
}

/// Render a whole smali class document.
#[verifier::rlimit(100)]
pub fn write_class(dex: &Class) -> (r: String)
    requires
        spec_class_wf(dex@),
    ensures
        r@ == spec_class_text(dex@),
{
    let mut out = write_class_head(dex);
    proof {
        assert(spec_class_text(dex@) =~= spec_class_head_text(dex@) + (if dex@.implements.len()
            > 0 {
            "\n# interfaces\n"@ + spec_implements_lines(dex@.implements, 0)
        } else {
            Seq::empty()
        }) + (if dex@.annotations.len() > 0 {
            "\n# annotations\n"@ + spec_class_ann_lines(dex@.annotations, 0)
        } else {
            Seq::empty()
        }) + (if dex@.fields.len() > 0 {
            "\n# fields\n"@ + spec_field_lines(dex@.fields, 0)
        } else {
            Seq::empty()
        }) + (if dex@.methods.len() > 0 {
            "\n# methods\n"@ + spec_methods_text(dex@.methods, 0)
        } else {
            Seq::empty()
        }));
    }
    if dex.implements.len() > 0 {
        out.append("\n# interfaces\n");
        let t = render_implements_lines(&dex.implements, 0);
        out.append(t.as_str());
    }
    if dex.annotations.len() > 0 {
        out.append("\n# annotations\n");
        let t = render_class_ann_lines(&dex.annotations, 0);
        out.append(t.as_str());
    }
    if dex.fields.len() > 0 {
        out.append("\n# fields\n");
        let t = render_field_lines(&dex.fields, 0);
        out.append(t.as_str());
    }
    if dex.methods.len() > 0 {
        out.append("\n# methods\n");
        proof {
            assert forall|m: int| 0 <= m < dex.methods@.len() implies spec_method_wf(
                #[trigger] spec_view_methods(dex.methods@)[m],
            ) by {
                assert(dex@.methods == spec_view_methods(dex.methods@));
                assert(spec_method_wf(dex@.methods[m]));
            }
        }
        let t = render_methods(&dex.methods, 0);
        out.append(t.as_str());
    }
    proof {
        assert(out@ =~= spec_class_text(dex@));
    }
    out
}

impl Class {
    /// Render this class as a whole smali document.
    pub fn to_smali(&self) -> (r: String)
        requires
            spec_class_wf(self@),
        ensures
            r@ == spec_class_text(self@),
    {
        write_class(self)
    }
}

} // verus!
