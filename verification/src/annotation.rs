//! Java annotations: visibility, type, and name-value elements whose
//! values may be strings, arrays, enum constants or nested annotations.

use vstd::prelude::*;
use vstd::string::*;

use crate::{ParseError, SmaliError};
use crate::field_ref::{FieldRef, SpecFieldRef, parse_field_ref, spec_parse_field_ref};
use crate::signature::type_signature::{
    SpecTypeSignature, TypeSignature, parse_typesignature, spec_parse_typesignature,
    spec_ts_jni, spec_oid_jni, jni_of_oid,
};
use crate::text::{
    alnum_end, match_lit, parse_string_lit, skip_ws, spec_alnum_end, spec_match_at,
    spec_parse_string_lit, spec_skip_ws, str_eq,
};

verus! {

/// Annotation visibility: build, runtime or system.
#[derive(Debug, Clone, Copy, PartialEq, Eq, PartialOrd, Ord, Structural)]
pub enum AnnotationVisibility {
    Build,
    Runtime,
    System,
}

impl AnnotationVisibility {
    /// The keyword this visibility is written as.
    pub open spec fn spec_text(self) -> Seq<char> {
        match self {
            AnnotationVisibility::Build => "build"@,
            AnnotationVisibility::Runtime => "runtime"@,
            AnnotationVisibility::System => "system"@,
        }
    }

    /// Render this visibility as its keyword.
    pub fn to_str(&self) -> (r: &'static str)
        ensures
            r@ == self.spec_text(),
    {
        match self {
            AnnotationVisibility::Build => "build",
            AnnotationVisibility::Runtime => "runtime",
            AnnotationVisibility::System => "system",
        }
    }

    /// The visibility a keyword denotes, if any.
    pub open spec fn spec_of_keyword(t: Seq<char>) -> Option<AnnotationVisibility> {
        if t == "build"@ {
            Some(AnnotationVisibility::Build)
        } else if t == "runtime"@ {
            Some(AnnotationVisibility::Runtime)
        } else if t == "system"@ {
            Some(AnnotationVisibility::System)
        } else {
            None
        }
    }

    /// Look a keyword up.
    pub fn from_str(t: &str) -> (r: Result<AnnotationVisibility, SmaliError>)
        ensures
            match Self::spec_of_keyword(t@) {
                Some(v) => r == Ok::<AnnotationVisibility, SmaliError>(v),
                None => r is Err,
            },
    {
        if str_eq(t, "build") {
            Ok(AnnotationVisibility::Build)
        } else if str_eq(t, "runtime") {
            Ok(AnnotationVisibility::Runtime)
        } else if str_eq(t, "system") {
            Ok(AnnotationVisibility::System)
        } else {
            Err(SmaliError::new("Unknown Annotation visibility"))
        }
    }
}

/// The visibility grammar at `i`, after leading whitespace.
pub open spec fn spec_parse_visibility(s: Seq<char>, i: int) -> Option<
    (AnnotationVisibility, int),
> {
    let p = spec_skip_ws(s, i);
    if !(0 <= i <= p <= s.len()) {
        None
    } else if spec_match_at(s, p, "build"@) {
        Some((AnnotationVisibility::Build, p + "build"@.len()))
    } else if spec_match_at(s, p, "runtime"@) {
        Some((AnnotationVisibility::Runtime, p + "runtime"@.len()))
    } else if spec_match_at(s, p, "system"@) {
        Some((AnnotationVisibility::System, p + "system"@.len()))
    } else {
        None
    }
}

/// Parse a visibility keyword.
pub fn parse_visibility(s: &str, i: usize) -> (r: Result<(AnnotationVisibility, usize),
    ParseError>)
    requires
        i <= s@.len(),
    ensures
        match spec_parse_visibility(s@, i as int) {
            Some((v, j)) => r matches Ok(p) && p.0 == v && p.1 == j && i <= j <= s@.len(),
            None => r is Err,
        },
{
    let p = skip_ws(s, i);
    match match_lit(s, p, "build") {
        Some(j) => Ok((AnnotationVisibility::Build, j)),
        None => match match_lit(s, p, "runtime") {
            Some(j) => Ok((AnnotationVisibility::Runtime, j)),
            None => match match_lit(s, p, "system") {
                Some(j) => Ok((AnnotationVisibility::System, j)),
                None => Err(ParseError::MalformedOperand(p)),
            },
        },
    }
}

/// An annotation value: a string, an array, a nested annotation, an enum
/// constant, or an unmodeled raw text fallback.
#[derive(Debug, PartialEq, Eq)]
pub enum AnnotationValue {
    String(String),
    Array(Vec<AnnotationValue>),
    SubAnnotation(Annotation),
    Enum(FieldRef),
    Any(String),
}

/// A name-value pair of an annotation.
#[derive(Debug, PartialEq, Eq)]
pub struct AnnotationElement {
    pub name: String,
    pub value: AnnotationValue,
}

/// A Java annotation: at class level, method level, within a field or
/// within another annotation.
#[derive(Debug, PartialEq, Eq)]
pub struct Annotation {
    pub visibility: AnnotationVisibility,
    pub annotation_type: TypeSignature,
    pub elements: Vec<AnnotationElement>,
}

/// Mathematical model of an `AnnotationValue`.
pub enum SpecAnnotationValue {
    String(Seq<char>),
    Array(Seq<SpecAnnotationValue>),
    SubAnnotation(SpecAnnotation),
    Enum(SpecFieldRef),
    Any(Seq<char>),
}

/// Mathematical model of an `AnnotationElement`.
pub struct SpecAnnotationElement {
    pub name: Seq<char>,
    pub value: SpecAnnotationValue,
}

/// Mathematical model of an `Annotation`.
pub struct SpecAnnotation {
    pub visibility: AnnotationVisibility,
    pub annotation_type: SpecTypeSignature,
    pub elements: Seq<SpecAnnotationElement>,
}

pub open spec fn spec_view_av(v: AnnotationValue) -> SpecAnnotationValue
    decreases v, 0int,
{
    match v {
        AnnotationValue::String(s) => SpecAnnotationValue::String(s@),
        AnnotationValue::Array(a) => SpecAnnotationValue::Array(spec_view_av_seq(a@)),
        AnnotationValue::SubAnnotation(a) => SpecAnnotationValue::SubAnnotation(
            spec_view_ann(a),
        ),
        AnnotationValue::Enum(f) => SpecAnnotationValue::Enum(f@),
        AnnotationValue::Any(s) => SpecAnnotationValue::Any(s@),
    }
}

pub open spec fn spec_view_av_seq(l: Seq<AnnotationValue>) -> Seq<SpecAnnotationValue>
    decreases l, l.len(),
{
    if l.len() == 0 {
        Seq::empty()
    } else {
        seq![spec_view_av(l[0])] + spec_view_av_seq(l.drop_first())
    }
}

pub open spec fn spec_view_ann(a: Annotation) -> SpecAnnotation
    decreases a, 0int,
{
    SpecAnnotation {
        visibility: a.visibility,
        annotation_type: a.annotation_type@,
        elements: spec_view_elems(a.elements@),
    }
}

pub open spec fn spec_view_elems(l: Seq<AnnotationElement>) -> Seq<SpecAnnotationElement>
    decreases l, l.len(),
{
    if l.len() == 0 {
        Seq::empty()
    } else {
        seq![
            SpecAnnotationElement { name: l[0].name@, value: spec_view_av(l[0].value) },
        ] + spec_view_elems(l.drop_first())
    }
}

pub proof fn lemma_view_av_seq_props(l: Seq<AnnotationValue>)
    ensures
        spec_view_av_seq(l).len() == l.len(),
        forall|k: int| 0 <= k < l.len() ==> spec_view_av_seq(l)[k] == spec_view_av(
            #[trigger] l[k],
        ),
    decreases l.len(),
{
    if l.len() > 0 {
        lemma_view_av_seq_props(l.drop_first());
        assert forall|k: int| 0 <= k < l.len() implies spec_view_av_seq(l)[k] == spec_view_av(
            #[trigger] l[k],
        ) by {
            if k > 0 {
                assert(l.drop_first()[k - 1] == l[k]);
                assert(spec_view_av_seq(l.drop_first())[k - 1] == spec_view_av(
                    l.drop_first()[k - 1],
                ));
            }
        }
    }
}

pub proof fn lemma_view_elems_props(l: Seq<AnnotationElement>)
    ensures
        spec_view_elems(l).len() == l.len(),
        forall|k: int| 0 <= k < l.len() ==> spec_view_elems(l)[k]
            == (SpecAnnotationElement {
            name: (#[trigger] l[k]).name@,
            value: spec_view_av(l[k].value),
        }),
    decreases l.len(),
{
    if l.len() > 0 {
        lemma_view_elems_props(l.drop_first());
        assert forall|k: int| 0 <= k < l.len() implies spec_view_elems(l)[k]
            == (SpecAnnotationElement {
            name: (#[trigger] l[k]).name@,
            value: spec_view_av(l[k].value),
        }) by {
            if k > 0 {
                assert(l.drop_first()[k - 1] == l[k]);
                assert(spec_view_elems(l.drop_first())[k - 1] == (SpecAnnotationElement {
                    name: l.drop_first()[k - 1].name@,
                    value: spec_view_av(l.drop_first()[k - 1].value),
                }));
            }
        }
    }
}

pub open spec fn spec_view_ann_seq(l: Seq<Annotation>) -> Seq<SpecAnnotation>
    decreases l, l.len(),
{
    if l.len() == 0 {
        Seq::empty()
    } else {
        seq![spec_view_ann(l[0])] + spec_view_ann_seq(l.drop_first())
    }
}

pub proof fn lemma_view_ann_seq_props(l: Seq<Annotation>)
    ensures
        spec_view_ann_seq(l).len() == l.len(),
        forall|k: int| 0 <= k < l.len() ==> spec_view_ann_seq(l)[k] == spec_view_ann(
            #[trigger] l[k],
        ),
    decreases l.len(),
{
    if l.len() > 0 {
        lemma_view_ann_seq_props(l.drop_first());
        assert forall|k: int| 0 <= k < l.len() implies spec_view_ann_seq(l)[k] == spec_view_ann(
            #[trigger] l[k],
        ) by {
            if k > 0 {
                assert(l.drop_first()[k - 1] == l[k]);
                assert(spec_view_ann_seq(l.drop_first())[k - 1] == spec_view_ann(
                    l.drop_first()[k - 1],
                ));
            }
        }
    }
}

pub proof fn lemma_view_ann_seq_insert0(l: Seq<Annotation>, x: Annotation)
    ensures
        spec_view_ann_seq(l.insert(0, x)) =~= seq![spec_view_ann(x)] + spec_view_ann_seq(l),
{
    assert(l.insert(0, x).len() == l.len() + 1);
    assert(l.insert(0, x)[0] == x);
    assert(l.insert(0, x).drop_first() =~= l);
}

/// Zero or more annotation blocks, ending where none follows.
pub open spec fn spec_parse_annotations(s: Seq<char>, i: int) -> (Seq<SpecAnnotation>, int)
    decreases s.len() - i,
{
    if !(0 <= i <= s.len()) {
        (Seq::empty(), i)
    } else {
        match spec_parse_annotation(s, i) {
            Some((a, j)) => if i < j <= s.len() {
                let rest = spec_parse_annotations(s, j);
                (seq![a] + rest.0, rest.1)
            } else {
                (Seq::empty(), i)
            },
            None => (Seq::empty(), i),
        }
    }
}

/// Parse zero or more annotation blocks.
pub fn parse_annotations(s: &str, i: usize) -> (r: (Vec<Annotation>, usize))
    requires
        i <= s@.len(),
    ensures
        spec_view_ann_seq(r.0@) == spec_parse_annotations(s@, i as int).0,
        r.1 == spec_parse_annotations(s@, i as int).1,
        i <= r.1 <= s@.len(),
    decreases s@.len() - i,
{
    match parse_annotation(s, i) {
        Ok((a, j)) => {
            if j <= i {
                let v: Vec<Annotation> = Vec::new();
                proof {
                    assert(spec_view_ann_seq(v@) =~= Seq::<SpecAnnotation>::empty());
                }
                return (v, i);
            }
            let (mut rest, end) = parse_annotations(s, j);
            proof {
                lemma_view_ann_seq_insert0(rest@, a);
            }
            rest.insert(0, a);
            (rest, end)
        },
        Err(_) => {
            let v: Vec<Annotation> = Vec::new();
            proof {
                assert(spec_view_ann_seq(v@) =~= Seq::<SpecAnnotation>::empty());
            }
            (v, i)
        },
    }
}

pub proof fn lemma_view_av_seq_insert0(l: Seq<AnnotationValue>, x: AnnotationValue)
    ensures
        spec_view_av_seq(l.insert(0, x)) =~= seq![spec_view_av(x)] + spec_view_av_seq(l),
{
    assert(l.insert(0, x).len() == l.len() + 1);
    assert(l.insert(0, x)[0] == x);
    assert(l.insert(0, x).drop_first() =~= l);
}

pub proof fn lemma_view_elems_insert0(l: Seq<AnnotationElement>, x: AnnotationElement)
    ensures
        spec_view_elems(l.insert(0, x)) =~= seq![
            SpecAnnotationElement { name: x.name@, value: spec_view_av(x.value) },
        ] + spec_view_elems(l),
{
    assert(l.insert(0, x).len() == l.len() + 1);
    assert(l.insert(0, x)[0] == x);
    assert(l.insert(0, x).drop_first() =~= l);
}

impl View for AnnotationValue {
    type V = SpecAnnotationValue;

    open spec fn view(&self) -> SpecAnnotationValue {
        spec_view_av(*self)
    }
}

impl View for AnnotationElement {
    type V = SpecAnnotationElement;

    open spec fn view(&self) -> SpecAnnotationElement {
        SpecAnnotationElement { name: self.name@, value: spec_view_av(self.value) }
    }
}

impl View for Annotation {
    type V = SpecAnnotation;

    open spec fn view(&self) -> SpecAnnotation {
        spec_view_ann(*self)
    }
}

// ---------------------------------------------------------------------------
// Writing annotations back out.
// ---------------------------------------------------------------------------

/// The indentation an annotation block is written with.
pub open spec fn spec_ann_indent(subannotation: bool, indented: bool) -> Seq<char> {
    if indented && subannotation {
        seq![' ', ' ', ' ', ' ', ' ', ' ', ' ', ' ']
    } else if indented || subannotation {
        seq![' ', ' ', ' ', ' ']
    } else {
        Seq::empty()
    }
}

/// The inner indentation step of an annotation block.
pub open spec fn spec_ann_inset() -> Seq<char> {
    seq![' ', ' ', ' ', ' ']
}

/// The text of one annotation value, newline-terminated, appended after a
/// `name = ` prefix or an array line prefix.
pub open spec fn spec_av_text(
    v: SpecAnnotationValue,
    indented: bool,
    indent: Seq<char>,
    inset: Seq<char>,
) -> Seq<char>
    decreases v, 0int,
{
    match v {
        SpecAnnotationValue::Array(a) => seq!['{', '\n'] + spec_av_lines(
            a,
            0,
            indented,
            indent,
            inset,
        ) + indent + inset + seq!['}', '\n'],
        SpecAnnotationValue::SubAnnotation(sa) => spec_annotation_text(sa, true, indented),
        SpecAnnotationValue::Enum(f) => ".enum "@ + spec_oid_jni(f.class) + seq!['-', '>']
            + f.param.ident + seq![':'] + spec_ts_jni(f.param.ts) + seq!['\n'],
        SpecAnnotationValue::String(t) => seq!['"'] + t + seq!['"', '\n'],
        SpecAnnotationValue::Any(t) => t + seq!['\n'],
    }
}

/// The lines of an array value: each inner value double-inset, a comma
/// after each but the last, each line newline-terminated.
pub open spec fn spec_av_lines(
    l: Seq<SpecAnnotationValue>,
    k: int,
    indented: bool,
    indent: Seq<char>,
    inset: Seq<char>,
) -> Seq<char>
    decreases l, l.len() - k,
{
    if 0 <= k < l.len() {
        indent + inset + inset + spec_av_text(l[k], indented, indent, inset) + (if k + 1
            < l.len() {
            seq![',']
        } else {
            Seq::empty()
        }) + seq!['\n'] + spec_av_lines(l, k + 1, indented, indent, inset)
    } else {
        Seq::empty()
    }
}

/// The element lines of an annotation: `name = ` then the value.
pub open spec fn spec_elem_lines(
    l: Seq<SpecAnnotationElement>,
    k: int,
    indented: bool,
    indent: Seq<char>,
    inset: Seq<char>,
) -> Seq<char>
    decreases l, l.len() - k,
{
    if 0 <= k < l.len() {
        indent + inset + l[k].name + " = "@ + spec_av_text(l[k].value, indented, indent, inset)
            + spec_elem_lines(l, k + 1, indented, indent, inset)
    } else {
        Seq::empty()
    }
}

/// The text of a whole annotation block, `.annotation` or `.subannotation`
/// header to `.end` footer, newline-terminated.
pub open spec fn spec_annotation_text(a: SpecAnnotation, subannotation: bool, indented: bool)
    -> Seq<char>
    decreases a, 1int,
{
    let indent = spec_ann_indent(subannotation, indented);
    (if subannotation {
        ".subannotation "@
    } else {
        indent + ".annotation "@ + a.visibility.spec_text() + seq![' ']
    }) + spec_ts_jni(a.annotation_type) + seq!['\n'] + spec_elem_lines(
        a.elements,
        0,
        indented,
        indent,
        spec_ann_inset(),
    ) + indent + (if subannotation {
        ".end subannotation"@
    } else {
        ".end annotation"@
    }) + seq!['\n']
}

fn ann_indent(subannotation: bool, indented: bool) -> (r: &'static str)
    ensures
        r@ == spec_ann_indent(subannotation, indented),
{
    proof {
        reveal_strlit("        ");
        reveal_strlit("    ");
        reveal_strlit("");
        assert("        "@ =~= spec_ann_indent(true, true));
        assert("    "@ =~= spec_ann_inset());
        assert(""@ =~= Seq::<char>::empty());
    }
    if indented && subannotation {
        "        "
    } else if indented || subannotation {
        "    "
    } else {
        ""
    }
}

fn av_lines(v: &Vec<AnnotationValue>, k: usize, indented: bool, indent: &str, inset: &str) -> (r:
    String)
    requires
        k <= v@.len(),
        indent@ == spec_ann_indent(true, indented) || indent@ == spec_ann_indent(
            false,
            indented,
        ),
        inset@ == spec_ann_inset(),
    ensures
        r@ == spec_av_lines(spec_view_av_seq(v@), k as int, indented, indent@, inset@),
    decreases *v, v@.len() - k,
{
    proof {
        lemma_view_av_seq_props(v@);
    }
    if k >= v.len() {
        let s = String::new();
        proof {
            assert(s@ =~= spec_av_lines(spec_view_av_seq(v@), k as int, indented, indent@,
                inset@));
        }
        s
    } else {
        let mut s = String::from_str(indent);
        s.append(inset);
        s.append(inset);
        write_annotation_value(&mut s, &v[k], indented, indent, inset);
        if k + 1 < v.len() {
            s.push(',');
        }
        s.push('\n');
        let rest = av_lines(v, k + 1, indented, indent, inset);
        s.append(rest.as_str());
        proof {
            assert(s@ =~= spec_av_lines(spec_view_av_seq(v@), k as int, indented, indent@,
                inset@));
        }
        s
    }
}

/// Append one annotation value to `out`, newline-terminated.
#[verifier::rlimit(100)]
pub fn write_annotation_value(
    out: &mut String,
    i: &AnnotationValue,
    indented: bool,
    indent: &str,
    inset: &str,
)
    requires
        indent@ == spec_ann_indent(true, indented) || indent@ == spec_ann_indent(
            false,
            indented,
        ),
        inset@ == spec_ann_inset(),
    ensures
        final(out)@ == old(out)@ + spec_av_text(i@, indented, indent@, inset@),
    decreases *i, 1int,
{
    match i {
        AnnotationValue::Array(a) => {
            out.push('{');
            out.push('\n');
            let lines = av_lines(a, 0, indented, indent, inset);
            out.append(lines.as_str());
            out.append(indent);
            out.append(inset);
            out.push('}');
            out.push('\n');
            proof {
                assert(out@ =~= old(out)@ + spec_av_text(i@, indented, indent@, inset@));
            }
        },
        AnnotationValue::SubAnnotation(sa) => {
            let t = write_annotation(sa, true, indented);
            out.append(t.as_str());
            proof {
                assert(out@ =~= old(out)@ + spec_av_text(i@, indented, indent@, inset@));
            }
        },
        AnnotationValue::Enum(f) => {
            out.append(".enum ");
            let c = jni_of_oid(&f.class);
            out.append(c.as_str());
            out.push('-');
            out.push('>');
            out.append(f.param.ident.as_str());
            out.push(':');
            let t = f.param.ts.to_jni();
            out.append(t.as_str());
            out.push('\n');
            proof {
                assert(out@ =~= old(out)@ + spec_av_text(i@, indented, indent@, inset@));
            }
        },
        AnnotationValue::String(t) => {
            out.push('"');
            out.append(t.as_str());
            out.push('"');
            out.push('\n');
            proof {
                assert(out@ =~= old(out)@ + spec_av_text(i@, indented, indent@, inset@));
            }
        },
        AnnotationValue::Any(t) => {
            out.append(t.as_str());
            out.push('\n');
            proof {
                assert(out@ =~= old(out)@ + spec_av_text(i@, indented, indent@, inset@));
            }
        },
    }
}

fn elem_lines(v: &Vec<AnnotationElement>, k: usize, indented: bool, indent: &str, inset: &str)
    -> (r: String)
    requires
        k <= v@.len(),
        indent@ == spec_ann_indent(true, indented) || indent@ == spec_ann_indent(
            false,
            indented,
        ),
        inset@ == spec_ann_inset(),
    ensures
        r@ == spec_elem_lines(spec_view_elems(v@), k as int, indented, indent@, inset@),
    decreases *v, v@.len() - k,
{
    proof {
        lemma_view_elems_props(v@);
    }
    if k >= v.len() {
        let s = String::new();
        proof {
            assert(s@ =~= spec_elem_lines(spec_view_elems(v@), k as int, indented, indent@,
                inset@));
        }
        s
    } else {
        let mut s = String::from_str(indent);
        s.append(inset);
        s.append(v[k].name.as_str());
        s.append(" = ");
        write_annotation_value(&mut s, &v[k].value, indented, indent, inset);
        let rest = elem_lines(v, k + 1, indented, indent, inset);
        s.append(rest.as_str());
        proof {
            assert(s@ =~= spec_elem_lines(spec_view_elems(v@), k as int, indented, indent@,
                inset@));
        }
        s
    }
}

/// Render a whole annotation block, header to footer, newline-terminated.
pub fn write_annotation(ann: &Annotation, subannotation: bool, indented: bool) -> (r: String)
    ensures
        r@ == spec_annotation_text(ann@, subannotation, indented),
    decreases *ann, 2int,
{
    let indent = ann_indent(subannotation, indented);
    let mut out: String;
    if subannotation {
        out = String::from_str(".subannotation ");
    } else {
        out = String::from_str(indent);
        out.append(".annotation ");
        out.append(ann.visibility.to_str());
        out.push(' ');
    }
    let t = ann.annotation_type.to_jni();
    out.append(t.as_str());
    out.push('\n');
    proof {
        reveal_strlit("    ");
        assert("    "@ =~= spec_ann_inset());
    }
    let lines = elem_lines(&ann.elements, 0, indented, indent, "    ");
    out.append(lines.as_str());
    out.append(indent);
    if subannotation {
        out.append(".end subannotation");
    } else {
        out.append(".end annotation");
    }
    out.push('\n');
    proof {
        assert(out@ =~= spec_annotation_text(ann@, subannotation, indented));
    }
    out
}

// ---------------------------------------------------------------------------
// Parsing annotations.
// ---------------------------------------------------------------------------

/// End of a raw fallback value: the first `,`, `}` or newline, or the end.
pub open spec fn spec_any_end(s: Seq<char>, i: int) -> int
    decreases s.len() - i,
{
    if 0 <= i < s.len() && s[i] != ',' && s[i] != '}' && s[i] != '\n' {
        spec_any_end(s, i + 1)
    } else {
        i
    }
}

fn any_end(s: &str, i: usize) -> (j: usize)
    requires
        i <= s@.len(),
    ensures
        j == spec_any_end(s@, i as int),
        i <= j <= s@.len(),
    decreases s@.len() - i,
{
    if i < s.unicode_len() && s.get_char(i) != ',' && s.get_char(i) != '}' && s.get_char(i)
        != '\n' {
        any_end(s, i + 1)
    } else {
        i
    }
}

/// The annotation grammar at `i`: an `.annotation` or `.subannotation`
/// header, an optional visibility (system by default), the annotation
/// type, the elements, and an `.end` footer.
pub open spec fn spec_parse_annotation(s: Seq<char>, i: int) -> Option<(SpecAnnotation, int)>
    decreases s.len() - i, 0int,
{
    let p = spec_skip_ws(s, i);
    if !(0 <= i <= p <= s.len()) {
        None
    } else {
        let q = if spec_match_at(s, p, ".annotation"@) {
            p + ".annotation"@.len()
        } else if spec_match_at(s, p, ".subannotation"@) {
            p + ".subannotation"@.len()
        } else {
            p
        };
        if q == p {
            None
        } else {
            let vq = match spec_parse_visibility(s, q) {
                Some((v, j)) => (v, j),
                None => (AnnotationVisibility::System, q),
            };
            match spec_parse_typesignature(s, vq.1) {
                Some((ts, q3)) => if i < q3 <= s.len() {
                    match spec_ann_elements(s, q3) {
                        Some((elems, k)) => Some(
                            (
                                SpecAnnotation {
                                    visibility: vq.0,
                                    annotation_type: ts,
                                    elements: elems,
                                },
                                k,
                            ),
                        ),
                        None => None,
                    }
                } else {
                    None
                },
                None => None,
            }
        }
    }
}

/// The elements of an annotation, up to and including its `.end` footer.
pub open spec fn spec_ann_elements(s: Seq<char>, i: int) -> Option<
    (Seq<SpecAnnotationElement>, int),
>
    decreases s.len() - i, 3int,
{
    let p = spec_skip_ws(s, i);
    if !(0 <= i <= p <= s.len()) {
        None
    } else if spec_match_at(s, p, ".end annotation"@) {
        Some((Seq::empty(), p + ".end annotation"@.len()))
    } else if spec_match_at(s, p, ".end subannotation"@) {
        Some((Seq::empty(), p + ".end subannotation"@.len()))
    } else {
        match spec_parse_annotation_element(s, i) {
            Some((el, j)) => if i < j <= s.len() {
                match spec_ann_elements(s, j) {
                    Some((rest, k)) => Some((seq![el] + rest, k)),
                    None => None,
                }
            } else {
                None
            },
            None => None,
        }
    }
}

/// The element grammar at `i`: a name, `=`, and a value.
pub open spec fn spec_parse_annotation_element(s: Seq<char>, i: int) -> Option<
    (SpecAnnotationElement, int),
>
    decreases s.len() - i, 2int,
{
    let p = spec_skip_ws(s, i);
    if !(0 <= i <= p <= s.len()) {
        None
    } else {
        let e = spec_alnum_end(s, p);
        if p < e <= s.len() {
            let y = spec_skip_ws(s, e);
            if e <= y && y < s.len() && s[y] == '=' {
                let vr = spec_parse_annotation_value(s, y + 1);
                Some((SpecAnnotationElement { name: s.subrange(p, e), value: vr.0 }, vr.1))
            } else {
                None
            }
        } else {
            None
        }
    }
}

/// The value grammar at `i`: a nested annotation, an array, a quoted
/// string, an enum constant, or the raw text up to the next delimiter.
/// A value always parses; the raw fallback may be empty.
pub open spec fn spec_parse_annotation_value(s: Seq<char>, i: int) -> (SpecAnnotationValue,
    int)
    decreases s.len() - i, 1int,
{
    match spec_parse_annotation(s, i) {
        Some((a, j)) => (SpecAnnotationValue::SubAnnotation(a), j),
        None => {
            let p = spec_skip_ws(s, i);
            if !(0 <= i <= p <= s.len()) {
                (SpecAnnotationValue::Any(Seq::empty()), i)
            } else if p < s.len() && s[p] == '{' {
                match spec_av_items(s, p + 1) {
                    Some((items, k)) => (SpecAnnotationValue::Array(items), k),
                    None => {
                        let e = spec_any_end(s, i);
                        (SpecAnnotationValue::Any(s.subrange(i, e)), e)
                    },
                }
            } else {
                match spec_parse_string_lit(s, i) {
                    Some((body, j)) => (SpecAnnotationValue::String(body), j),
                    None => if spec_match_at(s, p, ".enum"@) {
                        let q = spec_skip_ws(s, p + ".enum"@.len());
                        if p < q <= s.len() {
                            match spec_parse_field_ref(s, q) {
                                Some((f, j)) => (SpecAnnotationValue::Enum(f), j),
                                None => {
                                    let e = spec_any_end(s, i);
                                    (SpecAnnotationValue::Any(s.subrange(i, e)), e)
                                },
                            }
                        } else {
                            let e = spec_any_end(s, i);
                            (SpecAnnotationValue::Any(s.subrange(i, e)), e)
                        }
                    } else {
                        let e = spec_any_end(s, i);
                        (SpecAnnotationValue::Any(s.subrange(i, e)), e)
                    },
                }
            }
        },
    }
}

/// The comma-separated values of an array, up to and including `}`.
pub open spec fn spec_av_items(s: Seq<char>, i: int) -> Option<(Seq<SpecAnnotationValue>, int)>
    decreases s.len() - i, 2int,
{
    let q = spec_skip_ws(s, i);
    if !(0 <= i <= q <= s.len()) {
        None
    } else if q < s.len() && s[q] == '}' {
        Some((Seq::empty(), q + 1))
    } else {
        let vr = spec_parse_annotation_value(s, q);
        let j2 = spec_skip_ws(s, vr.1);
        if q <= vr.1 <= s.len() && vr.1 <= j2 <= s.len() {
            if j2 < s.len() && s[j2] == ',' {
                match spec_av_items(s, j2 + 1) {
                    Some((rest, k)) => Some((seq![vr.0] + rest, k)),
                    None => None,
                }
            } else if j2 < s.len() && s[j2] == '}' {
                Some((seq![vr.0], j2 + 1))
            } else {
                None
            }
        } else {
            None
        }
    }
}

/// Parse an annotation block.
pub fn parse_annotation(s: &str, i: usize) -> (r: Result<(Annotation, usize), ParseError>)
    requires
        i <= s@.len(),
    ensures
        match spec_parse_annotation(s@, i as int) {
            Some((v, j)) => r matches Ok(p) && p.0@ == v && p.1 == j && i <= j <= s@.len(),
            None => r is Err,
        },
    decreases s@.len() - i, 0int,
{
    proof {
        reveal_strlit(".annotation");
        reveal_strlit(".subannotation");
    }
    let p = skip_ws(s, i);
    let q = match match_lit(s, p, ".annotation") {
        Some(q1) => q1,
        None => match match_lit(s, p, ".subannotation") {
            Some(q2) => q2,
            None => {
                return Err(ParseError::MalformedOperand(p));
            },
        },
    };
    let (vis, q2) = match parse_visibility(s, q) {
        Ok((v, j)) => (v, j),
        Err(_) => (AnnotationVisibility::System, q),
    };
    match parse_typesignature(s, q2) {
        Ok((ts, q3)) => {
            if q3 <= i {
                return Err(ParseError::MalformedOperand(q3));
            }
            match ann_elements(s, q3) {
                Ok((elems, k)) => Ok(
                    (
                        Annotation { visibility: vis, annotation_type: ts, elements: elems },
                        k,
                    ),
                ),
                Err(e) => Err(e),
            }
        },
        Err(e) => Err(e),
    }
}

fn ann_elements(s: &str, i: usize) -> (r: Result<(Vec<AnnotationElement>, usize), ParseError>)
    requires
        i <= s@.len(),
    ensures
        match spec_ann_elements(s@, i as int) {
            Some((l, j)) => r matches Ok(p) && spec_view_elems(p.0@) == l && p.1 == j && i <= j
                <= s@.len(),
            None => r is Err,
        },
    decreases s@.len() - i, 3int,
{
    let p = skip_ws(s, i);
    match match_lit(s, p, ".end annotation") {
        Some(q) => {
            let v: Vec<AnnotationElement> = Vec::new();
            proof {
                assert(spec_view_elems(v@) =~= Seq::<SpecAnnotationElement>::empty());
            }
            Ok((v, q))
        },
        None => match match_lit(s, p, ".end subannotation") {
            Some(q) => {
                let v: Vec<AnnotationElement> = Vec::new();
                proof {
                    assert(spec_view_elems(v@) =~= Seq::<SpecAnnotationElement>::empty());
                }
                Ok((v, q))
            },
            None => match parse_annotation_element(s, i) {
                Ok((el, j)) => {
                    if j <= i {
                        return Err(ParseError::MalformedOperand(i));
                    }
                    match ann_elements(s, j) {
                        Ok((mut rest, k)) => {
                            proof {
                                lemma_view_elems_insert0(rest@, el);
                            }
                            rest.insert(0, el);
                            Ok((rest, k))
                        },
                        Err(e) => Err(e),
                    }
                },
                Err(e) => Err(e),
            },
        },
    }
}

/// Parse one `name = value` element.
pub fn parse_annotation_element(s: &str, i: usize) -> (r: Result<(AnnotationElement, usize),
    ParseError>)
    requires
        i <= s@.len(),
    ensures
        match spec_parse_annotation_element(s@, i as int) {
            Some((v, j)) => r matches Ok(p) && p.0@ == v && p.1 == j && i <= j <= s@.len(),
            None => r is Err,
        },
    decreases s@.len() - i, 2int,
{
    let p = skip_ws(s, i);
    let e = alnum_end(s, p);
    if e > p {
        let y = skip_ws(s, e);
        if y < s.unicode_len() && s.get_char(y) == '=' {
            let name = s.substring_char(p, e).to_owned();
            let (value, j) = parse_annotation_value(s, y + 1);
            Ok((AnnotationElement { name, value }, j))
        } else {
            Err(ParseError::MalformedOperand(y))
        }
    } else {
        Err(ParseError::MalformedOperand(p))
    }
}

/// Parse one annotation value. A value always parses; the raw fallback
/// may be empty.
pub fn parse_annotation_value(s: &str, i: usize) -> (r: (AnnotationValue, usize))
    requires
        i <= s@.len(),
    ensures
        r.0@ == spec_parse_annotation_value(s@, i as int).0,
        r.1 == spec_parse_annotation_value(s@, i as int).1,
        i <= r.1 <= s@.len(),
    decreases s@.len() - i, 1int,
{
    proof {
        reveal_strlit(".enum");
    }
    match parse_annotation(s, i) {
        Ok((a, j)) => (AnnotationValue::SubAnnotation(a), j),
        Err(_) => {
            let p = skip_ws(s, i);
            if p < s.unicode_len() && s.get_char(p) == '{' {
                match av_items(s, p + 1) {
                    Ok((items, k)) => (AnnotationValue::Array(items), k),
                    Err(_) => {
                        let e = any_end(s, i);
                        let t = s.substring_char(i, e).to_owned();
                        (AnnotationValue::Any(t), e)
                    },
                }
            } else {
                match parse_string_lit(s, i) {
                    Some((body, j)) => (AnnotationValue::String(body), j),
                    None => match match_lit(s, p, ".enum") {
                        Some(q0) => {
                            let q = skip_ws(s, q0);
                            match parse_field_ref(s, q) {
                                Ok((f, j)) => (AnnotationValue::Enum(f), j),
                                Err(_) => {
                                    let e = any_end(s, i);
                                    let t = s.substring_char(i, e).to_owned();
                                    (AnnotationValue::Any(t), e)
                                },
                            }
                        },
                        None => {
                            let e = any_end(s, i);
                            let t = s.substring_char(i, e).to_owned();
                            (AnnotationValue::Any(t), e)
                        },
                    },
                }
            }
        },
    }
}

fn av_items(s: &str, i: usize) -> (r: Result<(Vec<AnnotationValue>, usize), ParseError>)
    requires
        i <= s@.len(),
    ensures
        match spec_av_items(s@, i as int) {
            Some((l, j)) => r matches Ok(p) && spec_view_av_seq(p.0@) == l && p.1 == j && i <= j
                <= s@.len(),
            None => r is Err,
        },
    decreases s@.len() - i, 2int,
{
    let q = skip_ws(s, i);
    if q < s.unicode_len() && s.get_char(q) == '}' {
        let v: Vec<AnnotationValue> = Vec::new();
        proof {
            assert(spec_view_av_seq(v@) =~= Seq::<SpecAnnotationValue>::empty());
        }
        Ok((v, q + 1))
    } else {
        let (val, j) = parse_annotation_value(s, q);
        let j2 = skip_ws(s, j);
        if j2 < s.unicode_len() && s.get_char(j2) == ',' {
            match av_items(s, j2 + 1) {
                Ok((mut rest, k)) => {
                    proof {
                        lemma_view_av_seq_insert0(rest@, val);
                    }
                    rest.insert(0, val);
                    Ok((rest, k))
                },
                Err(e) => Err(e),
            }
        } else if j2 < s.unicode_len() && s.get_char(j2) == '}' {
            let v: Vec<AnnotationValue> = vec![val];
            proof {
                assert(v@ =~= Seq::<AnnotationValue>::empty().insert(0, val));
                lemma_view_av_seq_insert0(Seq::<AnnotationValue>::empty(), val);
                assert(spec_view_av_seq(v@) =~= seq![val@]);
            }
            Ok((v, j2 + 1))
        } else {
            Err(ParseError::MalformedOperand(j2))
        }
    }
}

} // verus!
