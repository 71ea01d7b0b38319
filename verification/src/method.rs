//! A Java method declaration: modifiers, name and signature, parameter
//! declarations, annotations, and the operations of its body.

use vstd::prelude::*;
use vstd::string::*;

use crate::ParseError;
use crate::annotation::{
    Annotation, SpecAnnotation, parse_annotations, spec_annotation_text,
    spec_parse_annotations, spec_view_ann_seq, write_annotation, lemma_view_ann_seq_props,
};
use crate::modifier::{Modifier, parse_modifiers, spec_parse_modifiers, spec_modifiers_text,
    write_modifiers};
use crate::num::{int_lit_value, parse_int_lit_u32, spec_dec_u64, u64_to_dec};
use crate::op::{Op, SpecOp, parse_op, spec_op_text, spec_op_wf, spec_parse_op};
use crate::param::{Param, SpecParam, parse_param, spec_param_text, spec_parse_param,
    write_param};
use crate::signature::method_signature::{
    MethodParameter, SpecMethodParameter, parse_method_parameter, spec_ms_jni,
    spec_parse_method_parameter,
};
use crate::text::{match_lit, skip_ws, spec_match_at, spec_skip_ws};

verus! {

/// A `.method` block.
#[derive(Debug, PartialEq, Eq)]
pub struct Method {
    /// Method modifiers.
    pub modifiers: Vec<Modifier>,
    /// Name and signature.
    pub param: MethodParameter,
    /// Number of local variables required by the operations.
    pub locals: Option<u32>,
    /// Parameter declarations.
    pub params: Vec<Param>,
    /// Any method level annotations.
    pub annotations: Vec<Annotation>,
    /// The operations of the method body.
    pub ops: Vec<Op>,
}

/// Mathematical model of a `Method`.
pub struct SpecMethod {
    pub modifiers: Seq<Modifier>,
    pub param: SpecMethodParameter,
    pub locals: Option<u32>,
    pub params: Seq<SpecParam>,
    pub annotations: Seq<SpecAnnotation>,
    pub ops: Seq<SpecOp>,
}

/// The views of a sequence of parameter declarations.
pub open spec fn spec_view_params(l: Seq<Param>) -> Seq<SpecParam> {
    Seq::new(l.len(), |k: int| l[k]@)
}

/// The views of a sequence of operations.
pub open spec fn spec_view_ops(l: Seq<Op>) -> Seq<SpecOp> {
    Seq::new(l.len(), |k: int| l[k]@)
}

impl View for Method {
    type V = SpecMethod;

    open spec fn view(&self) -> SpecMethod {
        SpecMethod {
            modifiers: self.modifiers@,
            param: self.param@,
            locals: self.locals,
            params: spec_view_params(self.params@),
            annotations: spec_view_ann_seq(self.annotations@),
            ops: spec_view_ops(self.ops@),
        }
    }
}

/// Whether every operation of a method carries what rendering needs.
pub open spec fn spec_method_wf(m: SpecMethod) -> bool {
    forall|k: int| 0 <= k < m.ops.len() ==> spec_op_wf(#[trigger] m.ops[k])
}

/// Zero or more `.param` declarations.
pub open spec fn spec_parse_params(s: Seq<char>, i: int) -> (Seq<SpecParam>, int)
    decreases s.len() - i,
{
    if !(0 <= i <= s.len()) {
        (Seq::empty(), i)
    } else {
        match spec_parse_param(s, i) {
            Some((v, j)) => if i < j <= s.len() {
                let rest = spec_parse_params(s, j);
                (seq![v] + rest.0, rest.1)
            } else {
                (Seq::empty(), i)
            },
            None => (Seq::empty(), i),
        }
    }
}

fn parse_params(s: &str, i: usize) -> (r: (Vec<Param>, usize))
    requires
        i <= s@.len(),
    ensures
        spec_view_params(r.0@) == spec_parse_params(s@, i as int).0,
        r.1 == spec_parse_params(s@, i as int).1,
        i <= r.1 <= s@.len(),
    decreases s@.len() - i,
{
    match parse_param(s, i) {
        Ok((v, j)) => {
            if j <= i {
                let e: Vec<Param> = Vec::new();
                proof {
                    assert(spec_view_params(e@) =~= Seq::<SpecParam>::empty());
                }
                return (e, i);
            }
            let (mut rest, end) = parse_params(s, j);
            proof {
                assert(spec_view_params(rest@.insert(0, v)) =~= seq![v@] + spec_view_params(
                    rest@,
                ));
            }
            rest.insert(0, v);
            (rest, end)
        },
        Err(_) => {
            let e: Vec<Param> = Vec::new();
            proof {
                assert(spec_view_params(e@) =~= Seq::<SpecParam>::empty());
            }
            (e, i)
        },
    }
}

/// Zero or more operations.
pub open spec fn spec_parse_ops(s: Seq<char>, i: int) -> (Seq<SpecOp>, int)
    decreases s.len() - i,
{
    if !(0 <= i <= s.len()) {
        (Seq::empty(), i)
    } else {
        match spec_parse_op(s, i) {
            Some((v, j)) => if i < j <= s.len() {
                let rest = spec_parse_ops(s, j);
                (seq![v] + rest.0, rest.1)
            } else {
                (Seq::empty(), i)
            },
            None => (Seq::empty(), i),
        }
    }
}

fn parse_ops(s: &str, i: usize) -> (r: (Vec<Op>, usize))
    requires
        i <= s@.len(),
    ensures
        spec_view_ops(r.0@) == spec_parse_ops(s@, i as int).0,
        r.1 == spec_parse_ops(s@, i as int).1,
        i <= r.1 <= s@.len(),
    decreases s@.len() - i,
{
    match parse_op(s, i) {
        Ok((v, j)) => {
            if j <= i {
                let e: Vec<Op> = Vec::new();
                proof {
                    assert(spec_view_ops(e@) =~= Seq::<SpecOp>::empty());
                }
                return (e, i);
            }
            let (mut rest, end) = parse_ops(s, j);
            proof {
                assert(spec_view_ops(rest@.insert(0, v)) =~= seq![v@] + spec_view_ops(rest@));
            }
            rest.insert(0, v);
            (rest, end)
        },
        Err(_) => {
            let e: Vec<Op> = Vec::new();
            proof {
                assert(spec_view_ops(e@) =~= Seq::<SpecOp>::empty());
            }
            (e, i)
        },
    }
}

/// The `.method` grammar at `i`: the keyword, modifiers, the name and
/// signature, an optional `.locals` count, parameter declarations,
/// annotations, an optional `.prologue` marker, the operations, and the
/// `.end method` footer.
pub open spec fn spec_parse_method(s: Seq<char>, i: int) -> Option<(SpecMethod, int)> {
    let p = spec_skip_ws(s, i);
    if !(0 <= i <= p <= s.len()) {
        None
    } else if spec_match_at(s, p, ".method"@) {
        let m = spec_parse_modifiers(s, p + ".method"@.len());
        let p2 = spec_skip_ws(s, m.1);
        if m.1 <= p2 <= s.len() {
            match spec_parse_method_parameter(s, p2) {
                Some((mp, j)) => {
                    let p3 = spec_skip_ws(s, j);
                    let loc = if j <= p3 <= s.len() && spec_match_at(s, p3, ".locals"@) {
                        let q2 = spec_skip_ws(s, p3 + ".locals"@.len());
                        if p3 < q2 <= s.len() {
                            match int_lit_value(s, q2) {
                                Some((w, j2)) => if 0 <= w <= u32::MAX {
                                    (Some(w as u32), j2)
                                } else {
                                    (None, j)
                                },
                                None => (None, j),
                            }
                        } else {
                            (None, j)
                        }
                    } else {
                        (None, j)
                    };
                    let ps = spec_parse_params(s, loc.1);
                    let anns = spec_parse_annotations(s, ps.1);
                    let p4 = spec_skip_ws(s, anns.1);
                    let p5 = if anns.1 <= p4 <= s.len() && spec_match_at(s, p4, ".prologue"@) {
                        p4 + ".prologue"@.len()
                    } else {
                        anns.1
                    };
                    let ops = spec_parse_ops(s, p5);
                    let pe = spec_skip_ws(s, ops.1);
                    if ops.1 <= pe <= s.len() && spec_match_at(s, pe, ".end method"@) {
                        Some(
                            (
                                SpecMethod {
                                    modifiers: m.0,
                                    param: mp,
                                    locals: loc.0,
                                    params: ps.0,
                                    annotations: anns.0,
                                    ops: ops.0,
                                },
                                pe + ".end method"@.len(),
                            ),
                        )
                    } else {
                        None
                    }
                },
                None => None,
            }
        } else {
            None
        }
    } else {
        None
    }
}

/// Parse a `.method` block.
#[verifier::rlimit(100)]
pub fn parse_method(s: &str, i: usize) -> (r: Result<(Method, usize), ParseError>)
    requires
        i <= s@.len(),
    ensures
        match spec_parse_method(s@, i as int) {
            Some((v, j)) => r matches Ok(p) && p.0@ == v && p.1 == j && i <= j <= s@.len(),
            None => r is Err,
        },
{
    proof {
        reveal_strlit(".locals");
    }
    let p = skip_ws(s, i);
    match match_lit(s, p, ".method") {
        Some(q) => {
            let (mods, m_end) = parse_modifiers(s, q);
            let p2 = skip_ws(s, m_end);
            match parse_method_parameter(s, p2) {
                Ok((mp, j)) => {
                    let p3 = skip_ws(s, j);
                    let mut locals: Option<u32> = None;
                    let mut pos: usize = j;
                    match match_lit(s, p3, ".locals") {
                        Some(q1) => {
                            let q2 = skip_ws(s, q1);
                            match parse_int_lit_u32(s, q2) {
                                Ok((w, j2)) => {
                                    locals = Some(w);
                                    pos = j2;
                                },
                                Err(_) => {},
                            }
                        },
                        None => {},
                    }
                    let (params, ps_end) = parse_params(s, pos);
                    let (anns, a_end) = parse_annotations(s, ps_end);
                    let p4 = skip_ws(s, a_end);
                    let p5: usize = match match_lit(s, p4, ".prologue") {
                        Some(q3) => q3,
                        None => a_end,
                    };
                    let (ops, o_end) = parse_ops(s, p5);
                    let pe = skip_ws(s, o_end);
                    match match_lit(s, pe, ".end method") {
                        Some(endp) => Ok(
                            (
                                Method {
                                    modifiers: mods,
                                    param: mp,
                                    locals,
                                    params,
                                    annotations: anns,
                                    ops,
                                },
                                endp,
                            ),
                        ),
                        None => Err(ParseError::MalformedOperand(pe)),
                    }
                },
                Err(e) => Err(e),
            }
        },
        None => Err(ParseError::MalformedOperand(p)),
    }
}

// ---------------------------------------------------------------------------
// Writing methods back out.
// ---------------------------------------------------------------------------

/// The parameter lines of a method, each indented and newline-terminated.
pub open spec fn spec_param_lines(l: Seq<SpecParam>, k: int) -> Seq<char>
    decreases l.len() - k,
{
    if 0 <= k < l.len() {
        seq![' ', ' ', ' ', ' '] + spec_param_text(l[k]) + seq!['\n'] + spec_param_lines(
            l,
            k + 1,
        )
    } else {
        Seq::empty()
    }
}

fn render_param_lines(v: &Vec<Param>, k: usize) -> (r: String)
    requires
        k <= v@.len(),
    ensures
        r@ == spec_param_lines(spec_view_params(v@), k as int),
    decreases v@.len() - k,
{
    if k >= v.len() {
        let s = String::new();
        proof {
            assert(s@ =~= spec_param_lines(spec_view_params(v@), k as int));
        }
        s
    } else {
        let mut s = String::from_str("    ");
        proof {
            reveal_strlit("    ");
            assert("    "@ =~= seq![' ', ' ', ' ', ' ']);
        }
        let t = write_param(&v[k]);
        s.append(t.as_str());
        s.push('\n');
        let rest = render_param_lines(v, k + 1);
        s.append(rest.as_str());
        proof {
            assert(s@ =~= spec_param_lines(spec_view_params(v@), k as int));
        }
        s
    }
}

/// The annotation blocks of a method, concatenated.
pub open spec fn spec_method_ann_text(l: Seq<SpecAnnotation>, k: int) -> Seq<char>
    decreases l.len() - k,
{
    if 0 <= k < l.len() {
        spec_annotation_text(l[k], false, true) + spec_method_ann_text(l, k + 1)
    } else {
        Seq::empty()
    }
}

fn render_method_anns(v: &Vec<Annotation>, k: usize) -> (r: String)
    requires
        k <= v@.len(),
    ensures
        r@ == spec_method_ann_text(spec_view_ann_seq(v@), k as int),
    decreases v@.len() - k,
{
    proof {
        lemma_view_ann_seq_props(v@);
    }
    if k >= v.len() {
        let s = String::new();
        proof {
            assert(s@ =~= spec_method_ann_text(spec_view_ann_seq(v@), k as int));
        }
        s
    } else {
        let mut s = write_annotation(&v[k], false, true);
        let rest = render_method_anns(v, k + 1);
        s.append(rest.as_str());
        proof {
            assert(s@ =~= spec_method_ann_text(spec_view_ann_seq(v@), k as int));
        }
        s
    }
}

/// The operation lines of a method, each indented and newline-terminated.
pub open spec fn spec_op_lines(l: Seq<SpecOp>, k: int) -> Seq<char>
    decreases l.len() - k,
{
    if 0 <= k < l.len() {
        seq![' ', ' ', ' ', ' '] + spec_op_text(l[k]) + seq!['\n'] + spec_op_lines(l, k + 1)
    } else {
        Seq::empty()
    }
}

fn render_op_lines(v: &Vec<Op>, k: usize) -> (r: String)
    requires
        k <= v@.len(),
        forall|m: int| 0 <= m < v@.len() ==> spec_op_wf(#[trigger] spec_view_ops(v@)[m]),
    ensures
        r@ == spec_op_lines(spec_view_ops(v@), k as int),
    decreases v@.len() - k,
{
    if k >= v.len() {
        let s = String::new();
        proof {
            assert(s@ =~= spec_op_lines(spec_view_ops(v@), k as int));
        }
        s
    } else {
        let mut s = String::from_str("    ");
        proof {
            reveal_strlit("    ");
            assert("    "@ =~= seq![' ', ' ', ' ', ' ']);
            assert(spec_op_wf(spec_view_ops(v@)[k as int]));
        }
        let t = v[k].to_smali();
        s.append(t.as_str());
        s.push('\n');
        let rest = render_op_lines(v, k + 1);
        s.append(rest.as_str());
        proof {
            assert(s@ =~= spec_op_lines(spec_view_ops(v@), k as int));
        }
        s
    }
}

/// The text of a whole `.method` block, footer and blank line included.
pub open spec fn spec_method_text(m: SpecMethod) -> Seq<char> {
    ".method "@ + spec_modifiers_text(m.modifiers, 0) + m.param.ident + spec_ms_jni(
        m.param.ms,
    ) + seq!['\n'] + (if m.ops.len() > 0 {
        match m.locals {
            Some(n) => "    .locals "@ + spec_dec_u64(n as int) + seq!['\n'],
            None => Seq::empty(),
        }
    } else {
        Seq::empty()
    }) + spec_param_lines(m.params, 0) + spec_method_ann_text(m.annotations, 0)
        + spec_op_lines(m.ops, 0) + ".end method\n\n"@
}

/// Render a whole `.method` block.
pub fn write_method(method: &Method) -> (r: String)
    requires
        spec_method_wf(method@),
    ensures
        r@ == spec_method_text(method@),
{
    let mut out = String::from_str(".method ");
    let mods = write_modifiers(&method.modifiers);
    out.append(mods.as_str());
    out.append(method.param.ident.as_str());
    let ms = method.param.ms.to_jni();
    out.append(ms.as_str());
    out.push('\n');
    if method.ops.len() > 0 {
        match method.locals {
            Some(n) => {
                out.append("    .locals ");
                let d = u64_to_dec(n as u64);
                out.append(d.as_str());
                out.push('\n');
            },
            None => {},
        }
    }
    let ps = render_param_lines(&method.params, 0);
    out.append(ps.as_str());
    let anns = render_method_anns(&method.annotations, 0);
    out.append(anns.as_str());
    let ops = render_op_lines(&method.ops, 0);
    out.append(ops.as_str());
    out.append(".end method\n\n");
    proof {
        assert(out@ =~= spec_method_text(method@));
    }
    out
}

} // verus!
