//! A method parameter declaration: its register, an optional name, and
//! optional annotations.

use vstd::prelude::*;
use vstd::string::*;

use crate::ParseError;
use crate::annotation::{
    Annotation, SpecAnnotation, lemma_view_ann_seq_insert0, parse_annotation,
    spec_annotation_text, spec_parse_annotation, spec_view_ann_seq,
    write_annotation, lemma_view_ann_seq_props,
};
use crate::op::dex_op::{Register, parse_register, spec_parse_register, spec_register_text};
use crate::text::{
    match_lit, parse_string_lit, skip_ws, spec_match_at, spec_parse_string_lit, spec_skip_ws,
};

verus! {

/// A `.param` declaration.
#[derive(Debug, PartialEq, Eq)]
pub struct Param {
    /// Register used for the parameter.
    pub register: Register,
    /// Parameter name.
    pub name: Option<String>,
    /// Parameter annotations.
    pub annotations: Vec<Annotation>,
}

/// Mathematical model of a `Param`.
pub struct SpecParam {
    pub register: Register,
    pub name: Option<Seq<char>>,
    pub annotations: Seq<SpecAnnotation>,
}

impl View for Param {
    type V = SpecParam;

    open spec fn view(&self) -> SpecParam {
        SpecParam {
            register: self.register,
            name: match self.name {
                Some(n) => Some(n@),
                None => None,
            },
            annotations: spec_view_ann_seq(self.annotations@),
        }
    }
}

/// The annotations of a `.param` block, up to and including `.end param`.
pub open spec fn spec_param_anns(s: Seq<char>, i: int) -> Option<(Seq<SpecAnnotation>, int)>
    decreases s.len() - i,
{
    let p = spec_skip_ws(s, i);
    if !(0 <= i <= p <= s.len()) {
        None
    } else if spec_match_at(s, p, ".end param"@) {
        Some((Seq::empty(), p + ".end param"@.len()))
    } else {
        match spec_parse_annotation(s, i) {
            Some((a, j)) => if i < j <= s.len() {
                match spec_param_anns(s, j) {
                    Some((rest, k)) => Some((seq![a] + rest, k)),
                    None => None,
                }
            } else {
                None
            },
            None => None,
        }
    }
}

fn param_anns(s: &str, i: usize) -> (r: Result<(Vec<Annotation>, usize), ParseError>)
    requires
        i <= s@.len(),
    ensures
        match spec_param_anns(s@, i as int) {
            Some((l, j)) => r matches Ok(p) && spec_view_ann_seq(p.0@) == l && p.1 == j && i
                <= j <= s@.len(),
            None => r is Err,
        },
    decreases s@.len() - i,
{
    let p = skip_ws(s, i);
    match match_lit(s, p, ".end param") {
        Some(q) => {
            let v: Vec<Annotation> = Vec::new();
            proof {
                assert(spec_view_ann_seq(v@) =~= Seq::<SpecAnnotation>::empty());
            }
            Ok((v, q))
        },
        None => match parse_annotation(s, i) {
            Ok((a, j)) => {
                if j <= i {
                    return Err(ParseError::MalformedOperand(i));
                }
                match param_anns(s, j) {
                    Ok((mut rest, k)) => {
                        proof {
                            lemma_view_ann_seq_insert0(rest@, a);
                        }
                        rest.insert(0, a);
                        Ok((rest, k))
                    },
                    Err(e) => Err(e),
                }
            },
            Err(e) => Err(e),
        },
    }
}

/// The `.param` grammar at `i`: the keyword, a register, an optional
/// comma-led name, and an optional annotation block closed by
/// `.end param`.
pub open spec fn spec_parse_param(s: Seq<char>, i: int) -> Option<(SpecParam, int)> {
    let p = spec_skip_ws(s, i);
    if !(0 <= i <= p <= s.len()) {
        None
    } else if spec_match_at(s, p, ".param"@) {
        match spec_parse_register(s, p + ".param"@.len()) {
            Some((reg, j)) => {
                let j2 = spec_skip_ws(s, j);
                let named = if j <= j2 && j2 < s.len() && s[j2] == ',' {
                    match spec_parse_string_lit(s, j2 + 1) {
                        Some((n, k)) => Some((Some(n), k)),
                        None => None,
                    }
                } else {
                    Some((None, j))
                };
                match named {
                    Some((nm, k)) => match spec_param_anns(s, k) {
                        Some((anns, m)) => Some(
                            (SpecParam { register: reg, name: nm, annotations: anns }, m),
                        ),
                        None => Some(
                            (
                                SpecParam {
                                    register: reg,
                                    name: nm,
                                    annotations: Seq::empty(),
                                },
                                k,
                            ),
                        ),
                    },
                    None => None,
                }
            },
            None => None,
        }
    } else {
        None
    }
}

/// Parse a `.param` declaration.
pub fn parse_param(s: &str, i: usize) -> (r: Result<(Param, usize), ParseError>)
    requires
        i <= s@.len(),
    ensures
        match spec_parse_param(s@, i as int) {
            Some((v, j)) => r matches Ok(p) && p.0@ == v && p.1 == j && i <= j <= s@.len(),
            None => r is Err,
        },
{
    let p = skip_ws(s, i);
    match match_lit(s, p, ".param") {
        Some(q) => match parse_register(s, q) {
            Ok((reg, j)) => {
                let j2 = skip_ws(s, j);
                let nm: Option<String>;
                let k: usize;
                if j2 < s.unicode_len() && s.get_char(j2) == ',' {
                    match parse_string_lit(s, j2 + 1) {
                        Some((n, k1)) => {
                            nm = Some(n);
                            k = k1;
                        },
                        None => {
                            return Err(ParseError::MalformedOperand(j2));
                        },
                    }
                } else {
                    nm = None;
                    k = j;
                }
                match param_anns(s, k) {
                    Ok((anns, m)) => Ok(
                        (Param { register: reg, name: nm, annotations: anns }, m),
                    ),
                    Err(_) => {
                        let v: Vec<Annotation> = Vec::new();
                        proof {
                            assert(spec_view_ann_seq(v@) =~= Seq::<SpecAnnotation>::empty());
                        }
                        Ok((Param { register: reg, name: nm, annotations: v }, k))
                    },
                }
            },
            Err(e) => Err(e),
        },
        None => Err(ParseError::MalformedOperand(p)),
    }
}

/// The lines of a param's annotations, each rendered indented.
pub open spec fn spec_param_ann_text(l: Seq<SpecAnnotation>, k: int) -> Seq<char>
    decreases l.len() - k,
{
    if 0 <= k < l.len() {
        spec_annotation_text(l[k], false, true) + spec_param_ann_text(l, k + 1)
    } else {
        Seq::empty()
    }
}

pub(crate) fn write_param_anns(v: &Vec<Annotation>, k: usize) -> (r: String)
    requires
        k <= v@.len(),
    ensures
        r@ == spec_param_ann_text(spec_view_ann_seq(v@), k as int),
    decreases v@.len() - k,
{
    proof {
        lemma_view_ann_seq_props(v@);
    }
    if k >= v.len() {
        let s = String::new();
        proof {
            assert(s@ =~= spec_param_ann_text(spec_view_ann_seq(v@), k as int));
        }
        s
    } else {
        let mut s = write_annotation(&v[k], false, true);
        let rest = write_param_anns(v, k + 1);
        s.append(rest.as_str());
        proof {
            assert(s@ =~= spec_param_ann_text(spec_view_ann_seq(v@), k as int));
        }
        s
    }
}

/// The text of a `.param` declaration: the keyword, the register, an
/// optional quoted name, and an annotation block if any annotations are
/// present.
pub open spec fn spec_param_text(p: SpecParam) -> Seq<char> {
    ".param "@ + spec_register_text(p.register) + (match p.name {
        Some(n) => ", \""@ + n + seq!['"'],
        None => Seq::empty(),
    }) + (if p.annotations.len() > 0 {
        seq!['\n'] + spec_param_ann_text(p.annotations, 0) + ".end param"@
    } else {
        Seq::empty()
    })
}

/// Render a `.param` declaration.
pub fn write_param(param: &Param) -> (r: String)
    ensures
        r@ == spec_param_text(param@),
{
    proof {
        lemma_view_ann_seq_props(param.annotations@);
    }
    let mut out = String::from_str(".param ");
    let reg = param.register.to_smali();
    out.append(reg.as_str());
    match &param.name {
        Some(n) => {
            out.append(", \"");
            out.append(n.as_str());
            out.push('"');
        },
        None => {},
    }
    if param.annotations.len() > 0 {
        out.push('\n');
        let anns = write_param_anns(&param.annotations, 0);
        out.append(anns.as_str());
        out.append(".end param");
    }
    proof {
        assert(out@ =~= spec_param_text(param@));
    }
    out
}

} // verus!
