//! A Java field declaration: modifiers, name-and-type, an optional
//! initialiser, and annotations.

use vstd::prelude::*;
use vstd::string::*;

use crate::ParseError;
use crate::annotation::{
    Annotation, SpecAnnotation, parse_annotations, spec_parse_annotations, spec_view_ann_seq,
};
use crate::modifier::{Modifier, parse_modifiers, spec_parse_modifiers};
use crate::signature::type_signature::{
    SpecTypeParameter, TypeParameter, spec_parse_type_parameter, parse_type_parameter,
};
use crate::text::{match_lit, skip_ws, spec_match_at, spec_skip_ws, spec_until_char,
    until_char};

verus! {

/// A `.field` declaration.
#[derive(Debug, PartialEq, Eq)]
pub struct Field {
    /// Any modifiers.
    pub modifiers: Vec<Modifier>,
    /// Name and type signature of the field.
    pub param: TypeParameter,
    /// The initialiser text, if one is included.
    pub initial_value: Option<String>,
    /// Field level annotations.
    pub annotations: Vec<Annotation>,
}

/// Mathematical model of a `Field`.
pub struct SpecField {
    pub modifiers: Seq<Modifier>,
    pub param: SpecTypeParameter,
    pub initial_value: Option<Seq<char>>,
    pub annotations: Seq<SpecAnnotation>,
}

impl View for Field {
    type V = SpecField;

    open spec fn view(&self) -> SpecField {
        SpecField {
            modifiers: self.modifiers@,
            param: self.param@,
            initial_value: match self.initial_value {
                Some(v) => Some(v@),
                None => None,
            },
            annotations: spec_view_ann_seq(self.annotations@),
        }
    }
}

/// The `.field` grammar at `i`: the keyword, modifiers, a name-and-type
/// pair, an optional `=`-led raw initialiser running to the end of the
/// line, annotations, and an optional `.end field` footer.
pub open spec fn spec_parse_field(s: Seq<char>, i: int) -> Option<(SpecField, int)> {
    let p = spec_skip_ws(s, i);
    if !(0 <= i <= p <= s.len()) {
        None
    } else if spec_match_at(s, p, ".field"@) {
        let m = spec_parse_modifiers(s, p + ".field"@.len());
        let p2 = spec_skip_ws(s, m.1);
        if m.1 <= p2 <= s.len() {
            match spec_parse_type_parameter(s, p2) {
                Some((tp, j)) => {
                    let p3 = spec_skip_ws(s, j);
                    if j <= p3 <= s.len() {
                        let iv = if p3 < s.len() && s[p3] == '=' {
                            let v0 = spec_skip_ws(s, p3 + 1);
                            if p3 < v0 <= s.len() {
                                let e = spec_until_char(s, v0, '\n');
                                (Some(s.subrange(v0, e)), e)
                            } else {
                                (None, j)
                            }
                        } else {
                            (None, j)
                        };
                        let anns = spec_parse_annotations(s, iv.1);
                        let pe = spec_skip_ws(s, anns.1);
                        let end = if anns.1 <= pe <= s.len() && spec_match_at(
                            s,
                            pe,
                            ".end field"@,
                        ) {
                            pe + ".end field"@.len()
                        } else {
                            anns.1
                        };
                        Some(
                            (
                                SpecField {
                                    modifiers: m.0,
                                    param: tp,
                                    initial_value: iv.0,
                                    annotations: anns.0,
                                },
                                end,
                            ),
                        )
                    } else {
                        None
                    }
                },
                None => None,
            }
        } else {
            None
        }
    } else {
        None
    }
}

/// Parse a `.field` declaration.
pub fn parse_field(s: &str, i: usize) -> (r: Result<(Field, usize), ParseError>)
    requires
        i <= s@.len(),
    ensures
        match spec_parse_field(s@, i as int) {
            Some((v, j)) => r matches Ok(p) && p.0@ == v && p.1 == j && i <= j <= s@.len(),
            None => r is Err,
        },
{
    let p = skip_ws(s, i);
    match match_lit(s, p, ".field") {
        Some(q) => {
            let (mods, m_end) = parse_modifiers(s, q);
            let p2 = skip_ws(s, m_end);
            match parse_type_parameter(s, p2) {
                Ok((tp, j)) => {
                    let p3 = skip_ws(s, j);
                    let iv: Option<String>;
                    let pos: usize;
                    if p3 < s.unicode_len() && s.get_char(p3) == '=' {
                        let v0 = skip_ws(s, p3 + 1);
                        let e = until_char(s, v0, '\n');
                        iv = Some(s.substring_char(v0, e).to_owned());
                        pos = e;
                    } else {
                        iv = None;
                        pos = j;
                    }
                    let (anns, a_end) = parse_annotations(s, pos);
                    let pe = skip_ws(s, a_end);
                    let end: usize = match match_lit(s, pe, ".end field") {
                        Some(e2) => e2,
                        None => a_end,
                    };
                    Ok(
                        (
                            Field {
                                modifiers: mods,
                                param: tp,
                                initial_value: iv,
                                annotations: anns,
                            },
                            end,
                        ),
                    )
                },
                Err(e) => Err(e),
            }
        },
        None => Err(ParseError::MalformedOperand(p)),
    }
}

} // verus!
