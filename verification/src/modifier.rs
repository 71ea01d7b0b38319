//! Java method, field and class modifiers and their textual form.

use vstd::prelude::*;
use vstd::string::*;

use crate::SmaliError;
use crate::text::{match_lit, skip_ws, spec_match_at, spec_skip_ws, str_eq};

verus! {

/// A Java modifier, as written in a smali declaration.
#[derive(Debug, Clone, Copy, PartialEq, Eq, PartialOrd, Ord, Structural)]
pub enum Modifier {
    Public,
    Private,
    Protected,
    Static,
    Final,
    Synchronized,
    Volatile,
    Bridge,
    Transient,
    Varargs,
    Native,
    Interface,
    Abstract,
    Strict,
    Synthetic,
    Annotation,
    Enum,
    Constructor,
    DeclaredSynchronized,
}

impl Modifier {
    /// The keyword this modifier is written as.
    pub open spec fn spec_text(self) -> Seq<char> {
        match self {
            Modifier::Public => "public"@,
            Modifier::Private => "private"@,
            Modifier::Protected => "protected"@,
            Modifier::Static => "static"@,
            Modifier::Final => "final"@,
            Modifier::Synchronized => "synchronized"@,
            Modifier::Volatile => "volatile"@,
            Modifier::Bridge => "bridge"@,
            Modifier::Transient => "transient"@,
            Modifier::Varargs => "varargs"@,
            Modifier::Native => "native"@,
            Modifier::Interface => "interface"@,
            Modifier::Abstract => "abstract"@,
            Modifier::Strict => "strict"@,
            Modifier::Synthetic => "synthetic"@,
            Modifier::Annotation => "annotation"@,
            Modifier::Enum => "enum"@,
            Modifier::Constructor => "constructor"@,
            Modifier::DeclaredSynchronized => "synchronized"@,
        }
    }

    /// Render this modifier as its keyword.
    pub fn to_str(&self) -> (r: &'static str)
        ensures
            r@ == self.spec_text(),
    {
        match self {
            Modifier::Public => "public",
            Modifier::Private => "private",
            Modifier::Protected => "protected",
            Modifier::Static => "static",
            Modifier::Final => "final",
            Modifier::Synchronized => "synchronized",
            Modifier::Volatile => "volatile",
            Modifier::Bridge => "bridge",
            Modifier::Transient => "transient",
            Modifier::Varargs => "varargs",
            Modifier::Native => "native",
            Modifier::Interface => "interface",
            Modifier::Abstract => "abstract",
            Modifier::Strict => "strict",
            Modifier::Synthetic => "synthetic",
            Modifier::Annotation => "annotation",
            Modifier::Enum => "enum",
            Modifier::Constructor => "constructor",
            Modifier::DeclaredSynchronized => "synchronized",
        }
    }

    /// The modifier a keyword denotes, if any. This standalone lookup
    /// reads the keyword `strict` as the `static` modifier; the
    /// declaration grammar keeps `strict` as its own modifier.
    pub open spec fn spec_of_keyword(t: Seq<char>) -> Option<Modifier> {
        if t == "public"@ {
            Some(Modifier::Public)
        } else if t == "protected"@ {
            Some(Modifier::Protected)
        } else if t == "private"@ {
            Some(Modifier::Private)
        } else if t == "static"@ {
            Some(Modifier::Static)
        } else if t == "final"@ {
            Some(Modifier::Final)
        } else if t == "abstract"@ {
            Some(Modifier::Abstract)
        } else if t == "interface"@ {
            Some(Modifier::Interface)
        } else if t == "synthetic"@ {
            Some(Modifier::Synthetic)
        } else if t == "transient"@ {
            Some(Modifier::Transient)
        } else if t == "volatile"@ {
            Some(Modifier::Volatile)
        } else if t == "synchronized"@ {
            Some(Modifier::Synchronized)
        } else if t == "native"@ {
            Some(Modifier::Native)
        } else if t == "varargs"@ {
            Some(Modifier::Varargs)
        } else if t == "annotation"@ {
            Some(Modifier::Annotation)
        } else if t == "enum"@ {
            Some(Modifier::Enum)
        } else if t == "strict"@ {
            Some(Modifier::Static)
        } else if t == "bridge"@ {
            Some(Modifier::Bridge)
        } else if t == "constructor"@ {
            Some(Modifier::Constructor)
        } else {
            None
        }
    }

    /// Look a keyword up.
    pub fn from_str(t: &str) -> (r: Result<Modifier, SmaliError>)
        ensures
            match Self::spec_of_keyword(t@) {
                Some(m) => r == Ok::<Modifier, SmaliError>(m),
                None => r is Err,
            },
    {
        if str_eq(t, "public") {
            Ok(Modifier::Public)
        } else if str_eq(t, "protected") {
            Ok(Modifier::Protected)
        } else if str_eq(t, "private") {
            Ok(Modifier::Private)
        } else if str_eq(t, "static") {
            Ok(Modifier::Static)
        } else if str_eq(t, "final") {
            Ok(Modifier::Final)
        } else if str_eq(t, "abstract") {
            Ok(Modifier::Abstract)
        } else if str_eq(t, "interface") {
            Ok(Modifier::Interface)
        } else if str_eq(t, "synthetic") {
            Ok(Modifier::Synthetic)
        } else if str_eq(t, "transient") {
            Ok(Modifier::Transient)
        } else if str_eq(t, "volatile") {
            Ok(Modifier::Volatile)
        } else if str_eq(t, "synchronized") {
            Ok(Modifier::Synchronized)
        } else if str_eq(t, "native") {
            Ok(Modifier::Native)
        } else if str_eq(t, "varargs") {
            Ok(Modifier::Varargs)
        } else if str_eq(t, "annotation") {
            Ok(Modifier::Annotation)
        } else if str_eq(t, "enum") {
            Ok(Modifier::Enum)
        } else if str_eq(t, "strict") {
            Ok(Modifier::Static)
        } else if str_eq(t, "bridge") {
            Ok(Modifier::Bridge)
        } else if str_eq(t, "constructor") {
            Ok(Modifier::Constructor)
        } else {
            Err(SmaliError::new("Unknown modifier"))
        }
    }
}

/// The first modifier keyword at `p`, by the order the grammar tries
/// them, with the position just after it. Here `strict` is its own
/// modifier, so a declaration keeps it across a read-write cycle.
pub open spec fn spec_modifier_kw(s: Seq<char>, p: int) -> Option<(Modifier, int)> {
    if spec_match_at(s, p, "public"@) {
        Some((Modifier::Public, p + "public"@.len()))
    } else if spec_match_at(s, p, "protected"@) {
        Some((Modifier::Protected, p + "protected"@.len()))
    } else if spec_match_at(s, p, "private"@) {
        Some((Modifier::Private, p + "private"@.len()))
    } else if spec_match_at(s, p, "static"@) {
        Some((Modifier::Static, p + "static"@.len()))
    } else if spec_match_at(s, p, "final"@) {
        Some((Modifier::Final, p + "final"@.len()))
    } else if spec_match_at(s, p, "abstract"@) {
        Some((Modifier::Abstract, p + "abstract"@.len()))
    } else if spec_match_at(s, p, "interface"@) {
        Some((Modifier::Interface, p + "interface"@.len()))
    } else if spec_match_at(s, p, "synthetic"@) {
        Some((Modifier::Synthetic, p + "synthetic"@.len()))
    } else if spec_match_at(s, p, "transient"@) {
        Some((Modifier::Transient, p + "transient"@.len()))
    } else if spec_match_at(s, p, "volatile"@) {
        Some((Modifier::Volatile, p + "volatile"@.len()))
    } else if spec_match_at(s, p, "synchronized"@) {
        Some((Modifier::Synchronized, p + "synchronized"@.len()))
    } else if spec_match_at(s, p, "native"@) {
        Some((Modifier::Native, p + "native"@.len()))
    } else if spec_match_at(s, p, "varargs"@) {
        Some((Modifier::Varargs, p + "varargs"@.len()))
    } else if spec_match_at(s, p, "annotation"@) {
        Some((Modifier::Annotation, p + "annotation"@.len()))
    } else if spec_match_at(s, p, "enum"@) {
        Some((Modifier::Enum, p + "enum"@.len()))
    } else if spec_match_at(s, p, "strict"@) {
        Some((Modifier::Strict, p + "strict"@.len()))
    } else if spec_match_at(s, p, "bridge"@) {
        Some((Modifier::Bridge, p + "bridge"@.len()))
    } else if spec_match_at(s, p, "constructor"@) {
        Some((Modifier::Constructor, p + "constructor"@.len()))
    } else {
        None
    }
}

fn modifier_kw(s: &str, p: usize) -> (r: Option<(Modifier, usize)>)
    requires
        p <= s@.len(),
    ensures
        match spec_modifier_kw(s@, p as int) {
            Some((m, j)) => r matches Some(q) && q.0 == m && q.1 == j && p <= j <= s@.len(),
            None => r is None,
        },
{
    match match_lit(s, p, "public") {
        Some(j) => {
            return Some((Modifier::Public, j));
        },
        None => {},
    }
    match match_lit(s, p, "protected") {
        Some(j) => {
            return Some((Modifier::Protected, j));
        },
        None => {},
    }
    match match_lit(s, p, "private") {
        Some(j) => {
            return Some((Modifier::Private, j));
        },
        None => {},
    }
    match match_lit(s, p, "static") {
        Some(j) => {
            return Some((Modifier::Static, j));
        },
        None => {},
    }
    match match_lit(s, p, "final") {
        Some(j) => {
            return Some((Modifier::Final, j));
        },
        None => {},
    }
    match match_lit(s, p, "abstract") {
        Some(j) => {
            return Some((Modifier::Abstract, j));
        },
        None => {},
    }
    match match_lit(s, p, "interface") {
        Some(j) => {
            return Some((Modifier::Interface, j));
        },
        None => {},
    }
    match match_lit(s, p, "synthetic") {
        Some(j) => {
            return Some((Modifier::Synthetic, j));
        },
        None => {},
    }
    match match_lit(s, p, "transient") {
        Some(j) => {
            return Some((Modifier::Transient, j));
        },
        None => {},
    }
    match match_lit(s, p, "volatile") {
        Some(j) => {
            return Some((Modifier::Volatile, j));
        },
        None => {},
    }
    match match_lit(s, p, "synchronized") {
        Some(j) => {
            return Some((Modifier::Synchronized, j));
        },
        None => {},
    }
    match match_lit(s, p, "native") {
        Some(j) => {
            return Some((Modifier::Native, j));
        },
        None => {},
    }
    match match_lit(s, p, "varargs") {
        Some(j) => {
            return Some((Modifier::Varargs, j));
        },
        None => {},
    }
    match match_lit(s, p, "annotation") {
        Some(j) => {
            return Some((Modifier::Annotation, j));
        },
        None => {},
    }
    match match_lit(s, p, "enum") {
        Some(j) => {
            return Some((Modifier::Enum, j));
        },
        None => {},
    }
    match match_lit(s, p, "strict") {
        Some(j) => {
            return Some((Modifier::Strict, j));
        },
        None => {},
    }
    match match_lit(s, p, "bridge") {
        Some(j) => {
            return Some((Modifier::Bridge, j));
        },
        None => {},
    }
    match match_lit(s, p, "constructor") {
        Some(j) => {
            return Some((Modifier::Constructor, j));
        },
        None => {},
    }
    None
}

/// Zero or more modifier keywords, whitespace between, ending where no
/// keyword follows.
pub open spec fn spec_parse_modifiers(s: Seq<char>, i: int) -> (Seq<Modifier>, int)
    decreases s.len() - i,
{
    if !(0 <= i <= s.len()) {
        (Seq::empty(), i)
    } else {
        let p = spec_skip_ws(s, i);
        if i <= p <= s.len() {
            match spec_modifier_kw(s, p) {
                Some((m, j)) => if p < j <= s.len() {
                    let rest = spec_parse_modifiers(s, j);
                    (seq![m] + rest.0, rest.1)
                } else {
                    (Seq::empty(), i)
                },
                None => (Seq::empty(), i),
            }
        } else {
            (Seq::empty(), i)
        }
    }
}

/// Parse zero or more modifier keywords.
pub fn parse_modifiers(s: &str, i: usize) -> (r: (Vec<Modifier>, usize))
    requires
        i <= s@.len(),
    ensures
        r.0@ == spec_parse_modifiers(s@, i as int).0,
        r.1 == spec_parse_modifiers(s@, i as int).1,
        i <= r.1 <= s@.len(),
    decreases s@.len() - i,
{
    let p = skip_ws(s, i);
    match modifier_kw(s, p) {
        Some((m, j)) => {
            if j <= p {
                return (Vec::new(), i);
            }
            let (mut rest, end) = parse_modifiers(s, j);
            proof {
                assert(rest@.insert(0, m) =~= seq![m] + rest@);
            }
            rest.insert(0, m);
            (rest, end)
        },
        None => (Vec::new(), i),
    }
}

/// The text of a modifier list: each keyword followed by one space.
pub open spec fn spec_modifiers_text(l: Seq<Modifier>, k: int) -> Seq<char>
    decreases l.len() - k,
{
    if 0 <= k < l.len() {
        l[k].spec_text() + seq![' '] + spec_modifiers_text(l, k + 1)
    } else {
        Seq::empty()
    }
}

/// Render a modifier list, each keyword followed by one space.
pub fn write_modifiers(mods: &Vec<Modifier>) -> (r: String)
    ensures
        r@ == spec_modifiers_text(mods@, 0),
{
    write_modifiers_from(mods, 0)
}

fn write_modifiers_from(mods: &Vec<Modifier>, k: usize) -> (r: String)
    requires
        k <= mods@.len(),
    ensures
        r@ == spec_modifiers_text(mods@, k as int),
    decreases mods@.len() - k,
{
    if k >= mods.len() {
        let s = String::new();
        proof {
            assert(s@ =~= spec_modifiers_text(mods@, k as int));
        }
        s
    } else {
        let mut s = String::from_str(mods[k].to_str());
        s.push(' ');
        let rest = write_modifiers_from(mods, k + 1);
        s.append(rest.as_str());
        proof {
            assert(s@ =~= spec_modifiers_text(mods@, k as int));
        }
        s
    }
}

} // verus!
