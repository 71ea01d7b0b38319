//! Cross-cutting properties of the codec, stated and proved over the spec
//! functions the contracts use: decimal rendering parses back to the same
//! value, and register and label texts re-parse to the values they render.

use vstd::prelude::*;
use vstd::arithmetic::div_mod::lemma_fundamental_div_mod;

use crate::num::{
    hex_digit_val, spec_dec_digit, spec_dec_u64, spec_digits_val,
};
use crate::op::dex_op::{Register, SpecDexOp, spec_parse_dex_op, spec_parse_register,
    spec_register_text, spec_render_dex_op, ConditionType, ConvertType, GotoType, TwoRegConditionType, TwoRegMoveType, OneRegMoveType};
use crate::op::{spec_label_text, spec_parse_label};
use crate::text::{
    is_dec_digit, is_label_char, is_mnemonic_char, is_ws_char, spec_dec_end, spec_label_end,
    spec_mnemonic_end, spec_skip_ws,
};

verus! {

/// Every character of a decimal rendering is a decimal digit, and the
/// rendering is never empty.
pub proof fn lemma_dec_chars(n: int)
    requires
        n >= 0,
    ensures
        spec_dec_u64(n).len() >= 1,
        forall|k: int| 0 <= k < spec_dec_u64(n).len() ==> is_dec_digit(
            #[trigger] spec_dec_u64(n)[k],
        ) && hex_digit_val(spec_dec_u64(n)[k]) < 10,
    decreases n,
{
    if n < 10 {
        assert(spec_dec_u64(n) =~= seq![spec_dec_digit(n)]);
        assert(spec_dec_digit(n) as u32 == 48 + n);
    } else {
        lemma_dec_chars(n / 10);
        assert(spec_dec_digit(n % 10) as u32 == 48 + n % 10);
    }
}

/// The digit run starting at a sequence of digits ends exactly where the
/// digits end.
pub proof fn lemma_dec_end_of_digits(s: Seq<char>, i: int, j: int)
    requires
        0 <= i <= j <= s.len(),
        forall|k: int| i <= k < j ==> is_dec_digit(#[trigger] s[k]),
        j == s.len() || !is_dec_digit(s[j]),
    ensures
        spec_dec_end(s, i) == j,
    decreases j - i,
{
    if i < j {
        lemma_dec_end_of_digits(s, i + 1, j);
    }
}

/// Folding one more digit multiplies the previous value by the base and
/// adds the digit.
pub proof fn lemma_digits_val_snoc(s: Seq<char>, i: int, j: int, b: int, acc: int)
    requires
        0 <= i < j <= s.len(),
    ensures
        spec_digits_val(s, i, j, b, acc) == spec_digits_val(s, i, j - 1, b, acc) * b
            + hex_digit_val(s[j - 1]),
    decreases j - i,
{
    assert(spec_digits_val(s, i, j, b, acc) == spec_digits_val(
        s,
        i + 1,
        j,
        b,
        acc * b + hex_digit_val(s[i]),
    ));
    if i + 1 == j {
        assert(spec_digits_val(s, i + 1, j, b, acc * b + hex_digit_val(s[i])) == acc * b
            + hex_digit_val(s[i]));
        assert(spec_digits_val(s, i, j - 1, b, acc) == acc);
    } else {
        lemma_digits_val_snoc(s, i + 1, j, b, acc * b + hex_digit_val(s[i]));
        assert(spec_digits_val(s, i, j - 1, b, acc) == spec_digits_val(
            s,
            i + 1,
            j - 1,
            b,
            acc * b + hex_digit_val(s[i]),
        ));
    }
}

/// The decimal rendering of a value parses back to that value.
pub proof fn lemma_dec_value(s: Seq<char>, i: int, j: int, n: int)
    requires
        0 <= i <= j <= s.len(),
        n >= 0,
        s.subrange(i, j) =~= spec_dec_u64(n),
    ensures
        spec_digits_val(s, i, j, 10, 0) == n,
    decreases n,
{
    lemma_dec_chars(n);
    if n < 10 {
        assert(s.subrange(i, j).len() == 1);
        assert(j == i + 1);
        assert(s.subrange(i, j)[0] == s[i]);
        assert(s[i] == spec_dec_digit(n));
        assert(hex_digit_val(s[i]) == n) by {
            assert(spec_dec_digit(n) as u32 == 48 + n);
        }
        assert(spec_digits_val(s, i, j, 10, 0) == spec_digits_val(
            s,
            i + 1,
            j,
            10,
            0 * 10 + hex_digit_val(s[i]),
        ));
        assert(spec_digits_val(s, i + 1, j, 10, 0 * 10 + hex_digit_val(s[i]))
            == hex_digit_val(s[i]));
    } else {
        assert(spec_dec_u64(n) =~= spec_dec_u64(n / 10).push(spec_dec_digit(n % 10)));
        lemma_dec_chars(n / 10);
        assert(s.subrange(i, j - 1) =~= spec_dec_u64(n / 10)) by {
            assert(forall|k: int| 0 <= k < j - 1 - i ==> #[trigger] s.subrange(i, j - 1)[k]
                == s.subrange(i, j)[k]);
        }
        lemma_dec_value(s, i, j - 1, n / 10);
        lemma_digits_val_snoc(s, i, j, 10, 0);
        assert(s[j - 1] == s.subrange(i, j)[j - 1 - i]);
        assert(s[j - 1] == spec_dec_digit(n % 10));
        assert(hex_digit_val(s[j - 1]) == n % 10) by {
            assert(spec_dec_digit(n % 10) as u32 == 48 + n % 10);
        }
        assert((n / 10) * 10 + n % 10 == n) by {
            lemma_fundamental_div_mod(n, 10);
        }
    }
}

/// A rendered register, embedded at `i` with no decimal digit following,
/// parses back to the same register, consuming exactly its text.
pub proof fn lemma_register_text_parses(s: Seq<char>, i: int, r: Register)
    requires
        0 <= i,
        i + spec_register_text(r).len() <= s.len(),
        s.subrange(i, i + spec_register_text(r).len()) =~= spec_register_text(r),
        i + spec_register_text(r).len() == s.len() || !is_dec_digit(
            s[i + spec_register_text(r).len()],
        ),
    ensures
        spec_parse_register(s, i) == Some((r, i + spec_register_text(r).len())),
{
    let t = spec_register_text(r);
    let e = i + t.len();
    let idx = match r {
        Register::Parameter(n) => n,
        Register::Local(n) => n,
    };
    lemma_dec_chars(idx as int);
    assert(t.len() == 1 + spec_dec_u64(idx as int).len());
    assert(s[i] == t[0]);
    assert(s[i] == 'v' || s[i] == 'p');
    assert(!is_ws_char(s[i]) && s[i] != '#');
    assert(spec_skip_ws(s, i) == i);
    assert forall|k: int| i + 1 <= k < e implies is_dec_digit(#[trigger] s[k]) by {
        assert(s[k] == s.subrange(i, e)[k - i]);
        assert(t[k - i] == spec_dec_u64(idx as int)[k - i - 1]);
    }
    lemma_dec_end_of_digits(s, i + 1, e);
    assert(s.subrange(i + 1, e) =~= spec_dec_u64(idx as int)) by {
        assert(forall|k: int| 0 <= k < e - i - 1 ==> #[trigger] s.subrange(i + 1, e)[k]
            == s.subrange(i, e)[k + 1]);
    }
    lemma_dec_value(s, i + 1, e, idx as int);
}

/// Register parsing is total on rendered registers: for every index `n`,
/// the text `v<n>` parses to the local register `n`, and the text `p<n>`
/// parses to the parameter register `n`.
pub proof fn lemma_parse_register_total(n: u16)
    ensures
        spec_parse_register(spec_register_text(Register::Local(n)), 0) == Some(
            (Register::Local(n), spec_register_text(Register::Local(n)).len() as int),
        ),
        spec_parse_register(spec_register_text(Register::Parameter(n)), 0) == Some(
            (Register::Parameter(n), spec_register_text(Register::Parameter(n)).len() as int),
        ),
{
    let s1 = spec_register_text(Register::Local(n));
    assert(s1.subrange(0, s1.len() as int) =~= s1);
    lemma_register_text_parses(s1, 0, Register::Local(n));
    let s2 = spec_register_text(Register::Parameter(n));
    assert(s2.subrange(0, s2.len() as int) =~= s2);
    lemma_register_text_parses(s2, 0, Register::Parameter(n));
}

/// The label-character run starting at a sequence of label characters ends
/// exactly where they end.
pub proof fn lemma_label_end_of_run(s: Seq<char>, i: int, j: int)
    requires
        0 <= i <= j <= s.len(),
        forall|k: int| i <= k < j ==> is_label_char(#[trigger] s[k]),
        j == s.len() || !is_label_char(s[j]),
    ensures
        spec_label_end(s, i) == j,
    decreases j - i,
{
    if i < j {
        lemma_label_end_of_run(s, i + 1, j);
    }
}

/// A rendered label, embedded at `i` with no label character following,
/// parses back to the same name, consuming exactly its text.
pub proof fn lemma_label_text_parses(s: Seq<char>, i: int, name: Seq<char>)
    requires
        0 <= i,
        name.len() >= 1,
        forall|k: int| 0 <= k < name.len() ==> is_label_char(#[trigger] name[k]),
        i + spec_label_text(name).len() <= s.len(),
        s.subrange(i, i + spec_label_text(name).len()) =~= spec_label_text(name),
        i + spec_label_text(name).len() == s.len() || !is_label_char(
            s[i + spec_label_text(name).len()],
        ),
    ensures
        spec_parse_label(s, i) == Some((name, i + spec_label_text(name).len())),
{
    let t = spec_label_text(name);
    let e = i + t.len();
    assert(s[i] == t[0]);
    assert(s[i] == ':');
    assert(!is_ws_char(s[i]) && s[i] != '#');
    assert(spec_skip_ws(s, i) == i);
    assert forall|k: int| i + 1 <= k < e implies is_label_char(#[trigger] s[k]) by {
        assert(s[k] == s.subrange(i, e)[k - i]);
        assert(t[k - i] == name[k - i - 1]);
    }
    lemma_label_end_of_run(s, i + 1, e);
    assert(s.subrange(i + 1, e) =~= name) by {
        assert(forall|k: int| 0 <= k < e - i - 1 ==> #[trigger] s.subrange(i + 1, e)[k]
            == s.subrange(i, e)[k + 1]);
    }
}

/// Round trip: rendering a label and parsing the result yields the same
/// name.
pub proof fn lemma_label_round_trip(name: Seq<char>)
    requires
        name.len() >= 1,
        forall|k: int| 0 <= k < name.len() ==> is_label_char(#[trigger] name[k]),
    ensures
        spec_parse_label(spec_label_text(name), 0) == Some(
            (name, spec_label_text(name).len() as int),
        ),
{
    let s = spec_label_text(name);
    assert(s.subrange(0, s.len() as int) =~= s);
    lemma_label_text_parses(s, 0, name);
}

/// The mnemonic-character run starting at a sequence of mnemonic
/// characters ends exactly where they end.
pub proof fn lemma_mnemonic_end_of_run(s: Seq<char>, i: int, j: int)
    requires
        0 <= i <= j <= s.len(),
        forall|k: int| i <= k < j ==> is_mnemonic_char(#[trigger] s[k]),
        j == s.len() || !is_mnemonic_char(s[j]),
    ensures
        spec_mnemonic_end(s, i) == j,
    decreases j - i,
{
    if i < j {
        lemma_mnemonic_end_of_run(s, i + 1, j);
    }
}

/// Round trip for a throw instruction: rendering it and parsing the
/// result yields the same instruction, consuming the whole text.
pub proof fn lemma_throw_round_trip(r: Register)
    ensures
        ({
            let op = SpecDexOp::Throw { src: r };
            let s = spec_render_dex_op(op);
            spec_parse_dex_op(s, 0) == Some((op, s.len() as int))
        }),
{
    reveal_strlit("throw");
    reveal_strlit("nop");
    reveal_strlit("monitor-enter");
    reveal_strlit("monitor-exit");
    reveal_strlit("check-cast");
    reveal_strlit("instance-of");
    reveal_strlit("array-length");
    reveal_strlit("new-instance");
    reveal_strlit("new-array");
    reveal_strlit("filled-new-array");
    reveal_strlit("filled-new-array/range");
    reveal_strlit("fill-array-data");
    let op = SpecDexOp::Throw { src: r };
    let s = spec_render_dex_op(op);
    let m = "throw"@;
    let rt = spec_register_text(r);
    assert(s =~= m + seq![' '] + rt);
    let a = m.len() as int;
    assert(s[0] == 't');
    assert(spec_skip_ws(s, 0) == 0);
    assert forall|k: int| 0 <= k < a implies is_mnemonic_char(#[trigger] s[k]) by {
        assert(s[k] == m[k]);
    }
    assert(s[a] == ' ');
    lemma_mnemonic_end_of_run(s, 0, a);
    assert(s.subrange(0, a) =~= m);
    let idx = match r {
        Register::Parameter(n) => n,
        Register::Local(n) => n,
    };
    lemma_dec_chars(idx as int);
    assert(s.subrange(a + 1, a + 1 + rt.len()) =~= rt);
    assert(s[a + 1] == rt[0]);
    assert(!is_ws_char(s[a + 1]) && s[a + 1] != '#');
    assert(spec_skip_ws(s, a) == spec_skip_ws(s, a + 1));
    assert(spec_skip_ws(s, a + 1) == a + 1);
    lemma_register_text_parses(s, a + 1, r);
    assert(spec_parse_register(s, a) == Some((r, s.len() as int)));
}

/// Round trip for an unconditional branch: rendering it and parsing the
/// result yields the same instruction, consuming the whole text.
#[verifier::spinoff_prover]
#[verifier::rlimit(100)]
pub proof fn lemma_goto_round_trip(gt: GotoType, name: Seq<char>)
    requires
        name.len() >= 1,
        forall|k: int| 0 <= k < name.len() ==> is_label_char(#[trigger] name[k]),
    ensures
        ({
            let op = SpecDexOp::Goto { goto_type: gt, offset: name };
            let s = spec_render_dex_op(op);
            spec_parse_dex_op(s, 0) == Some((op, s.len() as int))
        }),
{
    reveal_strlit("goto");
    reveal_strlit("goto/16");
    reveal_strlit("goto/32");
    reveal_strlit("nop");
    reveal_strlit("monitor-enter");
    reveal_strlit("monitor-exit");
    reveal_strlit("check-cast");
    reveal_strlit("instance-of");
    reveal_strlit("array-length");
    reveal_strlit("new-instance");
    reveal_strlit("new-array");
    reveal_strlit("filled-new-array");
    reveal_strlit("filled-new-array/range");
    reveal_strlit("fill-array-data");
    reveal_strlit("throw");
    reveal_strlit("invoke-virtual");
    reveal_strlit("invoke-super");
    reveal_strlit("invoke-interface");
    reveal_strlit("invoke-direct");
    reveal_strlit("invoke-static");
    reveal_strlit("invoke-virtual/range");
    reveal_strlit("invoke-super/range");
    reveal_strlit("invoke-direct/range");
    reveal_strlit("invoke-static/range");
    reveal_strlit("invoke-interface/range");
    reveal_strlit("invoke-polymorphic");
    reveal_strlit("invoke-polymorphic/range");
    reveal_strlit("invoke-custom");
    reveal_strlit("invoke-custom/range");
    reveal_strlit("const-string");
    reveal_strlit("const-string/jumbo");
    reveal_strlit("const-class");
    reveal_strlit("const-method-handle");
    reveal_strlit("const-method-type");
    reveal_strlit("move");
    reveal_strlit("move/from16");
    reveal_strlit("move-wide");
    reveal_strlit("move-wide/from16");
    reveal_strlit("move-wide/16");
    reveal_strlit("move-object");
    reveal_strlit("move-object/from16");
    reveal_strlit("move-object/16");
    reveal_strlit("move-result");
    reveal_strlit("move-result-wide");
    reveal_strlit("move-result-object");
    reveal_strlit("move-exception");
    reveal_strlit("return-void");
    reveal_strlit("return");
    reveal_strlit("return-wide");
    reveal_strlit("return-object");
    reveal_strlit("if-eqz");
    reveal_strlit("if-nez");
    reveal_strlit("if-ltz");
    reveal_strlit("if-gez");
    reveal_strlit("if-gtz");
    reveal_strlit("if-lez");
    reveal_strlit("if-eq");
    reveal_strlit("if-ne");
    reveal_strlit("if-lt");
    reveal_strlit("if-ge");
    reveal_strlit("if-gt");
    reveal_strlit("if-le");
    let op = SpecDexOp::Goto { goto_type: gt, offset: name };
    let s = spec_render_dex_op(op);
    let m = gt.spec_mnemonic();
    let lt = spec_label_text(name);
    assert(s =~= m + seq![' '] + lt);
    let a = m.len() as int;
    assert(s[0] == 'g');
    assert(spec_skip_ws(s, 0) == 0);
    assert forall|k: int| 0 <= k < a implies is_mnemonic_char(#[trigger] s[k]) by {
        assert(s[k] == m[k]);
    }
    assert(s[a] == ' ');
    lemma_mnemonic_end_of_run(s, 0, a);
    assert(s.subrange(0, a) =~= m);
    assert(s.subrange(a + 1, a + 1 + lt.len()) =~= lt);
    assert(s[a + 1] == ':');
    assert(spec_skip_ws(s, a) == spec_skip_ws(s, a + 1));
    assert(spec_skip_ws(s, a + 1) == a + 1);
    lemma_label_text_parses(s, a + 1, name);
    assert(spec_parse_label(s, a) == Some((name, s.len() as int)));
}

/// Round trip for a one-register conditional branch: rendering it and
/// parsing the result yields the same instruction, consuming the whole
/// text.
/// The mnemonic of a one-register conditional is made of mnemonic
/// characters, starts with `i`, matches its own family table, and matches
/// none of the shapes and families the dispatcher tries before it.
#[verifier::spinoff_prover]
#[verifier::rlimit(100)]
pub proof fn lemma_condition_mnemonic_facts(ct: ConditionType)
    ensures
        ct.spec_mnemonic().len() >= 1,
        ct.spec_mnemonic()[0] == 'i',
        forall|k: int| 0 <= k < ct.spec_mnemonic().len() ==> is_mnemonic_char(
            #[trigger] ct.spec_mnemonic()[k],
        ),
        ct.spec_mnemonic() != "nop"@,
        ct.spec_mnemonic() != "monitor-enter"@,
        ct.spec_mnemonic() != "monitor-exit"@,
        ct.spec_mnemonic() != "check-cast"@,
        ct.spec_mnemonic() != "instance-of"@,
        ct.spec_mnemonic() != "array-length"@,
        ct.spec_mnemonic() != "new-instance"@,
        ct.spec_mnemonic() != "new-array"@,
        ct.spec_mnemonic() != "filled-new-array"@,
        ct.spec_mnemonic() != "filled-new-array/range"@,
        ct.spec_mnemonic() != "fill-array-data"@,
        ct.spec_mnemonic() != "throw"@,
        crate::op::dex_op::InvokeType::spec_of_mnemonic(ct.spec_mnemonic()) is None,
        crate::op::dex_op::ConstType::spec_of_mnemonic(ct.spec_mnemonic()) is None,
        crate::op::dex_op::TwoRegMoveType::spec_of_mnemonic(ct.spec_mnemonic()) is None,
        crate::op::dex_op::OneRegMoveType::spec_of_mnemonic(ct.spec_mnemonic()) is None,
        crate::op::dex_op::ReturnType::spec_of_mnemonic(ct.spec_mnemonic()) is None,
        ConditionType::spec_of_mnemonic(ct.spec_mnemonic()) == Some(ct),
{
    reveal_strlit("nop");
    reveal_strlit("monitor-enter");
    reveal_strlit("monitor-exit");
    reveal_strlit("check-cast");
    reveal_strlit("instance-of");
    reveal_strlit("array-length");
    reveal_strlit("new-instance");
    reveal_strlit("new-array");
    reveal_strlit("filled-new-array");
    reveal_strlit("filled-new-array/range");
    reveal_strlit("fill-array-data");
    reveal_strlit("throw");
    reveal_strlit("invoke-virtual");
    reveal_strlit("invoke-super");
    reveal_strlit("invoke-interface");
    reveal_strlit("invoke-direct");
    reveal_strlit("invoke-static");
    reveal_strlit("invoke-virtual/range");
    reveal_strlit("invoke-super/range");
    reveal_strlit("invoke-direct/range");
    reveal_strlit("invoke-static/range");
    reveal_strlit("invoke-interface/range");
    reveal_strlit("invoke-polymorphic");
    reveal_strlit("invoke-polymorphic/range");
    reveal_strlit("invoke-custom");
    reveal_strlit("invoke-custom/range");
    reveal_strlit("const-string");
    reveal_strlit("const-string/jumbo");
    reveal_strlit("const-class");
    reveal_strlit("const-method-handle");
    reveal_strlit("const-method-type");
    reveal_strlit("move");
    reveal_strlit("move/from16");
    reveal_strlit("move-wide");
    reveal_strlit("move-wide/from16");
    reveal_strlit("move-wide/16");
    reveal_strlit("move-object");
    reveal_strlit("move-object/from16");
    reveal_strlit("move-object/16");
    reveal_strlit("move-result");
    reveal_strlit("move-result-wide");
    reveal_strlit("move-result-object");
    reveal_strlit("move-exception");
    reveal_strlit("return-void");
    reveal_strlit("return");
    reveal_strlit("return-wide");
    reveal_strlit("return-object");
    reveal_strlit("if-eqz");
    reveal_strlit("if-nez");
    reveal_strlit("if-ltz");
    reveal_strlit("if-gez");
    reveal_strlit("if-gtz");
    reveal_strlit("if-lez");
    let tok = ct.spec_mnemonic();
    assert(tok.len() == 6 && tok[0] == 'i' && forall|k: int| 0 <= k < tok.len()
        ==> is_mnemonic_char(#[trigger] tok[k])) by {
        match ct {
            ConditionType::Eqz => {
                assert(tok =~= "if-eqz"@);
            },
            ConditionType::Nez => {
                assert(tok =~= "if-nez"@);
            },
            ConditionType::Ltz => {
                assert(tok =~= "if-ltz"@);
            },
            ConditionType::Gez => {
                assert(tok =~= "if-gez"@);
            },
            ConditionType::Gtz => {
                assert(tok =~= "if-gtz"@);
            },
            ConditionType::Lez => {
                assert(tok =~= "if-lez"@);
            },
        }
    }
    assert(ConditionType::spec_of_mnemonic(tok) == Some(ct)) by {
        reveal_strlit("if-eqz");
        reveal_strlit("if-nez");
        reveal_strlit("if-ltz");
        reveal_strlit("if-gez");
        reveal_strlit("if-gtz");
        reveal_strlit("if-lez");
        match ct {
            ConditionType::Eqz => {
                assert(tok =~= "if-eqz"@);
                assert(ConditionType::spec_of_mnemonic(tok) == Some(ConditionType::Eqz));
            },
            ConditionType::Nez => {
                assert(tok =~= "if-nez"@);
                assert(tok != "if-eqz"@) by {
                    assert(tok[3] == 'n' && "if-eqz"@[3] == 'e');
                }
                assert(ConditionType::spec_of_mnemonic(tok) == Some(ConditionType::Nez));
            },
            ConditionType::Ltz => {
                assert(tok =~= "if-ltz"@);
                assert(tok != "if-eqz"@) by {
                    assert(tok[3] == 'l' && "if-eqz"@[3] == 'e');
                }
                assert(tok != "if-nez"@) by {
                    assert(tok[3] == 'l' && "if-nez"@[3] == 'n');
                }
                assert(ConditionType::spec_of_mnemonic(tok) == Some(ConditionType::Ltz));
            },
            ConditionType::Gez => {
                assert(tok =~= "if-gez"@);
                assert(tok != "if-eqz"@) by {
                    assert(tok[3] == 'g' && "if-eqz"@[3] == 'e');
                }
                assert(tok != "if-nez"@) by {
                    assert(tok[3] == 'g' && "if-nez"@[3] == 'n');
                }
                assert(tok != "if-ltz"@) by {
                    assert(tok[3] == 'g' && "if-ltz"@[3] == 'l');
                }
                assert(ConditionType::spec_of_mnemonic(tok) == Some(ConditionType::Gez));
            },
            ConditionType::Gtz => {
                assert(tok =~= "if-gtz"@);
                assert(tok != "if-eqz"@) by {
                    assert(tok[3] == 'g' && "if-eqz"@[3] == 'e');
                }
                assert(tok != "if-nez"@) by {
                    assert(tok[3] == 'g' && "if-nez"@[3] == 'n');
                }
                assert(tok != "if-ltz"@) by {
                    assert(tok[3] == 'g' && "if-ltz"@[3] == 'l');
                }
                assert(tok != "if-gez"@) by {
                    assert(tok[4] == 't' && "if-gez"@[4] == 'e');
                }
                assert(ConditionType::spec_of_mnemonic(tok) == Some(ConditionType::Gtz));
            },
            ConditionType::Lez => {
                assert(tok =~= "if-lez"@);
                assert(tok != "if-eqz"@) by {
                    assert(tok[3] == 'l' && "if-eqz"@[3] == 'e');
                }
                assert(tok != "if-nez"@) by {
                    assert(tok[3] == 'l' && "if-nez"@[3] == 'n');
                }
                assert(tok != "if-ltz"@) by {
                    assert(tok[4] == 'e' && "if-ltz"@[4] == 't');
                }
                assert(tok != "if-gez"@) by {
                    assert(tok[3] == 'l' && "if-gez"@[3] == 'g');
                }
                assert(tok != "if-gtz"@) by {
                    assert(tok[3] == 'l' && "if-gtz"@[3] == 'g');
                }
                assert(ConditionType::spec_of_mnemonic(tok) == Some(ConditionType::Lez));
            },
        }
    }
}

/// Round trip for a one-register conditional branch: rendering it and
/// parsing the result yields the same instruction, consuming the whole
/// text.
#[verifier::spinoff_prover]
#[verifier::rlimit(100)]
pub proof fn lemma_condition_round_trip(ct: ConditionType, r1: Register, name: Seq<char>)
    requires
        name.len() >= 1,
        forall|k: int| 0 <= k < name.len() ==> is_label_char(#[trigger] name[k]),
    ensures
        ({
            let op = SpecDexOp::Condition { cond_type: ct, reg1: r1, offset: name };
            let s = spec_render_dex_op(op);
            spec_parse_dex_op(s, 0) == Some((op, s.len() as int))
        }),
{
    lemma_condition_mnemonic_facts(ct);
    let op = SpecDexOp::Condition { cond_type: ct, reg1: r1, offset: name };
    let s = spec_render_dex_op(op);
    let m = ct.spec_mnemonic();
    let rt = spec_register_text(r1);
    let lt = spec_label_text(name);
    assert(s =~= m + seq![' '] + rt + seq![',', ' '] + lt);
    let a = m.len() as int;
    let b = rt.len() as int;
    assert(s[0] == 'i');
    assert(spec_skip_ws(s, 0) == 0);
    assert forall|k: int| 0 <= k < a implies is_mnemonic_char(#[trigger] s[k]) by {
        assert(s[k] == m[k]);
    }
    assert(s[a] == ' ');
    lemma_mnemonic_end_of_run(s, 0, a);
    assert(s.subrange(0, a) =~= m);
    let idx = match r1 {
        Register::Parameter(n) => n,
        Register::Local(n) => n,
    };
    lemma_dec_chars(idx as int);
    assert(s.subrange(a + 1, a + 1 + b) =~= rt);
    assert(s[a + 1] == rt[0]);
    assert(!is_ws_char(s[a + 1]) && s[a + 1] != '#');
    assert(s[a + 1 + b] == ',');
    assert(spec_skip_ws(s, a) == spec_skip_ws(s, a + 1));
    assert(spec_skip_ws(s, a + 1) == a + 1);
    lemma_register_text_parses(s, a + 1, r1);
    assert(spec_parse_register(s, a) == Some((r1, a + 1 + b)));
    assert(spec_skip_ws(s, a + 1 + b) == a + 1 + b);
    assert(s[a + 2 + b] == ' ');
    assert(s[a + 3 + b] == ':');
    assert(s.subrange(a + 3 + b, s.len() as int) =~= lt);
    assert(spec_skip_ws(s, a + 2 + b) == spec_skip_ws(s, a + 3 + b));
    assert(spec_skip_ws(s, a + 3 + b) == a + 3 + b);
    lemma_label_text_parses(s, a + 3 + b, name);
    assert(spec_parse_label(s, a + 2 + b) == Some((name, s.len() as int)));
}


/// A space, a register, a comma-space, and a second register, running to
/// the end of the text, parse as a two-register operand list.
#[verifier::spinoff_prover]
#[verifier::rlimit(100)]
pub proof fn lemma_two_regs_text_parses(s: Seq<char>, i: int, d: Register, src: Register)
    requires
        0 <= i <= s.len(),
        s.subrange(i, s.len() as int) =~= seq![' '] + spec_register_text(d) + seq![',', ' ']
            + spec_register_text(src),
    ensures
        crate::op::dex_op::spec_two_regs(s, i) == Some(((d, src), s.len() as int)),
{
    let rt1 = spec_register_text(d);
    let rt2 = spec_register_text(src);
    let b = rt1.len() as int;
    let c = rt2.len() as int;
    let idx1 = match d {
        Register::Parameter(n) => n,
        Register::Local(n) => n,
    };
    lemma_dec_chars(idx1 as int);
    let idx2 = match src {
        Register::Parameter(n) => n,
        Register::Local(n) => n,
    };
    lemma_dec_chars(idx2 as int);
    assert(s.subrange(i, s.len() as int).len() == s.len() - i);
    assert((seq![' '] + rt1 + seq![',', ' '] + rt2).len() == 1 + b + 2 + c);
    assert(s.len() == i + 1 + b + 2 + c);
    assert forall|k: int| i <= k < s.len() implies s[k] == (seq![' '] + rt1 + seq![',', ' ']
        + rt2)[k - i] by {
        assert(s.subrange(i, s.len() as int)[k - i] == s[k]);
    }
    assert(s[i] == ' ');
    assert(s.subrange(i + 1, i + 1 + b) =~= rt1);
    assert(s[i + 1] == rt1[0]);
    assert(!is_ws_char(s[i + 1]) && s[i + 1] != '#');
    assert(s[i + 1 + b] == ',');
    assert(spec_skip_ws(s, i) == spec_skip_ws(s, i + 1));
    assert(spec_skip_ws(s, i + 1) == i + 1);
    lemma_register_text_parses(s, i + 1, d);
    assert(spec_parse_register(s, i) == Some((d, i + 1 + b)));
    assert(spec_skip_ws(s, i + 1 + b) == i + 1 + b);
    assert(s[i + 2 + b] == ' ');
    assert(s.subrange(i + 3 + b, s.len() as int) =~= rt2);
    assert(s[i + 3 + b] == rt2[0]);
    assert(!is_ws_char(s[i + 3 + b]) && s[i + 3 + b] != '#');
    assert(spec_skip_ws(s, i + 2 + b) == spec_skip_ws(s, i + 3 + b));
    assert(spec_skip_ws(s, i + 3 + b) == i + 3 + b);
    lemma_register_text_parses(s, i + 3 + b, src);
    assert(spec_parse_register(s, i + 2 + b) == Some((src, s.len() as int)));
}

/// The mnemonic of a two-register move is made of mnemonic characters,
/// starts with `mov`, matches its own family table, and matches none of
/// the shapes and families the dispatcher tries before it.
#[verifier::spinoff_prover]
#[verifier::rlimit(100)]
pub proof fn lemma_move_mnemonic_facts(mt: TwoRegMoveType)
    ensures
        mt.spec_mnemonic().len() >= 4,
        mt.spec_mnemonic()[0] == 'm',
        mt.spec_mnemonic()[2] == 'v',
        forall|k: int| 0 <= k < mt.spec_mnemonic().len() ==> is_mnemonic_char(
            #[trigger] mt.spec_mnemonic()[k],
        ),
        mt.spec_mnemonic() != "nop"@,
        mt.spec_mnemonic() != "monitor-enter"@,
        mt.spec_mnemonic() != "monitor-exit"@,
        mt.spec_mnemonic() != "check-cast"@,
        mt.spec_mnemonic() != "instance-of"@,
        mt.spec_mnemonic() != "array-length"@,
        mt.spec_mnemonic() != "new-instance"@,
        mt.spec_mnemonic() != "new-array"@,
        mt.spec_mnemonic() != "filled-new-array"@,
        mt.spec_mnemonic() != "filled-new-array/range"@,
        mt.spec_mnemonic() != "fill-array-data"@,
        mt.spec_mnemonic() != "throw"@,
        crate::op::dex_op::InvokeType::spec_of_mnemonic(mt.spec_mnemonic()) is None,
        crate::op::dex_op::ConstType::spec_of_mnemonic(mt.spec_mnemonic()) is None,
        TwoRegMoveType::spec_of_mnemonic(mt.spec_mnemonic()) == Some(mt),
{
    reveal_strlit("nop");
    reveal_strlit("monitor-enter");
    reveal_strlit("monitor-exit");
    reveal_strlit("check-cast");
    reveal_strlit("instance-of");
    reveal_strlit("array-length");
    reveal_strlit("new-instance");
    reveal_strlit("new-array");
    reveal_strlit("filled-new-array");
    reveal_strlit("filled-new-array/range");
    reveal_strlit("fill-array-data");
    reveal_strlit("throw");
    reveal_strlit("invoke-virtual");
    reveal_strlit("invoke-super");
    reveal_strlit("invoke-interface");
    reveal_strlit("invoke-direct");
    reveal_strlit("invoke-static");
    reveal_strlit("invoke-virtual/range");
    reveal_strlit("invoke-super/range");
    reveal_strlit("invoke-direct/range");
    reveal_strlit("invoke-static/range");
    reveal_strlit("invoke-interface/range");
    reveal_strlit("invoke-polymorphic");
    reveal_strlit("invoke-polymorphic/range");
    reveal_strlit("invoke-custom");
    reveal_strlit("invoke-custom/range");
    reveal_strlit("const-string");
    reveal_strlit("const-string/jumbo");
    reveal_strlit("const-class");
    reveal_strlit("const-method-handle");
    reveal_strlit("const-method-type");
    reveal_strlit("move");
    reveal_strlit("move/from16");
    reveal_strlit("move-wide");
    reveal_strlit("move-wide/from16");
    reveal_strlit("move-wide/16");
    reveal_strlit("move-object");
    reveal_strlit("move-object/from16");
    reveal_strlit("move-object/16");
    let tok = mt.spec_mnemonic();
    assert(tok.len() >= 4 && tok[0] == 'm' && tok[1] == 'o' && tok[2] == 'v' && forall|k: int|
        0 <= k < tok.len() ==> is_mnemonic_char(#[trigger] tok[k])) by {
        match mt {
            TwoRegMoveType::Normal => {
                assert(tok =~= "move"@);
            },
            TwoRegMoveType::From16 => {
                assert(tok =~= "move/from16"@);
            },
            TwoRegMoveType::Wide => {
                assert(tok =~= "move-wide"@);
            },
            TwoRegMoveType::WideFrom16 => {
                assert(tok =~= "move-wide/from16"@);
            },
            TwoRegMoveType::Wide16 => {
                assert(tok =~= "move-wide/16"@);
            },
            TwoRegMoveType::Object => {
                assert(tok =~= "move-object"@);
            },
            TwoRegMoveType::ObjectFrom16 => {
                assert(tok =~= "move-object/from16"@);
            },
            TwoRegMoveType::Object16 => {
                assert(tok =~= "move-object/16"@);
            },
        }
    }
    assert(TwoRegMoveType::spec_of_mnemonic(tok) == Some(mt)) by {
        match mt {
            TwoRegMoveType::Normal => {
                assert(tok =~= "move"@);
                assert(TwoRegMoveType::spec_of_mnemonic(tok) == Some(TwoRegMoveType::Normal));
            },
            TwoRegMoveType::From16 => {
                assert(tok =~= "move/from16"@);
                assert(TwoRegMoveType::spec_of_mnemonic(tok) == Some(TwoRegMoveType::From16));
            },
            TwoRegMoveType::Wide => {
                assert(tok =~= "move-wide"@);
                assert(TwoRegMoveType::spec_of_mnemonic(tok) == Some(TwoRegMoveType::Wide));
            },
            TwoRegMoveType::WideFrom16 => {
                assert(tok =~= "move-wide/from16"@);
                assert(TwoRegMoveType::spec_of_mnemonic(tok) == Some(TwoRegMoveType::WideFrom16));
            },
            TwoRegMoveType::Wide16 => {
                assert(tok =~= "move-wide/16"@);
                assert(TwoRegMoveType::spec_of_mnemonic(tok) == Some(TwoRegMoveType::Wide16));
            },
            TwoRegMoveType::Object => {
                assert(tok =~= "move-object"@);
                assert(tok != "move/from16"@) by {
                    assert(tok[4] == '-' && "move/from16"@[4] == '/');
                }
                assert(TwoRegMoveType::spec_of_mnemonic(tok) == Some(TwoRegMoveType::Object));
            },
            TwoRegMoveType::ObjectFrom16 => {
                assert(tok =~= "move-object/from16"@);
                assert(TwoRegMoveType::spec_of_mnemonic(tok) == Some(TwoRegMoveType::ObjectFrom16));
            },
            TwoRegMoveType::Object16 => {
                assert(tok =~= "move-object/16"@);
                assert(TwoRegMoveType::spec_of_mnemonic(tok) == Some(TwoRegMoveType::Object16));
            },
        }
    }
}

/// Round trip for a two-register move: rendering it and parsing the
/// result yields the same instruction, consuming the whole text.
#[verifier::spinoff_prover]
#[verifier::rlimit(100)]
pub proof fn lemma_move_round_trip(mt: TwoRegMoveType, d: Register, src: Register)
    ensures
        ({
            let op = SpecDexOp::MoveTwoReg { move_type: mt, dest: d, src: src };
            let s = spec_render_dex_op(op);
            spec_parse_dex_op(s, 0) == Some((op, s.len() as int))
        }),
{
    lemma_move_mnemonic_facts(mt);
    let op = SpecDexOp::MoveTwoReg { move_type: mt, dest: d, src: src };
    let s = spec_render_dex_op(op);
    let m = mt.spec_mnemonic();
    let rt1 = spec_register_text(d);
    let rt2 = spec_register_text(src);
    assert(s =~= m + seq![' '] + rt1 + seq![',', ' '] + rt2);
    let a = m.len() as int;
    assert(s[0] == 'm');
    assert(spec_skip_ws(s, 0) == 0);
    assert forall|k: int| 0 <= k < a implies is_mnemonic_char(#[trigger] s[k]) by {
        assert(s[k] == m[k]);
    }
    assert(s[a] == ' ');
    lemma_mnemonic_end_of_run(s, 0, a);
    assert(s.subrange(0, a) =~= m);
    assert(s.subrange(a, s.len() as int) =~= seq![' '] + rt1 + seq![',', ' '] + rt2);
    lemma_two_regs_text_parses(s, a, d, src);
}


/// The mnemonic of a one-register move is made of mnemonic characters,
/// starts with `m`, matches its own family table, and matches none of the
/// shapes and families the dispatcher tries before it.
#[verifier::spinoff_prover]
#[verifier::rlimit(100)]
pub proof fn lemma_one_reg_move_mnemonic_facts(mt: OneRegMoveType)
    ensures
        mt.spec_mnemonic().len() >= 1,
        mt.spec_mnemonic()[0] == 'm',
        forall|k: int| 0 <= k < mt.spec_mnemonic().len() ==> is_mnemonic_char(
            #[trigger] mt.spec_mnemonic()[k],
        ),
        mt.spec_mnemonic() != "nop"@,
        mt.spec_mnemonic() != "monitor-enter"@,
        mt.spec_mnemonic() != "monitor-exit"@,
        mt.spec_mnemonic() != "check-cast"@,
        mt.spec_mnemonic() != "instance-of"@,
        mt.spec_mnemonic() != "array-length"@,
        mt.spec_mnemonic() != "new-instance"@,
        mt.spec_mnemonic() != "new-array"@,
        mt.spec_mnemonic() != "filled-new-array"@,
        mt.spec_mnemonic() != "filled-new-array/range"@,
        mt.spec_mnemonic() != "fill-array-data"@,
        mt.spec_mnemonic() != "throw"@,
        crate::op::dex_op::InvokeType::spec_of_mnemonic(mt.spec_mnemonic()) is None,
        crate::op::dex_op::ConstType::spec_of_mnemonic(mt.spec_mnemonic()) is None,
        crate::op::dex_op::TwoRegMoveType::spec_of_mnemonic(mt.spec_mnemonic()) is None,
        OneRegMoveType::spec_of_mnemonic(mt.spec_mnemonic()) == Some(mt),
{
    reveal_strlit("nop");
    reveal_strlit("monitor-enter");
    reveal_strlit("monitor-exit");
    reveal_strlit("check-cast");
    reveal_strlit("instance-of");
    reveal_strlit("array-length");
    reveal_strlit("new-instance");
    reveal_strlit("new-array");
    reveal_strlit("filled-new-array");
    reveal_strlit("filled-new-array/range");
    reveal_strlit("fill-array-data");
    reveal_strlit("throw");
    reveal_strlit("invoke-virtual");
    reveal_strlit("invoke-super");
    reveal_strlit("invoke-interface");
    reveal_strlit("invoke-direct");
    reveal_strlit("invoke-static");
    reveal_strlit("invoke-virtual/range");
    reveal_strlit("invoke-super/range");
    reveal_strlit("invoke-direct/range");
    reveal_strlit("invoke-static/range");
    reveal_strlit("invoke-interface/range");
    reveal_strlit("invoke-polymorphic");
    reveal_strlit("invoke-polymorphic/range");
    reveal_strlit("invoke-custom");
    reveal_strlit("invoke-custom/range");
    reveal_strlit("const-string");
    reveal_strlit("const-string/jumbo");
    reveal_strlit("const-class");
    reveal_strlit("const-method-handle");
    reveal_strlit("const-method-type");
    reveal_strlit("move");
    reveal_strlit("move/from16");
    reveal_strlit("move-wide");
    reveal_strlit("move-wide/from16");
    reveal_strlit("move-wide/16");
    reveal_strlit("move-object");
    reveal_strlit("move-object/from16");
    reveal_strlit("move-object/16");
    reveal_strlit("move-result");
    reveal_strlit("move-result-wide");
    reveal_strlit("move-result-object");
    reveal_strlit("move-exception");
    let tok = mt.spec_mnemonic();
    assert(tok.len() >= 11 && tok[0] == 'm' && forall|k: int| 0 <= k < tok.len()
        ==> is_mnemonic_char(#[trigger] tok[k])) by {
        match mt {
            OneRegMoveType::Result => {
                assert(tok =~= "move-result"@);
            },
            OneRegMoveType::ResultWide => {
                assert(tok =~= "move-result-wide"@);
            },
            OneRegMoveType::ResultObject => {
                assert(tok =~= "move-result-object"@);
            },
            OneRegMoveType::Exception => {
                assert(tok =~= "move-exception"@);
            },
        }
    }
    match mt {
            OneRegMoveType::Result => {
                assert(tok =~= "move-result"@);
                assert(tok != "move/from16"@) by {
                    assert(tok[4] == '-' && "move/from16"@[4] == '/');
                }
                assert(tok != "move-object"@) by {
                    assert(tok[5] == 'r' && "move-object"@[5] == 'o');
                }
                assert(crate::op::dex_op::TwoRegMoveType::spec_of_mnemonic(tok) is None);
                assert(OneRegMoveType::spec_of_mnemonic(tok) == Some(OneRegMoveType::Result));
            },
            OneRegMoveType::ResultWide => {
                assert(tok =~= "move-result-wide"@);
                assert(tok != "move-wide/from16"@) by {
                    assert(tok[5] == 'r' && "move-wide/from16"@[5] == 'w');
                }
                assert(crate::op::dex_op::TwoRegMoveType::spec_of_mnemonic(tok) is None);
                assert(OneRegMoveType::spec_of_mnemonic(tok) == Some(OneRegMoveType::ResultWide));
            },
            OneRegMoveType::ResultObject => {
                assert(tok =~= "move-result-object"@);
                assert(tok != "move-object/from16"@) by {
                    assert(tok[5] == 'r' && "move-object/from16"@[5] == 'o');
                }
                assert(crate::op::dex_op::TwoRegMoveType::spec_of_mnemonic(tok) is None);
                assert(OneRegMoveType::spec_of_mnemonic(tok) == Some(OneRegMoveType::ResultObject));
            },
            OneRegMoveType::Exception => {
                assert(tok =~= "move-exception"@);
                assert(tok != "move-object/16"@) by {
                    assert(tok[5] == 'e' && "move-object/16"@[5] == 'o');
                }
                assert(crate::op::dex_op::TwoRegMoveType::spec_of_mnemonic(tok) is None);
                assert(OneRegMoveType::spec_of_mnemonic(tok) == Some(OneRegMoveType::Exception));
            },
    }
}

/// Round trip for a one-register move: rendering it and parsing the
/// result yields the same instruction, consuming the whole text.
#[verifier::spinoff_prover]
#[verifier::rlimit(100)]
pub proof fn lemma_one_reg_move_round_trip(mt: OneRegMoveType, d: Register)
    ensures
        ({
            let op = SpecDexOp::MoveOneReg { move_type: mt, dest: d };
            let s = spec_render_dex_op(op);
            spec_parse_dex_op(s, 0) == Some((op, s.len() as int))
        }),
{
    lemma_one_reg_move_mnemonic_facts(mt);
    let op = SpecDexOp::MoveOneReg { move_type: mt, dest: d };
    let s = spec_render_dex_op(op);
    let m = mt.spec_mnemonic();
    let rt = spec_register_text(d);
    assert(s =~= m + seq![' '] + rt);
    let a = m.len() as int;
    assert(s[0] == 'm');
    assert(spec_skip_ws(s, 0) == 0);
    assert forall|k: int| 0 <= k < a implies is_mnemonic_char(#[trigger] s[k]) by {
        assert(s[k] == m[k]);
    }
    assert(s[a] == ' ');
    lemma_mnemonic_end_of_run(s, 0, a);
    assert(s.subrange(0, a) =~= m);
    let idx = match d {
        Register::Parameter(n) => n,
        Register::Local(n) => n,
    };
    lemma_dec_chars(idx as int);
    assert(s.subrange(a + 1, a + 1 + rt.len()) =~= rt);
    assert(s[a + 1] == rt[0]);
    assert(!is_ws_char(s[a + 1]) && s[a + 1] != '#');
    assert(spec_skip_ws(s, a) == spec_skip_ws(s, a + 1));
    assert(spec_skip_ws(s, a + 1) == a + 1);
    lemma_register_text_parses(s, a + 1, d);
    assert(spec_parse_register(s, a) == Some((d, s.len() as int)));
}


/// The mnemonic of a primitive conversion is made of mnemonic characters,
/// matches its own family table, and matches none of the shapes and
/// families the dispatcher tries before it.
#[verifier::spinoff_prover]
#[verifier::rlimit(100)]
pub proof fn lemma_convert_mnemonic_facts(cv: ConvertType)
    ensures
        cv.spec_mnemonic().len() >= 1,
        !is_ws_char(cv.spec_mnemonic()[0]) && cv.spec_mnemonic()[0] != '#',
        forall|k: int| 0 <= k < cv.spec_mnemonic().len() ==> is_mnemonic_char(
            #[trigger] cv.spec_mnemonic()[k],
        ),
        cv.spec_mnemonic() != "nop"@,
        cv.spec_mnemonic() != "monitor-enter"@,
        cv.spec_mnemonic() != "monitor-exit"@,
        cv.spec_mnemonic() != "check-cast"@,
        cv.spec_mnemonic() != "instance-of"@,
        cv.spec_mnemonic() != "array-length"@,
        cv.spec_mnemonic() != "new-instance"@,
        cv.spec_mnemonic() != "new-array"@,
        cv.spec_mnemonic() != "filled-new-array"@,
        cv.spec_mnemonic() != "filled-new-array/range"@,
        cv.spec_mnemonic() != "fill-array-data"@,
        cv.spec_mnemonic() != "throw"@,
        crate::op::dex_op::InvokeType::spec_of_mnemonic(cv.spec_mnemonic()) is None,
        crate::op::dex_op::ConstType::spec_of_mnemonic(cv.spec_mnemonic()) is None,
        crate::op::dex_op::TwoRegMoveType::spec_of_mnemonic(cv.spec_mnemonic()) is None,
        crate::op::dex_op::OneRegMoveType::spec_of_mnemonic(cv.spec_mnemonic()) is None,
        crate::op::dex_op::ReturnType::spec_of_mnemonic(cv.spec_mnemonic()) is None,
        crate::op::dex_op::ConditionType::spec_of_mnemonic(cv.spec_mnemonic()) is None,
        crate::op::dex_op::TwoRegConditionType::spec_of_mnemonic(cv.spec_mnemonic()) is None,
        crate::op::dex_op::GotoType::spec_of_mnemonic(cv.spec_mnemonic()) is None,
        crate::op::dex_op::ConstLiteralType::spec_of_mnemonic(cv.spec_mnemonic()) is None,
        crate::op::dex_op::LitArithType8::spec_of_mnemonic(cv.spec_mnemonic()) is None,
        crate::op::dex_op::LitArithType16::spec_of_mnemonic(cv.spec_mnemonic()) is None,
        ConvertType::spec_of_mnemonic(cv.spec_mnemonic()) == Some(cv),
{
    reveal_strlit("nop");
    reveal_strlit("monitor-enter");
    reveal_strlit("monitor-exit");
    reveal_strlit("check-cast");
    reveal_strlit("instance-of");
    reveal_strlit("array-length");
    reveal_strlit("new-instance");
    reveal_strlit("new-array");
    reveal_strlit("filled-new-array");
    reveal_strlit("filled-new-array/range");
    reveal_strlit("fill-array-data");
    reveal_strlit("throw");
    reveal_strlit("invoke-virtual");
    reveal_strlit("invoke-super");
    reveal_strlit("invoke-interface");
    reveal_strlit("invoke-direct");
    reveal_strlit("invoke-static");
    reveal_strlit("invoke-virtual/range");
    reveal_strlit("invoke-super/range");
    reveal_strlit("invoke-direct/range");
    reveal_strlit("invoke-static/range");
    reveal_strlit("invoke-interface/range");
    reveal_strlit("invoke-polymorphic");
    reveal_strlit("invoke-polymorphic/range");
    reveal_strlit("invoke-custom");
    reveal_strlit("invoke-custom/range");
    reveal_strlit("const-string");
    reveal_strlit("const-string/jumbo");
    reveal_strlit("const-class");
    reveal_strlit("const-method-handle");
    reveal_strlit("const-method-type");
    reveal_strlit("move");
    reveal_strlit("move/from16");
    reveal_strlit("move-wide");
    reveal_strlit("move-wide/from16");
    reveal_strlit("move-wide/16");
    reveal_strlit("move-object");
    reveal_strlit("move-object/from16");
    reveal_strlit("move-object/16");
    reveal_strlit("move-result");
    reveal_strlit("move-result-wide");
    reveal_strlit("move-result-object");
    reveal_strlit("move-exception");
    reveal_strlit("return-void");
    reveal_strlit("return");
    reveal_strlit("return-wide");
    reveal_strlit("return-object");
    reveal_strlit("if-eqz");
    reveal_strlit("if-nez");
    reveal_strlit("if-ltz");
    reveal_strlit("if-gez");
    reveal_strlit("if-gtz");
    reveal_strlit("if-lez");
    reveal_strlit("if-eq");
    reveal_strlit("if-ne");
    reveal_strlit("if-lt");
    reveal_strlit("if-ge");
    reveal_strlit("if-gt");
    reveal_strlit("if-le");
    reveal_strlit("goto");
    reveal_strlit("goto/16");
    reveal_strlit("goto/32");
    reveal_strlit("const/4");
    reveal_strlit("const/16");
    reveal_strlit("const");
    reveal_strlit("const/high16");
    reveal_strlit("const-wide/16");
    reveal_strlit("const-wide/32");
    reveal_strlit("const-wide");
    reveal_strlit("const-wide/high16");
    reveal_strlit("add-int/lit8");
    reveal_strlit("rsub-int/lit8");
    reveal_strlit("mul-int/lit8");
    reveal_strlit("div-int/lit8");
    reveal_strlit("rem-int/lit8");
    reveal_strlit("and-int/lit8");
    reveal_strlit("or-int/lit8");
    reveal_strlit("xor-int/lit8");
    reveal_strlit("shl-int/lit8");
    reveal_strlit("shr-int/lit8");
    reveal_strlit("ushr-int/lit8");
    reveal_strlit("add-int/lit16");
    reveal_strlit("rsub-int");
    reveal_strlit("mul-int/lit16");
    reveal_strlit("div-int/lit16");
    reveal_strlit("rem-int/lit16");
    reveal_strlit("and-int/lit16");
    reveal_strlit("or-int/lit16");
    reveal_strlit("xor-int/lit16");
    reveal_strlit("int-to-byte");
    reveal_strlit("int-to-char");
    reveal_strlit("int-to-short");
    reveal_strlit("int-to-long");
    reveal_strlit("int-to-float");
    reveal_strlit("int-to-double");
    reveal_strlit("long-to-int");
    reveal_strlit("long-to-float");
    reveal_strlit("long-to-double");
    reveal_strlit("float-to-int");
    reveal_strlit("float-to-long");
    reveal_strlit("float-to-double");
    reveal_strlit("double-to-int");
    reveal_strlit("double-to-long");
    reveal_strlit("double-to-float");
    let tok = cv.spec_mnemonic();
    assert(tok.len() >= 11 && !is_ws_char(tok[0]) && tok[0] != '#' && forall|k: int|
        0 <= k < tok.len() ==> is_mnemonic_char(#[trigger] tok[k])) by {
        match cv {
            ConvertType::IntToByte => {
                assert(tok =~= "int-to-byte"@);
            },
            ConvertType::IntToChar => {
                assert(tok =~= "int-to-char"@);
            },
            ConvertType::IntToShort => {
                assert(tok =~= "int-to-short"@);
            },
            ConvertType::IntToLong => {
                assert(tok =~= "int-to-long"@);
            },
            ConvertType::IntToFloat => {
                assert(tok =~= "int-to-float"@);
            },
            ConvertType::IntToDouble => {
                assert(tok =~= "int-to-double"@);
            },
            ConvertType::LongToInt => {
                assert(tok =~= "long-to-int"@);
            },
            ConvertType::LongToFloat => {
                assert(tok =~= "long-to-float"@);
            },
            ConvertType::LongToDouble => {
                assert(tok =~= "long-to-double"@);
            },
            ConvertType::FloatToInt => {
                assert(tok =~= "float-to-int"@);
            },
            ConvertType::FloatToLong => {
                assert(tok =~= "float-to-long"@);
            },
            ConvertType::FloatToDouble => {
                assert(tok =~= "float-to-double"@);
            },
            ConvertType::DoubleToInt => {
                assert(tok =~= "double-to-int"@);
            },
            ConvertType::DoubleToLong => {
                assert(tok =~= "double-to-long"@);
            },
            ConvertType::DoubleToFloat => {
                assert(tok =~= "double-to-float"@);
            },
        }
    }
    match cv {
        ConvertType::IntToByte => {
            assert(tok =~= "int-to-byte"@);
            assert(tok != "instance-of"@) by {
                assert(tok[2] == 't' && "instance-of"@[2] == 's');
            }
            assert(tok != "const-class"@) by {
                assert(tok[0] == 'i' && "const-class"@[0] == 'c');
            }
            assert(tok != "move/from16"@) by {
                assert(tok[0] == 'i' && "move/from16"@[0] == 'm');
            }
            assert(tok != "move-object"@) by {
                assert(tok[0] == 'i' && "move-object"@[0] == 'm');
            }
            assert(tok != "move-result"@) by {
                assert(tok[0] == 'i' && "move-result"@[0] == 'm');
            }
            assert(tok != "return-void"@) by {
                assert(tok[0] == 'i' && "return-void"@[0] == 'r');
            }
            assert(tok != "return-wide"@) by {
                assert(tok[0] == 'i' && "return-wide"@[0] == 'r');
            }
            assert(tok != "or-int/lit8"@) by {
                assert(tok[0] == 'i' && "or-int/lit8"@[0] == 'o');
            }
            assert(crate::op::dex_op::InvokeType::spec_of_mnemonic(tok) is None);
            assert(crate::op::dex_op::ConstType::spec_of_mnemonic(tok) is None);
            assert(crate::op::dex_op::TwoRegMoveType::spec_of_mnemonic(tok) is None);
            assert(crate::op::dex_op::OneRegMoveType::spec_of_mnemonic(tok) is None);
            assert(crate::op::dex_op::ReturnType::spec_of_mnemonic(tok) is None);
            assert(crate::op::dex_op::ConditionType::spec_of_mnemonic(tok) is None);
            assert(crate::op::dex_op::TwoRegConditionType::spec_of_mnemonic(tok) is None);
            assert(crate::op::dex_op::GotoType::spec_of_mnemonic(tok) is None);
            assert(crate::op::dex_op::ConstLiteralType::spec_of_mnemonic(tok) is None);
            assert(crate::op::dex_op::LitArithType8::spec_of_mnemonic(tok) is None);
            assert(crate::op::dex_op::LitArithType16::spec_of_mnemonic(tok) is None);
            assert(ConvertType::spec_of_mnemonic(tok) == Some(ConvertType::IntToByte));
        },
        ConvertType::IntToChar => {
            assert(tok =~= "int-to-char"@);
            assert(tok != "instance-of"@) by {
                assert(tok[2] == 't' && "instance-of"@[2] == 's');
            }
            assert(tok != "const-class"@) by {
                assert(tok[0] == 'i' && "const-class"@[0] == 'c');
            }
            assert(tok != "move/from16"@) by {
                assert(tok[0] == 'i' && "move/from16"@[0] == 'm');
            }
            assert(tok != "move-object"@) by {
                assert(tok[0] == 'i' && "move-object"@[0] == 'm');
            }
            assert(tok != "move-result"@) by {
                assert(tok[0] == 'i' && "move-result"@[0] == 'm');
            }
            assert(tok != "return-void"@) by {
                assert(tok[0] == 'i' && "return-void"@[0] == 'r');
            }
            assert(tok != "return-wide"@) by {
                assert(tok[0] == 'i' && "return-wide"@[0] == 'r');
            }
            assert(tok != "or-int/lit8"@) by {
                assert(tok[0] == 'i' && "or-int/lit8"@[0] == 'o');
            }
            assert(tok != "int-to-byte"@) by {
                assert(tok[7] == 'c' && "int-to-byte"@[7] == 'b');
            }
            assert(crate::op::dex_op::InvokeType::spec_of_mnemonic(tok) is None);
            assert(crate::op::dex_op::ConstType::spec_of_mnemonic(tok) is None);
            assert(crate::op::dex_op::TwoRegMoveType::spec_of_mnemonic(tok) is None);
            assert(crate::op::dex_op::OneRegMoveType::spec_of_mnemonic(tok) is None);
            assert(crate::op::dex_op::ReturnType::spec_of_mnemonic(tok) is None);
            assert(crate::op::dex_op::ConditionType::spec_of_mnemonic(tok) is None);
            assert(crate::op::dex_op::TwoRegConditionType::spec_of_mnemonic(tok) is None);
            assert(crate::op::dex_op::GotoType::spec_of_mnemonic(tok) is None);
            assert(crate::op::dex_op::ConstLiteralType::spec_of_mnemonic(tok) is None);
            assert(crate::op::dex_op::LitArithType8::spec_of_mnemonic(tok) is None);
            assert(crate::op::dex_op::LitArithType16::spec_of_mnemonic(tok) is None);
            assert(ConvertType::spec_of_mnemonic(tok) == Some(ConvertType::IntToChar));
        },
        ConvertType::IntToShort => {
            assert(tok =~= "int-to-short"@);
            assert(tok != "monitor-exit"@) by {
                assert(tok[0] == 'i' && "monitor-exit"@[0] == 'm');
            }
            assert(tok != "array-length"@) by {
                assert(tok[0] == 'i' && "array-length"@[0] == 'a');
            }
            assert(tok != "new-instance"@) by {
                assert(tok[0] == 'i' && "new-instance"@[0] == 'n');
            }
            assert(tok != "invoke-super"@) by {
                assert(tok[2] == 't' && "invoke-super"@[2] == 'v');
            }
            assert(tok != "const-string"@) by {
                assert(tok[0] == 'i' && "const-string"@[0] == 'c');
            }
            assert(tok != "move-wide/16"@) by {
                assert(tok[0] == 'i' && "move-wide/16"@[0] == 'm');
            }
            assert(tok != "const/high16"@) by {
                assert(tok[0] == 'i' && "const/high16"@[0] == 'c');
            }
            assert(tok != "add-int/lit8"@) by {
                assert(tok[0] == 'i' && "add-int/lit8"@[0] == 'a');
            }
            assert(tok != "mul-int/lit8"@) by {
                assert(tok[0] == 'i' && "mul-int/lit8"@[0] == 'm');
            }
            assert(tok != "div-int/lit8"@) by {
                assert(tok[0] == 'i' && "div-int/lit8"@[0] == 'd');
            }
            assert(tok != "rem-int/lit8"@) by {
                assert(tok[0] == 'i' && "rem-int/lit8"@[0] == 'r');
            }
            assert(tok != "and-int/lit8"@) by {
                assert(tok[0] == 'i' && "and-int/lit8"@[0] == 'a');
            }
            assert(tok != "xor-int/lit8"@) by {
                assert(tok[0] == 'i' && "xor-int/lit8"@[0] == 'x');
            }
            assert(tok != "shl-int/lit8"@) by {
                assert(tok[0] == 'i' && "shl-int/lit8"@[0] == 's');
            }
            assert(tok != "shr-int/lit8"@) by {
                assert(tok[0] == 'i' && "shr-int/lit8"@[0] == 's');
            }
            assert(tok != "or-int/lit16"@) by {
                assert(tok[0] == 'i' && "or-int/lit16"@[0] == 'o');
            }
            assert(crate::op::dex_op::InvokeType::spec_of_mnemonic(tok) is None);
            assert(crate::op::dex_op::ConstType::spec_of_mnemonic(tok) is None);
            assert(crate::op::dex_op::TwoRegMoveType::spec_of_mnemonic(tok) is None);
            assert(crate::op::dex_op::OneRegMoveType::spec_of_mnemonic(tok) is None);
            assert(crate::op::dex_op::ReturnType::spec_of_mnemonic(tok) is None);
            assert(crate::op::dex_op::ConditionType::spec_of_mnemonic(tok) is None);
            assert(crate::op::dex_op::TwoRegConditionType::spec_of_mnemonic(tok) is None);
            assert(crate::op::dex_op::GotoType::spec_of_mnemonic(tok) is None);
            assert(crate::op::dex_op::ConstLiteralType::spec_of_mnemonic(tok) is None);
            assert(crate::op::dex_op::LitArithType8::spec_of_mnemonic(tok) is None);
            assert(crate::op::dex_op::LitArithType16::spec_of_mnemonic(tok) is None);
            assert(ConvertType::spec_of_mnemonic(tok) == Some(ConvertType::IntToShort));
        },
        ConvertType::IntToLong => {
            assert(tok =~= "int-to-long"@);
            assert(tok != "instance-of"@) by {
                assert(tok[2] == 't' && "instance-of"@[2] == 's');
            }
            assert(tok != "const-class"@) by {
                assert(tok[0] == 'i' && "const-class"@[0] == 'c');
            }
            assert(tok != "move/from16"@) by {
                assert(tok[0] == 'i' && "move/from16"@[0] == 'm');
            }
            assert(tok != "move-object"@) by {
                assert(tok[0] == 'i' && "move-object"@[0] == 'm');
            }
            assert(tok != "move-result"@) by {
                assert(tok[0] == 'i' && "move-result"@[0] == 'm');
            }
            assert(tok != "return-void"@) by {
                assert(tok[0] == 'i' && "return-void"@[0] == 'r');
            }
            assert(tok != "return-wide"@) by {
                assert(tok[0] == 'i' && "return-wide"@[0] == 'r');
            }
            assert(tok != "or-int/lit8"@) by {
                assert(tok[0] == 'i' && "or-int/lit8"@[0] == 'o');
            }
            assert(tok != "int-to-byte"@) by {
                assert(tok[7] == 'l' && "int-to-byte"@[7] == 'b');
            }
            assert(tok != "int-to-char"@) by {
                assert(tok[7] == 'l' && "int-to-char"@[7] == 'c');
            }
            assert(crate::op::dex_op::InvokeType::spec_of_mnemonic(tok) is None);
            assert(crate::op::dex_op::ConstType::spec_of_mnemonic(tok) is None);
            assert(crate::op::dex_op::TwoRegMoveType::spec_of_mnemonic(tok) is None);
            assert(crate::op::dex_op::OneRegMoveType::spec_of_mnemonic(tok) is None);
            assert(crate::op::dex_op::ReturnType::spec_of_mnemonic(tok) is None);
            assert(crate::op::dex_op::ConditionType::spec_of_mnemonic(tok) is None);
            assert(crate::op::dex_op::TwoRegConditionType::spec_of_mnemonic(tok) is None);
            assert(crate::op::dex_op::GotoType::spec_of_mnemonic(tok) is None);
            assert(crate::op::dex_op::ConstLiteralType::spec_of_mnemonic(tok) is None);
            assert(crate::op::dex_op::LitArithType8::spec_of_mnemonic(tok) is None);
            assert(crate::op::dex_op::LitArithType16::spec_of_mnemonic(tok) is None);
            assert(ConvertType::spec_of_mnemonic(tok) == Some(ConvertType::IntToLong));
        },
        ConvertType::IntToFloat => {
            assert(tok =~= "int-to-float"@);
            assert(tok != "monitor-exit"@) by {
                assert(tok[0] == 'i' && "monitor-exit"@[0] == 'm');
            }
            assert(tok != "array-length"@) by {
                assert(tok[0] == 'i' && "array-length"@[0] == 'a');
            }
            assert(tok != "new-instance"@) by {
                assert(tok[0] == 'i' && "new-instance"@[0] == 'n');
            }
            assert(tok != "invoke-super"@) by {
                assert(tok[2] == 't' && "invoke-super"@[2] == 'v');
            }
            assert(tok != "const-string"@) by {
                assert(tok[0] == 'i' && "const-string"@[0] == 'c');
            }
            assert(tok != "move-wide/16"@) by {
                assert(tok[0] == 'i' && "move-wide/16"@[0] == 'm');
            }
            assert(tok != "const/high16"@) by {
                assert(tok[0] == 'i' && "const/high16"@[0] == 'c');
            }
            assert(tok != "add-int/lit8"@) by {
                assert(tok[0] == 'i' && "add-int/lit8"@[0] == 'a');
            }
            assert(tok != "mul-int/lit8"@) by {
                assert(tok[0] == 'i' && "mul-int/lit8"@[0] == 'm');
            }
            assert(tok != "div-int/lit8"@) by {
                assert(tok[0] == 'i' && "div-int/lit8"@[0] == 'd');
            }
            assert(tok != "rem-int/lit8"@) by {
                assert(tok[0] == 'i' && "rem-int/lit8"@[0] == 'r');
            }
            assert(tok != "and-int/lit8"@) by {
                assert(tok[0] == 'i' && "and-int/lit8"@[0] == 'a');
            }
            assert(tok != "xor-int/lit8"@) by {
                assert(tok[0] == 'i' && "xor-int/lit8"@[0] == 'x');
            }
            assert(tok != "shl-int/lit8"@) by {
                assert(tok[0] == 'i' && "shl-int/lit8"@[0] == 's');
            }
            assert(tok != "shr-int/lit8"@) by {
                assert(tok[0] == 'i' && "shr-int/lit8"@[0] == 's');
            }
            assert(tok != "or-int/lit16"@) by {
                assert(tok[0] == 'i' && "or-int/lit16"@[0] == 'o');
            }
            assert(tok != "int-to-short"@) by {
                assert(tok[7] == 'f' && "int-to-short"@[7] == 's');
            }
            assert(crate::op::dex_op::InvokeType::spec_of_mnemonic(tok) is None);
            assert(crate::op::dex_op::ConstType::spec_of_mnemonic(tok) is None);
            assert(crate::op::dex_op::TwoRegMoveType::spec_of_mnemonic(tok) is None);
            assert(crate::op::dex_op::OneRegMoveType::spec_of_mnemonic(tok) is None);
            assert(crate::op::dex_op::ReturnType::spec_of_mnemonic(tok) is None);
            assert(crate::op::dex_op::ConditionType::spec_of_mnemonic(tok) is None);
            assert(crate::op::dex_op::TwoRegConditionType::spec_of_mnemonic(tok) is None);
            assert(crate::op::dex_op::GotoType::spec_of_mnemonic(tok) is None);
            assert(crate::op::dex_op::ConstLiteralType::spec_of_mnemonic(tok) is None);
            assert(crate::op::dex_op::LitArithType8::spec_of_mnemonic(tok) is None);
            assert(crate::op::dex_op::LitArithType16::spec_of_mnemonic(tok) is None);
            assert(ConvertType::spec_of_mnemonic(tok) == Some(ConvertType::IntToFloat));
        },
        ConvertType::IntToDouble => {
            assert(tok =~= "int-to-double"@);
            assert(tok != "monitor-enter"@) by {
                assert(tok[0] == 'i' && "monitor-enter"@[0] == 'm');
            }
            assert(tok != "invoke-direct"@) by {
                assert(tok[2] == 't' && "invoke-direct"@[2] == 'v');
            }
            assert(tok != "invoke-static"@) by {
                assert(tok[2] == 't' && "invoke-static"@[2] == 'v');
            }
            assert(tok != "invoke-custom"@) by {
                assert(tok[2] == 't' && "invoke-custom"@[2] == 'v');
            }
            assert(tok != "return-object"@) by {
                assert(tok[0] == 'i' && "return-object"@[0] == 'r');
            }
            assert(tok != "const-wide/16"@) by {
                assert(tok[0] == 'i' && "const-wide/16"@[0] == 'c');
            }
            assert(tok != "const-wide/32"@) by {
                assert(tok[0] == 'i' && "const-wide/32"@[0] == 'c');
            }
            assert(tok != "rsub-int/lit8"@) by {
                assert(tok[0] == 'i' && "rsub-int/lit8"@[0] == 'r');
            }
            assert(tok != "ushr-int/lit8"@) by {
                assert(tok[0] == 'i' && "ushr-int/lit8"@[0] == 'u');
            }
            assert(tok != "add-int/lit16"@) by {
                assert(tok[0] == 'i' && "add-int/lit16"@[0] == 'a');
            }
            assert(tok != "mul-int/lit16"@) by {
                assert(tok[0] == 'i' && "mul-int/lit16"@[0] == 'm');
            }
            assert(tok != "div-int/lit16"@) by {
                assert(tok[0] == 'i' && "div-int/lit16"@[0] == 'd');
            }
            assert(tok != "rem-int/lit16"@) by {
                assert(tok[0] == 'i' && "rem-int/lit16"@[0] == 'r');
            }
            assert(tok != "and-int/lit16"@) by {
                assert(tok[0] == 'i' && "and-int/lit16"@[0] == 'a');
            }
            assert(tok != "xor-int/lit16"@) by {
                assert(tok[0] == 'i' && "xor-int/lit16"@[0] == 'x');
            }
            assert(crate::op::dex_op::InvokeType::spec_of_mnemonic(tok) is None);
            assert(crate::op::dex_op::ConstType::spec_of_mnemonic(tok) is None);
            assert(crate::op::dex_op::TwoRegMoveType::spec_of_mnemonic(tok) is None);
            assert(crate::op::dex_op::OneRegMoveType::spec_of_mnemonic(tok) is None);
            assert(crate::op::dex_op::ReturnType::spec_of_mnemonic(tok) is None);
            assert(crate::op::dex_op::ConditionType::spec_of_mnemonic(tok) is None);
            assert(crate::op::dex_op::TwoRegConditionType::spec_of_mnemonic(tok) is None);
            assert(crate::op::dex_op::GotoType::spec_of_mnemonic(tok) is None);
            assert(crate::op::dex_op::ConstLiteralType::spec_of_mnemonic(tok) is None);
            assert(crate::op::dex_op::LitArithType8::spec_of_mnemonic(tok) is None);
            assert(crate::op::dex_op::LitArithType16::spec_of_mnemonic(tok) is None);
            assert(ConvertType::spec_of_mnemonic(tok) == Some(ConvertType::IntToDouble));
        },
        ConvertType::LongToInt => {
            assert(tok =~= "long-to-int"@);
            assert(tok != "instance-of"@) by {
                assert(tok[0] == 'l' && "instance-of"@[0] == 'i');
            }
            assert(tok != "const-class"@) by {
                assert(tok[0] == 'l' && "const-class"@[0] == 'c');
            }
            assert(tok != "move/from16"@) by {
                assert(tok[0] == 'l' && "move/from16"@[0] == 'm');
            }
            assert(tok != "move-object"@) by {
                assert(tok[0] == 'l' && "move-object"@[0] == 'm');
            }
            assert(tok != "move-result"@) by {
                assert(tok[0] == 'l' && "move-result"@[0] == 'm');
            }
            assert(tok != "return-void"@) by {
                assert(tok[0] == 'l' && "return-void"@[0] == 'r');
            }
            assert(tok != "return-wide"@) by {
                assert(tok[0] == 'l' && "return-wide"@[0] == 'r');
            }
            assert(tok != "or-int/lit8"@) by {
                assert(tok[0] == 'l' && "or-int/lit8"@[0] == 'o');
            }
            assert(tok != "int-to-byte"@) by {
                assert(tok[0] == 'l' && "int-to-byte"@[0] == 'i');
            }
            assert(tok != "int-to-char"@) by {
                assert(tok[0] == 'l' && "int-to-char"@[0] == 'i');
            }
            assert(tok != "int-to-long"@) by {
                assert(tok[0] == 'l' && "int-to-long"@[0] == 'i');
            }
            assert(crate::op::dex_op::InvokeType::spec_of_mnemonic(tok) is None);
            assert(crate::op::dex_op::ConstType::spec_of_mnemonic(tok) is None);
            assert(crate::op::dex_op::TwoRegMoveType::spec_of_mnemonic(tok) is None);
            assert(crate::op::dex_op::OneRegMoveType::spec_of_mnemonic(tok) is None);
            assert(crate::op::dex_op::ReturnType::spec_of_mnemonic(tok) is None);
            assert(crate::op::dex_op::ConditionType::spec_of_mnemonic(tok) is None);
            assert(crate::op::dex_op::TwoRegConditionType::spec_of_mnemonic(tok) is None);
            assert(crate::op::dex_op::GotoType::spec_of_mnemonic(tok) is None);
            assert(crate::op::dex_op::ConstLiteralType::spec_of_mnemonic(tok) is None);
            assert(crate::op::dex_op::LitArithType8::spec_of_mnemonic(tok) is None);
            assert(crate::op::dex_op::LitArithType16::spec_of_mnemonic(tok) is None);
            assert(ConvertType::spec_of_mnemonic(tok) == Some(ConvertType::LongToInt));
        },
        ConvertType::LongToFloat => {
            assert(tok =~= "long-to-float"@);
            assert(tok != "monitor-enter"@) by {
                assert(tok[0] == 'l' && "monitor-enter"@[0] == 'm');
            }
            assert(tok != "invoke-direct"@) by {
                assert(tok[0] == 'l' && "invoke-direct"@[0] == 'i');
            }
            assert(tok != "invoke-static"@) by {
                assert(tok[0] == 'l' && "invoke-static"@[0] == 'i');
            }
            assert(tok != "invoke-custom"@) by {
                assert(tok[0] == 'l' && "invoke-custom"@[0] == 'i');
            }
            assert(tok != "return-object"@) by {
                assert(tok[0] == 'l' && "return-object"@[0] == 'r');
            }
            assert(tok != "const-wide/16"@) by {
                assert(tok[0] == 'l' && "const-wide/16"@[0] == 'c');
            }
            assert(tok != "const-wide/32"@) by {
                assert(tok[0] == 'l' && "const-wide/32"@[0] == 'c');
            }
            assert(tok != "rsub-int/lit8"@) by {
                assert(tok[0] == 'l' && "rsub-int/lit8"@[0] == 'r');
            }
            assert(tok != "ushr-int/lit8"@) by {
                assert(tok[0] == 'l' && "ushr-int/lit8"@[0] == 'u');
            }
            assert(tok != "add-int/lit16"@) by {
                assert(tok[0] == 'l' && "add-int/lit16"@[0] == 'a');
            }
            assert(tok != "mul-int/lit16"@) by {
                assert(tok[0] == 'l' && "mul-int/lit16"@[0] == 'm');
            }
            assert(tok != "div-int/lit16"@) by {
                assert(tok[0] == 'l' && "div-int/lit16"@[0] == 'd');
            }
            assert(tok != "rem-int/lit16"@) by {
                assert(tok[0] == 'l' && "rem-int/lit16"@[0] == 'r');
            }
            assert(tok != "and-int/lit16"@) by {
                assert(tok[0] == 'l' && "and-int/lit16"@[0] == 'a');
            }
            assert(tok != "xor-int/lit16"@) by {
                assert(tok[0] == 'l' && "xor-int/lit16"@[0] == 'x');
            }
            assert(tok != "int-to-double"@) by {
                assert(tok[0] == 'l' && "int-to-double"@[0] == 'i');
            }
            assert(crate::op::dex_op::InvokeType::spec_of_mnemonic(tok) is None);
            assert(crate::op::dex_op::ConstType::spec_of_mnemonic(tok) is None);
            assert(crate::op::dex_op::TwoRegMoveType::spec_of_mnemonic(tok) is None);
            assert(crate::op::dex_op::OneRegMoveType::spec_of_mnemonic(tok) is None);
            assert(crate::op::dex_op::ReturnType::spec_of_mnemonic(tok) is None);
            assert(crate::op::dex_op::ConditionType::spec_of_mnemonic(tok) is None);
            assert(crate::op::dex_op::TwoRegConditionType::spec_of_mnemonic(tok) is None);
            assert(crate::op::dex_op::GotoType::spec_of_mnemonic(tok) is None);
            assert(crate::op::dex_op::ConstLiteralType::spec_of_mnemonic(tok) is None);
            assert(crate::op::dex_op::LitArithType8::spec_of_mnemonic(tok) is None);
            assert(crate::op::dex_op::LitArithType16::spec_of_mnemonic(tok) is None);
            assert(ConvertType::spec_of_mnemonic(tok) == Some(ConvertType::LongToFloat));
        },
        ConvertType::LongToDouble => {
            assert(tok =~= "long-to-double"@);
            assert(tok != "invoke-virtual"@) by {
                assert(tok[0] == 'l' && "invoke-virtual"@[0] == 'i');
            }
            assert(tok != "move-object/16"@) by {
                assert(tok[0] == 'l' && "move-object/16"@[0] == 'm');
            }
            assert(tok != "move-exception"@) by {
                assert(tok[0] == 'l' && "move-exception"@[0] == 'm');
            }
            assert(crate::op::dex_op::InvokeType::spec_of_mnemonic(tok) is None);
            assert(crate::op::dex_op::ConstType::spec_of_mnemonic(tok) is None);
            assert(crate::op::dex_op::TwoRegMoveType::spec_of_mnemonic(tok) is None);
            assert(crate::op::dex_op::OneRegMoveType::spec_of_mnemonic(tok) is None);
            assert(crate::op::dex_op::ReturnType::spec_of_mnemonic(tok) is None);
            assert(crate::op::dex_op::ConditionType::spec_of_mnemonic(tok) is None);
            assert(crate::op::dex_op::TwoRegConditionType::spec_of_mnemonic(tok) is None);
            assert(crate::op::dex_op::GotoType::spec_of_mnemonic(tok) is None);
            assert(crate::op::dex_op::ConstLiteralType::spec_of_mnemonic(tok) is None);
            assert(crate::op::dex_op::LitArithType8::spec_of_mnemonic(tok) is None);
            assert(crate::op::dex_op::LitArithType16::spec_of_mnemonic(tok) is None);
            assert(ConvertType::spec_of_mnemonic(tok) == Some(ConvertType::LongToDouble));
        },
        ConvertType::FloatToInt => {
            assert(tok =~= "float-to-int"@);
            assert(tok != "monitor-exit"@) by {
                assert(tok[0] == 'f' && "monitor-exit"@[0] == 'm');
            }
            assert(tok != "array-length"@) by {
                assert(tok[0] == 'f' && "array-length"@[0] == 'a');
            }
            assert(tok != "new-instance"@) by {
                assert(tok[0] == 'f' && "new-instance"@[0] == 'n');
            }
            assert(tok != "invoke-super"@) by {
                assert(tok[0] == 'f' && "invoke-super"@[0] == 'i');
            }
            assert(tok != "const-string"@) by {
                assert(tok[0] == 'f' && "const-string"@[0] == 'c');
            }
            assert(tok != "move-wide/16"@) by {
                assert(tok[0] == 'f' && "move-wide/16"@[0] == 'm');
            }
            assert(tok != "const/high16"@) by {
                assert(tok[0] == 'f' && "const/high16"@[0] == 'c');
            }
            assert(tok != "add-int/lit8"@) by {
                assert(tok[0] == 'f' && "add-int/lit8"@[0] == 'a');
            }
            assert(tok != "mul-int/lit8"@) by {
                assert(tok[0] == 'f' && "mul-int/lit8"@[0] == 'm');
            }
            assert(tok != "div-int/lit8"@) by {
                assert(tok[0] == 'f' && "div-int/lit8"@[0] == 'd');
            }
            assert(tok != "rem-int/lit8"@) by {
                assert(tok[0] == 'f' && "rem-int/lit8"@[0] == 'r');
            }
            assert(tok != "and-int/lit8"@) by {
                assert(tok[0] == 'f' && "and-int/lit8"@[0] == 'a');
            }
            assert(tok != "xor-int/lit8"@) by {
                assert(tok[0] == 'f' && "xor-int/lit8"@[0] == 'x');
            }
            assert(tok != "shl-int/lit8"@) by {
                assert(tok[0] == 'f' && "shl-int/lit8"@[0] == 's');
            }
            assert(tok != "shr-int/lit8"@) by {
                assert(tok[0] == 'f' && "shr-int/lit8"@[0] == 's');
            }
            assert(tok != "or-int/lit16"@) by {
                assert(tok[0] == 'f' && "or-int/lit16"@[0] == 'o');
            }
            assert(tok != "int-to-short"@) by {
                assert(tok[0] == 'f' && "int-to-short"@[0] == 'i');
            }
            assert(tok != "int-to-float"@) by {
                assert(tok[0] == 'f' && "int-to-float"@[0] == 'i');
            }
            assert(crate::op::dex_op::InvokeType::spec_of_mnemonic(tok) is None);
            assert(crate::op::dex_op::ConstType::spec_of_mnemonic(tok) is None);
            assert(crate::op::dex_op::TwoRegMoveType::spec_of_mnemonic(tok) is None);
            assert(crate::op::dex_op::OneRegMoveType::spec_of_mnemonic(tok) is None);
            assert(crate::op::dex_op::ReturnType::spec_of_mnemonic(tok) is None);
            assert(crate::op::dex_op::ConditionType::spec_of_mnemonic(tok) is None);
            assert(crate::op::dex_op::TwoRegConditionType::spec_of_mnemonic(tok) is None);
            assert(crate::op::dex_op::GotoType::spec_of_mnemonic(tok) is None);
            assert(crate::op::dex_op::ConstLiteralType::spec_of_mnemonic(tok) is None);
            assert(crate::op::dex_op::LitArithType8::spec_of_mnemonic(tok) is None);
            assert(crate::op::dex_op::LitArithType16::spec_of_mnemonic(tok) is None);
            assert(ConvertType::spec_of_mnemonic(tok) == Some(ConvertType::FloatToInt));
        },
        ConvertType::FloatToLong => {
            assert(tok =~= "float-to-long"@);
            assert(tok != "monitor-enter"@) by {
                assert(tok[0] == 'f' && "monitor-enter"@[0] == 'm');
            }
            assert(tok != "invoke-direct"@) by {
                assert(tok[0] == 'f' && "invoke-direct"@[0] == 'i');
            }
            assert(tok != "invoke-static"@) by {
                assert(tok[0] == 'f' && "invoke-static"@[0] == 'i');
            }
            assert(tok != "invoke-custom"@) by {
                assert(tok[0] == 'f' && "invoke-custom"@[0] == 'i');
            }
            assert(tok != "return-object"@) by {
                assert(tok[0] == 'f' && "return-object"@[0] == 'r');
            }
            assert(tok != "const-wide/16"@) by {
                assert(tok[0] == 'f' && "const-wide/16"@[0] == 'c');
            }
            assert(tok != "const-wide/32"@) by {
                assert(tok[0] == 'f' && "const-wide/32"@[0] == 'c');
            }
            assert(tok != "rsub-int/lit8"@) by {
                assert(tok[0] == 'f' && "rsub-int/lit8"@[0] == 'r');
            }
            assert(tok != "ushr-int/lit8"@) by {
                assert(tok[0] == 'f' && "ushr-int/lit8"@[0] == 'u');
            }
            assert(tok != "add-int/lit16"@) by {
                assert(tok[0] == 'f' && "add-int/lit16"@[0] == 'a');
            }
            assert(tok != "mul-int/lit16"@) by {
                assert(tok[0] == 'f' && "mul-int/lit16"@[0] == 'm');
            }
            assert(tok != "div-int/lit16"@) by {
                assert(tok[0] == 'f' && "div-int/lit16"@[0] == 'd');
            }
            assert(tok != "rem-int/lit16"@) by {
                assert(tok[0] == 'f' && "rem-int/lit16"@[0] == 'r');
            }
            assert(tok != "and-int/lit16"@) by {
                assert(tok[0] == 'f' && "and-int/lit16"@[0] == 'a');
            }
            assert(tok != "xor-int/lit16"@) by {
                assert(tok[0] == 'f' && "xor-int/lit16"@[0] == 'x');
            }
            assert(tok != "int-to-double"@) by {
                assert(tok[0] == 'f' && "int-to-double"@[0] == 'i');
            }
            assert(tok != "long-to-float"@) by {
                assert(tok[0] == 'f' && "long-to-float"@[0] == 'l');
            }
            assert(crate::op::dex_op::InvokeType::spec_of_mnemonic(tok) is None);
            assert(crate::op::dex_op::ConstType::spec_of_mnemonic(tok) is None);
            assert(crate::op::dex_op::TwoRegMoveType::spec_of_mnemonic(tok) is None);
            assert(crate::op::dex_op::OneRegMoveType::spec_of_mnemonic(tok) is None);
            assert(crate::op::dex_op::ReturnType::spec_of_mnemonic(tok) is None);
            assert(crate::op::dex_op::ConditionType::spec_of_mnemonic(tok) is None);
            assert(crate::op::dex_op::TwoRegConditionType::spec_of_mnemonic(tok) is None);
            assert(crate::op::dex_op::GotoType::spec_of_mnemonic(tok) is None);
            assert(crate::op::dex_op::ConstLiteralType::spec_of_mnemonic(tok) is None);
            assert(crate::op::dex_op::LitArithType8::spec_of_mnemonic(tok) is None);
            assert(crate::op::dex_op::LitArithType16::spec_of_mnemonic(tok) is None);
            assert(ConvertType::spec_of_mnemonic(tok) == Some(ConvertType::FloatToLong));
        },
        ConvertType::FloatToDouble => {
            assert(tok =~= "float-to-double"@);
            assert(tok != "fill-array-data"@) by {
                assert(tok[1] == 'l' && "fill-array-data"@[1] == 'i');
            }
            assert(crate::op::dex_op::InvokeType::spec_of_mnemonic(tok) is None);
            assert(crate::op::dex_op::ConstType::spec_of_mnemonic(tok) is None);
            assert(crate::op::dex_op::TwoRegMoveType::spec_of_mnemonic(tok) is None);
            assert(crate::op::dex_op::OneRegMoveType::spec_of_mnemonic(tok) is None);
            assert(crate::op::dex_op::ReturnType::spec_of_mnemonic(tok) is None);
            assert(crate::op::dex_op::ConditionType::spec_of_mnemonic(tok) is None);
            assert(crate::op::dex_op::TwoRegConditionType::spec_of_mnemonic(tok) is None);
            assert(crate::op::dex_op::GotoType::spec_of_mnemonic(tok) is None);
            assert(crate::op::dex_op::ConstLiteralType::spec_of_mnemonic(tok) is None);
            assert(crate::op::dex_op::LitArithType8::spec_of_mnemonic(tok) is None);
            assert(crate::op::dex_op::LitArithType16::spec_of_mnemonic(tok) is None);
            assert(ConvertType::spec_of_mnemonic(tok) == Some(ConvertType::FloatToDouble));
        },
        ConvertType::DoubleToInt => {
            assert(tok =~= "double-to-int"@);
            assert(tok != "monitor-enter"@) by {
                assert(tok[0] == 'd' && "monitor-enter"@[0] == 'm');
            }
            assert(tok != "invoke-direct"@) by {
                assert(tok[0] == 'd' && "invoke-direct"@[0] == 'i');
            }
            assert(tok != "invoke-static"@) by {
                assert(tok[0] == 'd' && "invoke-static"@[0] == 'i');
            }
            assert(tok != "invoke-custom"@) by {
                assert(tok[0] == 'd' && "invoke-custom"@[0] == 'i');
            }
            assert(tok != "return-object"@) by {
                assert(tok[0] == 'd' && "return-object"@[0] == 'r');
            }
            assert(tok != "const-wide/16"@) by {
                assert(tok[0] == 'd' && "const-wide/16"@[0] == 'c');
            }
            assert(tok != "const-wide/32"@) by {
                assert(tok[0] == 'd' && "const-wide/32"@[0] == 'c');
            }
            assert(tok != "rsub-int/lit8"@) by {
                assert(tok[0] == 'd' && "rsub-int/lit8"@[0] == 'r');
            }
            assert(tok != "ushr-int/lit8"@) by {
                assert(tok[0] == 'd' && "ushr-int/lit8"@[0] == 'u');
            }
            assert(tok != "add-int/lit16"@) by {
                assert(tok[0] == 'd' && "add-int/lit16"@[0] == 'a');
            }
            assert(tok != "mul-int/lit16"@) by {
                assert(tok[0] == 'd' && "mul-int/lit16"@[0] == 'm');
            }
            assert(tok != "div-int/lit16"@) by {
                assert(tok[1] == 'o' && "div-int/lit16"@[1] == 'i');
            }
            assert(tok != "rem-int/lit16"@) by {
                assert(tok[0] == 'd' && "rem-int/lit16"@[0] == 'r');
            }
            assert(tok != "and-int/lit16"@) by {
                assert(tok[0] == 'd' && "and-int/lit16"@[0] == 'a');
            }
            assert(tok != "xor-int/lit16"@) by {
                assert(tok[0] == 'd' && "xor-int/lit16"@[0] == 'x');
            }
            assert(tok != "int-to-double"@) by {
                assert(tok[0] == 'd' && "int-to-double"@[0] == 'i');
            }
            assert(tok != "long-to-float"@) by {
                assert(tok[0] == 'd' && "long-to-float"@[0] == 'l');
            }
            assert(tok != "float-to-long"@) by {
                assert(tok[0] == 'd' && "float-to-long"@[0] == 'f');
            }
            assert(crate::op::dex_op::InvokeType::spec_of_mnemonic(tok) is None);
            assert(crate::op::dex_op::ConstType::spec_of_mnemonic(tok) is None);
            assert(crate::op::dex_op::TwoRegMoveType::spec_of_mnemonic(tok) is None);
            assert(crate::op::dex_op::OneRegMoveType::spec_of_mnemonic(tok) is None);
            assert(crate::op::dex_op::ReturnType::spec_of_mnemonic(tok) is None);
            assert(crate::op::dex_op::ConditionType::spec_of_mnemonic(tok) is None);
            assert(crate::op::dex_op::TwoRegConditionType::spec_of_mnemonic(tok) is None);
            assert(crate::op::dex_op::GotoType::spec_of_mnemonic(tok) is None);
            assert(crate::op::dex_op::ConstLiteralType::spec_of_mnemonic(tok) is None);
            assert(crate::op::dex_op::LitArithType8::spec_of_mnemonic(tok) is None);
            assert(crate::op::dex_op::LitArithType16::spec_of_mnemonic(tok) is None);
            assert(ConvertType::spec_of_mnemonic(tok) == Some(ConvertType::DoubleToInt));
        },
        ConvertType::DoubleToLong => {
            assert(tok =~= "double-to-long"@);
            assert(tok != "invoke-virtual"@) by {
                assert(tok[0] == 'd' && "invoke-virtual"@[0] == 'i');
            }
            assert(tok != "move-object/16"@) by {
                assert(tok[0] == 'd' && "move-object/16"@[0] == 'm');
            }
            assert(tok != "move-exception"@) by {
                assert(tok[0] == 'd' && "move-exception"@[0] == 'm');
            }
            assert(tok != "long-to-double"@) by {
                assert(tok[0] == 'd' && "long-to-double"@[0] == 'l');
            }
            assert(crate::op::dex_op::InvokeType::spec_of_mnemonic(tok) is None);
            assert(crate::op::dex_op::ConstType::spec_of_mnemonic(tok) is None);
            assert(crate::op::dex_op::TwoRegMoveType::spec_of_mnemonic(tok) is None);
            assert(crate::op::dex_op::OneRegMoveType::spec_of_mnemonic(tok) is None);
            assert(crate::op::dex_op::ReturnType::spec_of_mnemonic(tok) is None);
            assert(crate::op::dex_op::ConditionType::spec_of_mnemonic(tok) is None);
            assert(crate::op::dex_op::TwoRegConditionType::spec_of_mnemonic(tok) is None);
            assert(crate::op::dex_op::GotoType::spec_of_mnemonic(tok) is None);
            assert(crate::op::dex_op::ConstLiteralType::spec_of_mnemonic(tok) is None);
            assert(crate::op::dex_op::LitArithType8::spec_of_mnemonic(tok) is None);
            assert(crate::op::dex_op::LitArithType16::spec_of_mnemonic(tok) is None);
            assert(ConvertType::spec_of_mnemonic(tok) == Some(ConvertType::DoubleToLong));
        },
        ConvertType::DoubleToFloat => {
            assert(tok =~= "double-to-float"@);
            assert(tok != "fill-array-data"@) by {
                assert(tok[0] == 'd' && "fill-array-data"@[0] == 'f');
            }
            assert(tok != "float-to-double"@) by {
                assert(tok[0] == 'd' && "float-to-double"@[0] == 'f');
            }
            assert(crate::op::dex_op::InvokeType::spec_of_mnemonic(tok) is None);
            assert(crate::op::dex_op::ConstType::spec_of_mnemonic(tok) is None);
            assert(crate::op::dex_op::TwoRegMoveType::spec_of_mnemonic(tok) is None);
            assert(crate::op::dex_op::OneRegMoveType::spec_of_mnemonic(tok) is None);
            assert(crate::op::dex_op::ReturnType::spec_of_mnemonic(tok) is None);
            assert(crate::op::dex_op::ConditionType::spec_of_mnemonic(tok) is None);
            assert(crate::op::dex_op::TwoRegConditionType::spec_of_mnemonic(tok) is None);
            assert(crate::op::dex_op::GotoType::spec_of_mnemonic(tok) is None);
            assert(crate::op::dex_op::ConstLiteralType::spec_of_mnemonic(tok) is None);
            assert(crate::op::dex_op::LitArithType8::spec_of_mnemonic(tok) is None);
            assert(crate::op::dex_op::LitArithType16::spec_of_mnemonic(tok) is None);
            assert(ConvertType::spec_of_mnemonic(tok) == Some(ConvertType::DoubleToFloat));
        },
    }
}

/// Round trip for a primitive conversion: rendering it and parsing the
/// result yields the same instruction, consuming the whole text.
#[verifier::spinoff_prover]
#[verifier::rlimit(100)]
pub proof fn lemma_convert_round_trip(cv: ConvertType, d: Register, src: Register)
    ensures
        ({
            let op = SpecDexOp::Convert { convert_type: cv, dest: d, src: src };
            let s = spec_render_dex_op(op);
            spec_parse_dex_op(s, 0) == Some((op, s.len() as int))
        }),
{
    lemma_convert_mnemonic_facts(cv);
    let op = SpecDexOp::Convert { convert_type: cv, dest: d, src: src };
    let s = spec_render_dex_op(op);
    let m = cv.spec_mnemonic();
    let rt1 = spec_register_text(d);
    let rt2 = spec_register_text(src);
    assert(s =~= m + seq![' '] + rt1 + seq![',', ' '] + rt2);
    let a = m.len() as int;
    assert(s[0] == m[0]);
    assert(spec_skip_ws(s, 0) == 0);
    assert forall|k: int| 0 <= k < a implies is_mnemonic_char(#[trigger] s[k]) by {
        assert(s[k] == m[k]);
    }
    assert(s[a] == ' ');
    lemma_mnemonic_end_of_run(s, 0, a);
    assert(s.subrange(0, a) =~= m);
    assert(s.subrange(a, s.len() as int) =~= seq![' '] + rt1 + seq![',', ' '] + rt2);
    lemma_two_regs_text_parses(s, a, d, src);
}


/// The run of label characters starting at `i` is made of label
/// characters.
pub proof fn lemma_label_run_chars(s: Seq<char>, i: int)
    requires
        0 <= i <= s.len(),
    ensures
        forall|k: int| i <= k < spec_label_end(s, i) ==> is_label_char(#[trigger] s[k]),
        i <= spec_label_end(s, i) <= s.len(),
    decreases s.len() - i,
{
    if i < s.len() && is_label_char(s[i]) {
        lemma_label_run_chars(s, i + 1);
    }
}

/// A parsed label name is never empty and is made of label characters, so
/// rendering it parses back (see the label round trip).
pub proof fn lemma_parsed_label_valid(s: Seq<char>, i: int)
    requires
        0 <= i,
    ensures
        match spec_parse_label(s, i) {
            Some((n, j)) => n.len() >= 1 && forall|k: int| 0 <= k < n.len() ==> is_label_char(
                #[trigger] n[k],
            ),
            None => true,
        },
{
    let i0 = spec_skip_ws(s, i);
    if i <= i0 && i0 < s.len() {
        lemma_label_run_chars(s, i0 + 1);
    }
}

/// Round trip in the parse-then-render direction, for the shapes whose
/// operands are registers alone: whenever a text parses to a throw, a
/// move, a one-register move or a conversion, rendering the parsed value
/// and parsing the result reproduces the same value.
pub proof fn lemma_reparse_register_shapes(s: Seq<char>)
    requires
        spec_parse_dex_op(s, 0) matches Some((op, j)) && (op is Throw || op is MoveTwoReg
            || op is MoveOneReg || op is Convert),
    ensures
        match spec_parse_dex_op(s, 0) {
            Some((op, j)) => ({
                let t = spec_render_dex_op(op);
                spec_parse_dex_op(t, 0) == Some((op, t.len() as int))
            }),
            None => true,
        },
{
    match spec_parse_dex_op(s, 0) {
        Some((op, j)) => match op {
            SpecDexOp::Throw { src } => {
                lemma_throw_round_trip(src);
            },
            SpecDexOp::MoveTwoReg { move_type, dest, src } => {
                lemma_move_round_trip(move_type, dest, src);
            },
            SpecDexOp::MoveOneReg { move_type, dest } => {
                lemma_one_reg_move_round_trip(move_type, dest);
            },
            SpecDexOp::Convert { convert_type, dest, src } => {
                lemma_convert_round_trip(convert_type, dest, src);
            },
            _ => {},
        },
        None => {},
    }
}


/// A space, two comma-separated registers, a comma-space and a label,
/// running to the end of the text, parse as a two-register-and-label
/// operand list.
#[verifier::spinoff_prover]
#[verifier::rlimit(100)]
pub proof fn lemma_two_reg_and_label_text_parses(
    s: Seq<char>,
    i: int,
    r1: Register,
    r2: Register,
    name: Seq<char>,
)
    requires
        0 <= i <= s.len(),
        name.len() >= 1,
        forall|k: int| 0 <= k < name.len() ==> is_label_char(#[trigger] name[k]),
        s.subrange(i, s.len() as int) =~= seq![' '] + spec_register_text(r1) + seq![',', ' ']
            + spec_register_text(r2) + seq![',', ' '] + spec_label_text(name),
    ensures
        crate::op::dex_op::spec_two_reg_and_label(s, i) == Some(
            ((r1, r2, name), s.len() as int),
        ),
{
    let rt1 = spec_register_text(r1);
    let rt2 = spec_register_text(r2);
    let lt = spec_label_text(name);
    let b = rt1.len() as int;
    let c = rt2.len() as int;
    let idx1 = match r1 {
        Register::Parameter(n) => n,
        Register::Local(n) => n,
    };
    lemma_dec_chars(idx1 as int);
    let idx2 = match r2 {
        Register::Parameter(n) => n,
        Register::Local(n) => n,
    };
    lemma_dec_chars(idx2 as int);
    assert(s.subrange(i, s.len() as int).len() == s.len() - i);
    assert((seq![' '] + rt1 + seq![',', ' '] + rt2 + seq![',', ' '] + lt).len() == 1 + b + 2
        + c + 2 + lt.len());
    assert(s.len() == i + 1 + b + 2 + c + 2 + lt.len());
    assert forall|k: int| i <= k < s.len() implies s[k] == (seq![' '] + rt1 + seq![',', ' ']
        + rt2 + seq![',', ' '] + lt)[k - i] by {
        assert(s.subrange(i, s.len() as int)[k - i] == s[k]);
    }
    assert(s[i] == ' ');
    assert(s.subrange(i + 1, i + 1 + b) =~= rt1);
    assert(s[i + 1] == rt1[0]);
    assert(!is_ws_char(s[i + 1]) && s[i + 1] != '#');
    assert(s[i + 1 + b] == ',');
    assert(spec_skip_ws(s, i) == spec_skip_ws(s, i + 1));
    assert(spec_skip_ws(s, i + 1) == i + 1);
    lemma_register_text_parses(s, i + 1, r1);
    assert(spec_parse_register(s, i) == Some((r1, i + 1 + b)));
    assert(spec_skip_ws(s, i + 1 + b) == i + 1 + b);
    assert(s[i + 2 + b] == ' ');
    assert(s.subrange(i + 3 + b, i + 3 + b + c) =~= rt2);
    assert(s[i + 3 + b] == rt2[0]);
    assert(!is_ws_char(s[i + 3 + b]) && s[i + 3 + b] != '#');
    assert(s[i + 3 + b + c] == ',');
    assert(spec_skip_ws(s, i + 2 + b) == spec_skip_ws(s, i + 3 + b));
    assert(spec_skip_ws(s, i + 3 + b) == i + 3 + b);
    lemma_register_text_parses(s, i + 3 + b, r2);
    assert(spec_parse_register(s, i + 2 + b) == Some((r2, i + 3 + b + c)));
    assert(spec_skip_ws(s, i + 3 + b + c) == i + 3 + b + c);
    assert(s[i + 4 + b + c] == ' ');
    assert(s[i + 5 + b + c] == ':');
    assert(s.subrange(i + 5 + b + c, s.len() as int) =~= lt);
    assert(spec_skip_ws(s, i + 4 + b + c) == spec_skip_ws(s, i + 5 + b + c));
    assert(spec_skip_ws(s, i + 5 + b + c) == i + 5 + b + c);
    lemma_label_text_parses(s, i + 5 + b + c, name);
    assert(spec_parse_label(s, i + 4 + b + c) == Some((name, s.len() as int)));
}

/// The mnemonic of a two-register conditional is made of mnemonic
/// characters, matches its own family table, and matches none of the
/// shapes and families the dispatcher tries before it.
#[verifier::spinoff_prover]
#[verifier::rlimit(100)]
pub proof fn lemma_two_reg_condition_mnemonic_facts(tc: TwoRegConditionType)
    ensures
        tc.spec_mnemonic().len() >= 1,
        tc.spec_mnemonic()[0] == 'i',
        forall|k: int| 0 <= k < tc.spec_mnemonic().len() ==> is_mnemonic_char(
            #[trigger] tc.spec_mnemonic()[k],
        ),
        tc.spec_mnemonic() != "nop"@,
        tc.spec_mnemonic() != "monitor-enter"@,
        tc.spec_mnemonic() != "monitor-exit"@,
        tc.spec_mnemonic() != "check-cast"@,
        tc.spec_mnemonic() != "instance-of"@,
        tc.spec_mnemonic() != "array-length"@,
        tc.spec_mnemonic() != "new-instance"@,
        tc.spec_mnemonic() != "new-array"@,
        tc.spec_mnemonic() != "filled-new-array"@,
        tc.spec_mnemonic() != "filled-new-array/range"@,
        tc.spec_mnemonic() != "fill-array-data"@,
        tc.spec_mnemonic() != "throw"@,
        crate::op::dex_op::InvokeType::spec_of_mnemonic(tc.spec_mnemonic()) is None,
        crate::op::dex_op::ConstType::spec_of_mnemonic(tc.spec_mnemonic()) is None,
        crate::op::dex_op::TwoRegMoveType::spec_of_mnemonic(tc.spec_mnemonic()) is None,
        crate::op::dex_op::OneRegMoveType::spec_of_mnemonic(tc.spec_mnemonic()) is None,
        crate::op::dex_op::ReturnType::spec_of_mnemonic(tc.spec_mnemonic()) is None,
        crate::op::dex_op::ConditionType::spec_of_mnemonic(tc.spec_mnemonic()) is None,
        TwoRegConditionType::spec_of_mnemonic(tc.spec_mnemonic()) == Some(tc),
{
    reveal_strlit("nop");
    reveal_strlit("monitor-enter");
    reveal_strlit("monitor-exit");
    reveal_strlit("check-cast");
    reveal_strlit("instance-of");
    reveal_strlit("array-length");
    reveal_strlit("new-instance");
    reveal_strlit("new-array");
    reveal_strlit("filled-new-array");
    reveal_strlit("filled-new-array/range");
    reveal_strlit("fill-array-data");
    reveal_strlit("throw");
    reveal_strlit("invoke-virtual");
    reveal_strlit("invoke-super");
    reveal_strlit("invoke-interface");
    reveal_strlit("invoke-direct");
    reveal_strlit("invoke-static");
    reveal_strlit("invoke-virtual/range");
    reveal_strlit("invoke-super/range");
    reveal_strlit("invoke-direct/range");
    reveal_strlit("invoke-static/range");
    reveal_strlit("invoke-interface/range");
    reveal_strlit("invoke-polymorphic");
    reveal_strlit("invoke-polymorphic/range");
    reveal_strlit("invoke-custom");
    reveal_strlit("invoke-custom/range");
    reveal_strlit("const-string");
    reveal_strlit("const-string/jumbo");
    reveal_strlit("const-class");
    reveal_strlit("const-method-handle");
    reveal_strlit("const-method-type");
    reveal_strlit("move");
    reveal_strlit("move/from16");
    reveal_strlit("move-wide");
    reveal_strlit("move-wide/from16");
    reveal_strlit("move-wide/16");
    reveal_strlit("move-object");
    reveal_strlit("move-object/from16");
    reveal_strlit("move-object/16");
    reveal_strlit("move-result");
    reveal_strlit("move-result-wide");
    reveal_strlit("move-result-object");
    reveal_strlit("move-exception");
    reveal_strlit("return-void");
    reveal_strlit("return");
    reveal_strlit("return-wide");
    reveal_strlit("return-object");
    reveal_strlit("if-eqz");
    reveal_strlit("if-nez");
    reveal_strlit("if-ltz");
    reveal_strlit("if-gez");
    reveal_strlit("if-gtz");
    reveal_strlit("if-lez");
    reveal_strlit("if-eq");
    reveal_strlit("if-ne");
    reveal_strlit("if-lt");
    reveal_strlit("if-ge");
    reveal_strlit("if-gt");
    reveal_strlit("if-le");
    let tok = tc.spec_mnemonic();
    assert(tok.len() == 5 && tok[0] == 'i' && forall|k: int| 0 <= k < tok.len()
        ==> is_mnemonic_char(#[trigger] tok[k])) by {
        match tc {
            TwoRegConditionType::Eq => {
                assert(tok =~= "if-eq"@);
            },
            TwoRegConditionType::Ne => {
                assert(tok =~= "if-ne"@);
            },
            TwoRegConditionType::Lt => {
                assert(tok =~= "if-lt"@);
            },
            TwoRegConditionType::Ge => {
                assert(tok =~= "if-ge"@);
            },
            TwoRegConditionType::Gt => {
                assert(tok =~= "if-gt"@);
            },
            TwoRegConditionType::Le => {
                assert(tok =~= "if-le"@);
            },
        }
    }
    match tc {
        TwoRegConditionType::Eq => {
            assert(tok =~= "if-eq"@);
            assert(tok != "throw"@) by {
                assert(tok[0] == 'i' && "throw"@[0] == 't');
            }
            assert(crate::op::dex_op::InvokeType::spec_of_mnemonic(tok) is None);
            assert(crate::op::dex_op::ConstType::spec_of_mnemonic(tok) is None);
            assert(crate::op::dex_op::TwoRegMoveType::spec_of_mnemonic(tok) is None);
            assert(crate::op::dex_op::OneRegMoveType::spec_of_mnemonic(tok) is None);
            assert(crate::op::dex_op::ReturnType::spec_of_mnemonic(tok) is None);
            assert(crate::op::dex_op::ConditionType::spec_of_mnemonic(tok) is None);
            assert(TwoRegConditionType::spec_of_mnemonic(tok) == Some(TwoRegConditionType::Eq));
        },
        TwoRegConditionType::Ne => {
            assert(tok =~= "if-ne"@);
            assert(tok != "throw"@) by {
                assert(tok[0] == 'i' && "throw"@[0] == 't');
            }
            assert(tok != "if-eq"@) by {
                assert(tok[3] == 'n' && "if-eq"@[3] == 'e');
            }
            assert(crate::op::dex_op::InvokeType::spec_of_mnemonic(tok) is None);
            assert(crate::op::dex_op::ConstType::spec_of_mnemonic(tok) is None);
            assert(crate::op::dex_op::TwoRegMoveType::spec_of_mnemonic(tok) is None);
            assert(crate::op::dex_op::OneRegMoveType::spec_of_mnemonic(tok) is None);
            assert(crate::op::dex_op::ReturnType::spec_of_mnemonic(tok) is None);
            assert(crate::op::dex_op::ConditionType::spec_of_mnemonic(tok) is None);
            assert(TwoRegConditionType::spec_of_mnemonic(tok) == Some(TwoRegConditionType::Ne));
        },
        TwoRegConditionType::Lt => {
            assert(tok =~= "if-lt"@);
            assert(tok != "throw"@) by {
                assert(tok[0] == 'i' && "throw"@[0] == 't');
            }
            assert(tok != "if-eq"@) by {
                assert(tok[3] == 'l' && "if-eq"@[3] == 'e');
            }
            assert(tok != "if-ne"@) by {
                assert(tok[3] == 'l' && "if-ne"@[3] == 'n');
            }
            assert(crate::op::dex_op::InvokeType::spec_of_mnemonic(tok) is None);
            assert(crate::op::dex_op::ConstType::spec_of_mnemonic(tok) is None);
            assert(crate::op::dex_op::TwoRegMoveType::spec_of_mnemonic(tok) is None);
            assert(crate::op::dex_op::OneRegMoveType::spec_of_mnemonic(tok) is None);
            assert(crate::op::dex_op::ReturnType::spec_of_mnemonic(tok) is None);
            assert(crate::op::dex_op::ConditionType::spec_of_mnemonic(tok) is None);
            assert(TwoRegConditionType::spec_of_mnemonic(tok) == Some(TwoRegConditionType::Lt));
        },
        TwoRegConditionType::Ge => {
            assert(tok =~= "if-ge"@);
            assert(tok != "throw"@) by {
                assert(tok[0] == 'i' && "throw"@[0] == 't');
            }
            assert(tok != "if-eq"@) by {
                assert(tok[3] == 'g' && "if-eq"@[3] == 'e');
            }
            assert(tok != "if-ne"@) by {
                assert(tok[3] == 'g' && "if-ne"@[3] == 'n');
            }
            assert(tok != "if-lt"@) by {
                assert(tok[3] == 'g' && "if-lt"@[3] == 'l');
            }
            assert(crate::op::dex_op::InvokeType::spec_of_mnemonic(tok) is None);
            assert(crate::op::dex_op::ConstType::spec_of_mnemonic(tok) is None);
            assert(crate::op::dex_op::TwoRegMoveType::spec_of_mnemonic(tok) is None);
            assert(crate::op::dex_op::OneRegMoveType::spec_of_mnemonic(tok) is None);
            assert(crate::op::dex_op::ReturnType::spec_of_mnemonic(tok) is None);
            assert(crate::op::dex_op::ConditionType::spec_of_mnemonic(tok) is None);
            assert(TwoRegConditionType::spec_of_mnemonic(tok) == Some(TwoRegConditionType::Ge));
        },
        TwoRegConditionType::Gt => {
            assert(tok =~= "if-gt"@);
            assert(tok != "throw"@) by {
                assert(tok[0] == 'i' && "throw"@[0] == 't');
            }
            assert(tok != "if-eq"@) by {
                assert(tok[3] == 'g' && "if-eq"@[3] == 'e');
            }
            assert(tok != "if-ne"@) by {
                assert(tok[3] == 'g' && "if-ne"@[3] == 'n');
            }
            assert(tok != "if-lt"@) by {
                assert(tok[3] == 'g' && "if-lt"@[3] == 'l');
            }
            assert(tok != "if-ge"@) by {
                assert(tok[4] == 't' && "if-ge"@[4] == 'e');
            }
            assert(crate::op::dex_op::InvokeType::spec_of_mnemonic(tok) is None);
            assert(crate::op::dex_op::ConstType::spec_of_mnemonic(tok) is None);
            assert(crate::op::dex_op::TwoRegMoveType::spec_of_mnemonic(tok) is None);
            assert(crate::op::dex_op::OneRegMoveType::spec_of_mnemonic(tok) is None);
            assert(crate::op::dex_op::ReturnType::spec_of_mnemonic(tok) is None);
            assert(crate::op::dex_op::ConditionType::spec_of_mnemonic(tok) is None);
            assert(TwoRegConditionType::spec_of_mnemonic(tok) == Some(TwoRegConditionType::Gt));
        },
        TwoRegConditionType::Le => {
            assert(tok =~= "if-le"@);
            assert(tok != "throw"@) by {
                assert(tok[0] == 'i' && "throw"@[0] == 't');
            }
            assert(tok != "if-eq"@) by {
                assert(tok[3] == 'l' && "if-eq"@[3] == 'e');
            }
            assert(tok != "if-ne"@) by {
                assert(tok[3] == 'l' && "if-ne"@[3] == 'n');
            }
            assert(tok != "if-lt"@) by {
                assert(tok[4] == 'e' && "if-lt"@[4] == 't');
            }
            assert(tok != "if-ge"@) by {
                assert(tok[3] == 'l' && "if-ge"@[3] == 'g');
            }
            assert(tok != "if-gt"@) by {
                assert(tok[3] == 'l' && "if-gt"@[3] == 'g');
            }
            assert(crate::op::dex_op::InvokeType::spec_of_mnemonic(tok) is None);
            assert(crate::op::dex_op::ConstType::spec_of_mnemonic(tok) is None);
            assert(crate::op::dex_op::TwoRegMoveType::spec_of_mnemonic(tok) is None);
            assert(crate::op::dex_op::OneRegMoveType::spec_of_mnemonic(tok) is None);
            assert(crate::op::dex_op::ReturnType::spec_of_mnemonic(tok) is None);
            assert(crate::op::dex_op::ConditionType::spec_of_mnemonic(tok) is None);
            assert(TwoRegConditionType::spec_of_mnemonic(tok) == Some(TwoRegConditionType::Le));
        },
    }
}

/// Round trip for a two-register conditional branch: rendering it and
/// parsing the result yields the same instruction, consuming the whole
/// text.
#[verifier::spinoff_prover]
#[verifier::rlimit(100)]
pub proof fn lemma_two_reg_condition_round_trip(
    tc: TwoRegConditionType,
    r1: Register,
    r2: Register,
    name: Seq<char>,
)
    requires
        name.len() >= 1,
        forall|k: int| 0 <= k < name.len() ==> is_label_char(#[trigger] name[k]),
    ensures
        ({
            let op = SpecDexOp::TwoRegCondition { cond_type: tc, reg1: r1, reg2: r2,
                offset: name };
            let s = spec_render_dex_op(op);
            spec_parse_dex_op(s, 0) == Some((op, s.len() as int))
        }),
{
    lemma_two_reg_condition_mnemonic_facts(tc);
    let op = SpecDexOp::TwoRegCondition { cond_type: tc, reg1: r1, reg2: r2, offset: name };
    let s = spec_render_dex_op(op);
    let m = tc.spec_mnemonic();
    let rt1 = spec_register_text(r1);
    let rt2 = spec_register_text(r2);
    let lt = spec_label_text(name);
    assert(s =~= m + seq![' '] + rt1 + seq![',', ' '] + rt2 + seq![',', ' '] + lt);
    let a = m.len() as int;
    assert(s[0] == 'i');
    assert(spec_skip_ws(s, 0) == 0);
    assert forall|k: int| 0 <= k < a implies is_mnemonic_char(#[trigger] s[k]) by {
        assert(s[k] == m[k]);
    }
    assert(s[a] == ' ');
    lemma_mnemonic_end_of_run(s, 0, a);
    assert(s.subrange(0, a) =~= m);
    assert(s.subrange(a, s.len() as int) =~= seq![' '] + rt1 + seq![',', ' '] + rt2
        + seq![',', ' '] + lt);
    lemma_two_reg_and_label_text_parses(s, a, r1, r2, name);
}

} // verus!
