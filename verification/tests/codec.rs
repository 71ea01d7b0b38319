//! The instruction codec: parsing, rendering and their round trip.

use smali::ParseError;
use smali::num::{parse_int_lit_i8, parse_int_lit_i16, parse_int_lit_i32};
use smali::op::dex_op::{
    ConstLiteralType, ConstLiteralValue, ConstType, DexOp, Register, RegisterRange,
    StringOrTypeSig, parse_dex_op, parse_register,
};
use smali::op::{ArrayDataElement, Label, Op, parse_array_data_directive, parse_op};
use smali::method_ref::parse_method_ref;
use smali::signature::type_signature::parse_typesignature;

#[test]
fn test_const_string() {
    let input = "const-string v0, \"builder\"";
    let instr = parse_dex_op(input, 0).unwrap().0;
    assert_eq!(
        instr,
        DexOp::Const {
            const_type: ConstType::String,
            dest: Register::Local(0),
            value: StringOrTypeSig::String("builder".to_string())
        }
    );
}

#[test]
fn test_parse_method_ref() {
    let input = "Landroidx/core/content/res/TypedArrayUtils;->getNamedString(Landroid/content/res/TypedArray;Lorg/xmlpull/v1/XmlPullParser;Ljava/lang/String;I)Ljava/lang/String;";
    let _ = parse_method_ref(input, 0).unwrap();
}

#[test]
fn test_invoke_direct() {
    let input = "invoke-direct {p0}, Ljava/lang/Object;-><init>()V";
    let _ = parse_dex_op(input, 0).unwrap();
}

#[test]
fn test_invoke_interface() {
    let input = "invoke-interface/range {v6 .. v12}, Lzpf;->a(JIIILxpf;)V";
    let _ = parse_dex_op(input, 0).unwrap();
}

#[test]
fn test_parse_literal_int() {
    let i: i8 = parse_int_lit_i8("-0x5", 0).unwrap().0;
    assert_eq!(i, -5);

    let i: i8 = parse_int_lit_i8("50", 0).unwrap().0;
    assert_eq!(i, 50);

    let i: i8 = parse_int_lit_i8("5\n", 0).unwrap().0;
    assert_eq!(i, 5);

    let i: i16 = parse_int_lit_i16("-0x7c05", 0).unwrap().0;
    assert_eq!(i, -0x7c05);

    let i: i32 = parse_int_lit_i32("0x7fffffff", 0).unwrap().0;
    assert_eq!(i, 0x7fffffff);

    let i: i32 = parse_int_lit_i32("-0x80000000", 0).unwrap().0;
    assert_eq!(i, -0x80000000);

    let i: i32 = parse_int_lit_i32("-0x80000000", 0).unwrap().0;
    let sixteen: i16 = (i >> 16) as i16;
    assert_eq!(sixteen, -0x8000);
}

#[test]
fn test_filled_new_array() {
    let input = "filled-new-array {v0, v1}, Ljava/lang/String;";
    let instr = parse_dex_op(input, 0).unwrap().0;
    assert_eq!(
        instr,
        DexOp::FilledNewArray {
            registers: vec![Register::Local(0), Register::Local(1)],
            class: StringOrTypeSig::TypeSig(
                parse_typesignature("Ljava/lang/String;", 0).unwrap().0
            )
        }
    );
}

#[test]
fn test_filled_new_array_range() {
    let input = "filled-new-array/range {v0 .. v2}, [I";
    let instr = parse_dex_op(input, 0).unwrap().0;
    assert_eq!(
        instr,
        DexOp::FilledNewArrayRange {
            registers: RegisterRange {
                start: Register::Local(0),
                end: Register::Local(2)
            },
            class: StringOrTypeSig::TypeSig(parse_typesignature("[I", 0).unwrap().0)
        }
    );
}

#[test]
fn method_ref1() {
    let input = "[La0h;->clone()Ljava/lang/Object;";
    let (_, end) = parse_method_ref(input, 0).unwrap();
    assert_eq!(end, input.chars().count());
}

#[test]
fn test_array_data() {
    let input = ".array-data 4\n                                0x0\n                                0x3f800000\n                             .end array-data";
    let ad = parse_array_data_directive(input, 0).unwrap().0;
    println!("{ad:?}");
    assert_eq!(ad.width, 4);
    assert_eq!(
        ad.elements,
        vec![ArrayDataElement::Int(0), ArrayDataElement::Int(0x3f800000)]
    );
}

#[test]
fn test1() {
    let input = "\n\tinvoke-virtual {v0, p0}, Ljava/lang/StringBuilder;->append(Ljava/lang/Object;)Ljava/lang/StringBuilder;\n\t#1";
    let a = parse_op(input, 0).unwrap().0;
    println!("{a:?}");

    let input = "\n    :goto_0\n\n";
    let a = parse_op(input, 0).unwrap().0;
    println!("{a:?}");
    assert_eq!(a, Op::Label(Label("goto_0".to_string())));
}

#[test]
fn register_parsing_samples() {
    for n in [0u16, 1, 9, 10, 255, 4095, 65535] {
        let text = format!("v{n}");
        let (reg, end) = parse_register(&text, 0).unwrap();
        assert_eq!(reg, Register::Local(n));
        assert_eq!(end, text.chars().count());
        let text = format!("p{n}");
        let (reg, end) = parse_register(&text, 0).unwrap();
        assert_eq!(reg, Register::Parameter(n));
        assert_eq!(end, text.chars().count());
    }
    assert!(parse_register("v65536", 0).is_err());
    assert!(parse_register("x0", 0).is_err());
}

#[test]
fn literal_out_of_range() {
    assert!(matches!(
        parse_int_lit_i16("0x12345", 0),
        Err(ParseError::LiteralOutOfRange(_))
    ));
    assert!(matches!(
        parse_int_lit_i32("0x80000000", 0),
        Err(ParseError::LiteralOutOfRange(_))
    ));
    assert!(matches!(
        parse_int_lit_i8("zz", 0),
        Err(ParseError::MalformedOperand(_))
    ));
}

#[test]
fn high16_shift() {
    let instr = parse_dex_op("const/high16 v0, 0x3f800000", 0).unwrap().0;
    assert_eq!(
        instr,
        DexOp::ConstLiteral {
            const_type: ConstLiteralType::ConstHigh16,
            dest: Register::Local(0),
            value: ConstLiteralValue::ConstHigh16(0x3f80)
        }
    );
    assert_eq!(instr.to_smali(), "const/high16 v0, 0x3f800000");
}

#[test]
fn wide_high16_shift() {
    let instr = parse_dex_op("const-wide/high16 v2, 0x4010000000000000L", 0).unwrap().0;
    assert_eq!(
        instr,
        DexOp::ConstLiteral {
            const_type: ConstLiteralType::ConstWideHigh16,
            dest: Register::Local(2),
            value: ConstLiteralValue::ConstWideHigh16(0x4010)
        }
    );
    assert_eq!(instr.to_smali(), "const-wide/high16 v2, 0x4010000000000000");
}

#[test]
fn arity_rejection() {
    assert!(matches!(
        parse_dex_op("add-int v0, v1", 0),
        Err(ParseError::ArityMismatch(_))
    ));
}

#[test]
fn unknown_mnemonic() {
    assert!(matches!(
        parse_dex_op("frobnicate v0", 0),
        Err(ParseError::UnknownMnemonic(_))
    ));
}

#[test]
fn invoke_direct_scenario() {
    let instr = parse_dex_op("invoke-direct {p0}, Ljava/lang/Object;-><init>()V", 0)
        .unwrap()
        .0;
    match &instr {
        DexOp::Invoke { registers, method, .. } => {
            assert_eq!(registers, &vec![Register::Parameter(0)]);
            let m = method.as_ref().unwrap();
            assert_eq!(m.class.to_jni(), "Ljava/lang/Object;");
            assert_eq!(m.param.ident, "<init>");
            assert_eq!(m.param.ms.to_jni(), "()V");
        },
        _ => panic!("expected an invocation"),
    }
}

#[test]
fn invoke_range_scenario() {
    let instr = parse_dex_op("invoke-interface/range {v6 .. v12}, Lzpf;->a(JIIILxpf;)V", 0)
        .unwrap()
        .0;
    match &instr {
        DexOp::Invoke { range, .. } => {
            assert_eq!(
                range,
                &Some(RegisterRange { start: Register::Local(6), end: Register::Local(12) })
            );
        },
        _ => panic!("expected an invocation"),
    }
}

#[test]
fn filled_new_array_range_scenario() {
    let instr = parse_dex_op("filled-new-array/range {v0 .. v2}, [I", 0).unwrap().0;
    match &instr {
        DexOp::FilledNewArrayRange { class, .. } => match class {
            StringOrTypeSig::TypeSig(t) => assert_eq!(t.to_jni(), "[I"),
            _ => panic!("expected a type signature"),
        },
        _ => panic!("expected a range form"),
    }
}

#[test]
fn if_eqz_scenario() {
    let text = "if-eqz v0, :cond_0";
    let instr = parse_dex_op(text, 0).unwrap().0;
    match &instr {
        DexOp::Condition { reg1, offset, .. } => {
            assert_eq!(reg1, &Register::Local(0));
            assert_eq!(offset, &Label("cond_0".to_string()));
        },
        _ => panic!("expected a one-register conditional"),
    }
    assert_eq!(instr.to_smali(), text);
}

#[test]
fn const_string_render() {
    let text = "const-string v0, \"builder\"";
    let instr = parse_dex_op(text, 0).unwrap().0;
    assert_eq!(instr.to_smali(), text);
}

#[test]
fn round_trip_up_to_whitespace() {
    let samples = [
        "nop",
        "move v0, v1",
        "move-wide/from16 v0, v18",
        "move-result-object v1",
        "return-void",
        "return v5",
        "add-int v0, v1, v2",
        "sub-long/2addr v0, v2",
        "neg-int v3, v4",
        "int-to-long v0, v1",
        "cmp-long v0, v2, v4",
        "if-eq v1, v2, :cond_1",
        "if-gez v0, :cond_2",
        "goto/16 :goto_3",
        "const/4 v0, -8",
        "const/16 v1, 300",
        "const v2, 65536",
        "const-wide/16 v2, 80",
        "const/high16 v0, 0x7f010000",
        "const/high16 v0, -0x10000",
        "const-wide v0, -1",
        "const-wide v0, -0x8000000000000000L",
        "const-wide/high16 v2, -0x10000000000000L",
        "aget-object v1, v2, v3",
        "aput v0, v1, v2",
        "sget-object v0, Lcom/example/A;->field:Ljava/lang/String;",
        "sget v0, Lcom/example/A;->n:I",
        "iget v1, p0, Lcom/example/A;->n:I",
        "iput-wide v0, p0, Lcom/example/A;->x:J",
        "add-int/lit8 v0, v1, 7",
        "rsub-int v0, v1, 100",
        "monitor-enter v0",
        "throw p1",
        "array-length v0, v1",
        "check-cast v0, Ljava/lang/String;",
        "instance-of v0, v1, Ljava/lang/String;",
        "new-instance v0, Lcom/example/B;",
        "new-array v0, v1, [I",
        "filled-new-array {v0, v1}, [I",
        "fill-array-data v0, :array_0",
        "packed-switch v2, :pswitch_data_0",
        "invoke-virtual {v0, p0}, Ljava/lang/StringBuilder;->append(Ljava/lang/Object;)Ljava/lang/StringBuilder;",
        "invoke-static {}, Lcom/example/C;->now()J",
        "const-string v0, \"builder\"",
        "const-class v1, Lcom/example/D;",
    ];
    for text in samples {
        let first = parse_dex_op(text, 0).unwrap().0;
        let rendered = first.to_smali();
        let second = parse_dex_op(&rendered, 0).unwrap().0;
        assert_eq!(second, first, "round trip diverged for {text}");
    }
}

#[test]
fn bare_field_access_render() {
    let text = "sget v0, Lcom/example/A;->n:I";
    let instr = parse_dex_op(text, 0).unwrap().0;
    assert_eq!(instr.to_smali(), text);
    let text = "iput v0, p0, Lcom/example/A;->n:I";
    let instr = parse_dex_op(text, 0).unwrap().0;
    assert_eq!(instr.to_smali(), text);
    let text = "sget-object v0, Lcom/example/A;->f:Ljava/lang/String;";
    let instr = parse_dex_op(text, 0).unwrap().0;
    assert_eq!(instr.to_smali(), text);
}

#[test]
fn negative_literal_render() {
    let instr = parse_dex_op("const-wide v0, -1", 0).unwrap().0;
    assert_eq!(
        instr,
        DexOp::ConstLiteral {
            const_type: ConstLiteralType::ConstWide,
            dest: Register::Local(0),
            value: ConstLiteralValue::ConstWide(-1)
        }
    );
    assert_eq!(instr.to_smali(), "const-wide v0, -0x1L");
    let again = parse_dex_op(&instr.to_smali(), 0).unwrap().0;
    assert_eq!(again, instr);

    let instr = parse_dex_op("const/high16 v0, -0x10000", 0).unwrap().0;
    assert_eq!(
        instr,
        DexOp::ConstLiteral {
            const_type: ConstLiteralType::ConstHigh16,
            dest: Register::Local(0),
            value: ConstLiteralValue::ConstHigh16(-1)
        }
    );
    assert_eq!(instr.to_smali(), "const/high16 v0, -0x00010000");
    let again = parse_dex_op(&instr.to_smali(), 0).unwrap().0;
    assert_eq!(again, instr);

    let instr = parse_dex_op("const-wide/high16 v2, -0x8000000000000000L", 0).unwrap().0;
    assert_eq!(
        instr,
        DexOp::ConstLiteral {
            const_type: ConstLiteralType::ConstWideHigh16,
            dest: Register::Local(2),
            value: ConstLiteralValue::ConstWideHigh16(-0x8000)
        }
    );
    assert_eq!(instr.to_smali(), "const-wide/high16 v2, -0x8000000000000000");
    let again = parse_dex_op(&instr.to_smali(), 0).unwrap().0;
    assert_eq!(again, instr);
}

#[test]
fn wide_literal_render() {
    let instr = parse_dex_op("const-wide v2, 0x41cdcd6500000000L", 0).unwrap().0;
    assert_eq!(
        instr,
        DexOp::ConstLiteral {
            const_type: ConstLiteralType::ConstWide,
            dest: Register::Local(2),
            value: ConstLiteralValue::ConstWide(0x41cdcd6500000000)
        }
    );
    assert_eq!(instr.to_smali(), "const-wide v2, 0x41cdcd6500000000L");
    let again = parse_dex_op(&instr.to_smali(), 0).unwrap().0;
    assert_eq!(again, instr);
}
