//! The document grammar around instructions: annotations, params, fields
//! and methods.

use smali::annotation::{AnnotationValue, parse_annotation, parse_annotation_element};
use smali::field::parse_field;
use smali::method::{parse_method, write_method};
use smali::op::dex_op::Register;
use smali::param::parse_param;

#[test]
fn test_parse_annotation_element_array() {
    let a = parse_annotation_element(" key = {\n  \"a,\", \n \"b\\\"\", \"c\" \n }\n", 0)
        .unwrap()
        .0;
    assert_eq!(a.name, "key");
    match a.value {
        AnnotationValue::Array(a) => {
            assert_eq!(a[0], AnnotationValue::String("a,".to_string()));
        },
        _ => {
            println!("{a:?}");
        },
    }

    let a = parse_annotation_element(" value = .enum Ljava/lang/annotation/RetentionPolicy;->SOURCE:Ljava/lang/annotation/RetentionPolicy;\n", 0).unwrap().0;
    match a.value {
        AnnotationValue::Enum(f) => {
            assert_eq!(f.param.ident, "SOURCE");
            assert_eq!(
                f.class.as_jni_type(),
                "Ljava/lang/annotation/RetentionPolicy;"
            );
        },
        _ => {
            println!("{a:?}");
        },
    }
}

#[test]
fn annotation_test1() {
    let input = ".annotation system Ldalvik/annotation/MemberClasses;
    value = {
        Lokhttp3/OkHttpClient$Builder;,
        Lokhttp3/OkHttpClient$Companion;
    }
.end annotation";
    let (ann, end) = parse_annotation(input, 0).unwrap();
    println!("{ann:?}");
    assert_eq!(end, input.chars().count());
}

#[test]
fn test_parse_field() {
    let f = parse_field(".field private final sentRequestAtMillis:J\n\n#aa", 0)
        .unwrap()
        .0;
    assert_eq!(f.param.ident, "sentRequestAtMillis".to_string());
    assert_eq!(f.modifiers.len(), 2);
    assert_eq!(f.param.ts.to_jni(), "J");

    let f = parse_field(".field private final body:Lokhttp3/ResponseBody;", 0)
        .unwrap()
        .0;
    assert_eq!(f.param.ident, "body".to_string());
    assert_eq!(f.modifiers.len(), 2);
    assert_eq!(f.param.ts.to_jni(), "Lokhttp3/ResponseBody;");
}

#[test]
fn test_method() {
    let smali_text = ".method public c(Landroid/view/Display;)V
    .locals 4
    iget-object p0, p0, Ljrf;->b:Ljava/lang/Object;
    check-cast p0, Lf6g;
    if-eqz p1, :cond_0
    invoke-virtual {p0}, Ljava/lang/Object;->getClass()Ljava/lang/Class;
    invoke-virtual {p1}, Landroid/view/Display;->getRefreshRate()F
    move-result p1
    float-to-double v0, p1
    const-wide v2, 0x41cdcd6500000000L
    div-double/2addr v2, v0
    double-to-long v0, v2
    iput-wide v0, p0, Lf6g;->i:J
    const-wide/16 v2, 80
    mul-long/2addr v0, v2
    const-wide/16 v2, 100
    div-long/2addr v0, v2
    iput-wide v0, p0, Lf6g;->j:J
    goto :goto_0
    :cond_0
    const-wide v0, 0x8000000000000001L
    iput-wide v0, p0, Lf6g;->i:J
    iput-wide v0, p0, Lf6g;->j:J
    :goto_0
    return-void
.end method

";
    // The body stores 0x8000000000000001 in a const-wide, which exceeds the
    // signed 64-bit range the instruction carries, so the method is rejected.
    assert!(parse_method(smali_text, 0).is_err());
}

#[test]
fn test_method_round_trip() {
    let smali_text = ".method public c(Landroid/view/Display;)V
    .locals 4
    iget-object p0, p0, Ljrf;->b:Ljava/lang/Object;
    check-cast p0, Lf6g;
    if-eqz p1, :cond_0
    invoke-virtual {p0}, Ljava/lang/Object;->getClass()Ljava/lang/Class;
    invoke-virtual {p1}, Landroid/view/Display;->getRefreshRate()F
    move-result p1
    float-to-double v0, p1
    const-wide v2, 0x41cdcd6500000000L
    div-double/2addr v2, v0
    double-to-long v0, v2
    iput-wide v0, p0, Lf6g;->i:J
    const-wide/16 v2, 80
    mul-long/2addr v0, v2
    const-wide/16 v2, 100
    div-long/2addr v0, v2
    iput-wide v0, p0, Lf6g;->j:J
    goto :goto_0
    :cond_0
    const-wide v0, 0x7ffffffffffffff1L
    iput-wide v0, p0, Lf6g;->i:J
    iput-wide v0, p0, Lf6g;->j:J
    :goto_0
    return-void
.end method

";
    let m = parse_method(smali_text, 0).unwrap().0;
    let rendered = write_method(&m);
    println!("{rendered}");
    let again = parse_method(&rendered, 0).unwrap().0;
    assert_eq!(again, m);
}

#[test]
fn test_method_with_param_annotation() {
    let smali_text = ".method private static final isInitialized(Lkotlin/reflect/KProperty0;)Z
    .locals 1
    .param p0    # Lkotlin/reflect/KProperty0;
        .annotation build Lkotlin/internal/AccessibleLateinitPropertyLiteral;
        .end annotation
    .end param
    .annotation system Ldalvik/annotation/Signature;
        value = {
            \"(\",
            \"Lkotlin/reflect/KProperty0<\",
            \"*>;)Z\"
        }
    .end annotation

    new-instance p0, Lkotlin/NotImplementedError;

    const-string v0, \"Implementation is intrinsic\"

    invoke-direct {p0, v0}, Lkotlin/NotImplementedError;-><init>(Ljava/lang/String;)V

    throw p0
.end method
    ";
    let method = parse_method(smali_text, 0).unwrap().0;
    println!("{method:?}");

    assert_eq!(method.param.ident, "isInitialized");
    assert_eq!(method.annotations.len(), 1);
    assert_eq!(method.ops.len(), 4);
    assert_eq!(method.locals, Some(1));
    assert_eq!(method.modifiers.len(), 3);
}

#[test]
fn test_simple() {
    let input = ".param p0";
    let (_, end) = parse_param(input, 0).unwrap();
    assert_eq!(end, input.chars().count());
}

#[test]
fn test_parse_param_block_with_annotation() {
    let input = ".param p0    # Lkotlin/reflect/KProperty0;
            .annotation build Lkotlin/internal/AccessibleLateinitPropertyLiteral;
            .end annotation
        .end param";
    let (_, end) = parse_param(input, 0).unwrap();
    assert_eq!(end, input.chars().count());
}

#[test]
fn test_parse_param_with_string() {
    let input = ".param p0, \"_this\"    # Landroidx/core/internal/view/SupportMenuItem;";
    let param = parse_param(input, 0).unwrap().0;
    assert_eq!(param.register, Register::Parameter(0));
    assert_eq!(param.name, Some("_this".to_string()));
    assert!(param.annotations.is_empty());
}
