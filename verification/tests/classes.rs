//! Whole-document parsing and rendering, modifiers, and the error type.

use smali::SmaliError;
use smali::annotation::AnnotationVisibility;
use smali::class::{parse_class, write_class};
use smali::modifier::{Modifier, parse_modifiers, write_modifiers};
use smali::op::{
    ArrayDataDirective, ArrayDataElement, Label, PackedSwitchDirective, SparseSwitchDirective,
    SparseSwitchEntry, parse_packed_switch_directive, parse_sparse_switch_directive,
};

#[test]
fn modifiers_round_trip() {
    let (mods, _) = parse_modifiers("public static final foo", 0);
    assert_eq!(mods, vec![Modifier::Public, Modifier::Static, Modifier::Final]);
    assert_eq!(write_modifiers(&mods), "public static final ");
    assert_eq!(Modifier::from_str("strict").unwrap(), Modifier::Static);
    assert!(Modifier::from_str("bogus").is_err());
    assert_eq!(Modifier::DeclaredSynchronized.to_str(), "synchronized");
}

#[test]
fn strict_modifier_round_trip() {
    let (mods, _) = parse_modifiers("strict abstract", 0);
    assert_eq!(mods, vec![Modifier::Strict, Modifier::Abstract]);
    assert_eq!(write_modifiers(&mods), "strict abstract ");
}

#[test]
fn visibility_words() {
    assert_eq!(AnnotationVisibility::Runtime.to_str(), "runtime");
    assert_eq!(
        AnnotationVisibility::from_str("system").unwrap(),
        AnnotationVisibility::System
    );
    assert!(AnnotationVisibility::from_str("nowhere").is_err());
}

#[test]
fn smali_error_keeps_details() {
    let e = SmaliError::new("boom");
    assert_eq!(e.details, "boom");
}

#[test]
fn packed_switch_round_trip() {
    let input = ".packed-switch 0x1\n    :pswitch_0\n    :pswitch_1\n.end packed-switch";
    let (d, end) = parse_packed_switch_directive(input, 0).unwrap();
    assert_eq!(end, input.chars().count());
    assert_eq!(
        d,
        PackedSwitchDirective {
            first_key: 1,
            targets: vec![
                Label("pswitch_0".to_string()),
                Label("pswitch_1".to_string())
            ],
        }
    );
    assert_eq!(d.to_smali(), input);
}

#[test]
fn sparse_switch_round_trip() {
    let input = ".sparse-switch\n    0x1 -> :sswitch_0\n    0xfe -> :sswitch_1\n.end sparse-switch";
    let (d, end) = parse_sparse_switch_directive(input, 0).unwrap();
    assert_eq!(end, input.chars().count());
    assert_eq!(
        d,
        SparseSwitchDirective {
            entries: vec![
                SparseSwitchEntry { key: 1, target: Label("sswitch_0".to_string()) },
                SparseSwitchEntry { key: 0xfe, target: Label("sswitch_1".to_string()) },
            ],
        }
    );
    assert_eq!(d.to_smali(), input);
}

#[test]
fn array_data_typed_elements() {
    let input = ".array-data 1\n    0x7ft\n    -0x2t\n.end array-data";
    let (d, _) = smali::op::parse_array_data_directive(input, 0).unwrap();
    assert_eq!(
        d,
        ArrayDataDirective {
            width: 1,
            elements: vec![ArrayDataElement::Byte(0x7f), ArrayDataElement::Byte(-2)],
        }
    );
    assert_eq!(d.to_smali(), ".array-data 0x1\n    0x7ft 0xfet \n.end array-data");
}

#[test]
fn class_document_round_trip() {
    let input = ".class public final Lcom/example/Widget;
.super Ljava/lang/Object;
.source \"Widget.java\"

.implements Ljava/io/Serializable;

# fields
.field private count:I

# methods
.method public constructor <init>()V
    .locals 0
    invoke-direct {p0}, Ljava/lang/Object;-><init>()V
    return-void
.end method
";
    let (c, _) = parse_class(input, 0).unwrap();
    assert_eq!(c.name.as_jni_type(), "Lcom/example/Widget;");
    assert_eq!(c.super_class.as_jni_type(), "Ljava/lang/Object;");
    assert_eq!(c.source, Some("Widget.java".to_string()));
    assert_eq!(c.implements.len(), 1);
    assert_eq!(c.fields.len(), 1);
    assert_eq!(c.methods.len(), 1);
    let rendered = write_class(&c);
    let (again, _) = parse_class(&rendered, 0).unwrap();
    assert_eq!(again, c);
    assert_eq!(c.to_smali(), rendered);
}

#[test]
fn class_java_name() {
    let input = ".class public Lcom/basic/Test;\n.super Ljava/lang/Object;\n";
    let (c, _) = parse_class(input, 0).unwrap();
    assert_eq!(c.name.as_java_type(), "com.basic.Test");
}
