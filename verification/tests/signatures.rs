//! Type- and method-signature parsing and rendering.

use smali::signature::method_signature::{MethodSignature, parse_method_parameter};
use smali::signature::type_signature::{TypeSignature, parse_typesignature, parse_type_parameter};

#[test]
fn test_typesignature() {
    let t = parse_typesignature("[B", 0).unwrap().0;
    println!("{t:?}");
    let t = parse_typesignature("V", 0).unwrap().0;
    println!("{t:?}");
    let t = parse_typesignature("Lcom/none/Class;", 0).unwrap().0;
    println!("{t:?}");
}

#[test]
fn test_signature() {
    let ts = "Ljava/util/HashMap<Ljava/lang/Class<+Lorg/antlr/v4/runtime/atn/Transition;>;Ljava/lang/Integer;>;";
    let o = TypeSignature::from_jni(ts);
    assert_eq!(o.to_jni(), ts);
}

#[test]
fn test_signature2() {
    let ts = "Lorg/jf/dexlib2/writer/DexWriter<Lorg/jf/dexlib2/writer/builder/BuilderStringReference;Lorg/jf/dexlib2/writer/builder/BuilderStringReference;Lorg/jf/dexlib2/writer/builder/BuilderTypeReference;Lorg/jf/dexlib2/writer/builder/BuilderTypeReference;Lorg/jf/dexlib2/writer/builder/BuilderMethodProtoReference;Lorg/jf/dexlib2/writer/builder/BuilderFieldReference;Lorg/jf/dexlib2/writer/builder/BuilderMethodReference;Lorg/jf/dexlib2/writer/builder/BuilderClassDef;Lorg/jf/dexlib2/writer/builder/BuilderCallSiteReference;Lorg/jf/dexlib2/writer/builder/BuilderMethodHandleReference;Lorg/jf/dexlib2/writer/builder/BuilderAnnotation;Lorg/jf/dexlib2/writer/builder/BuilderAnnotationSet;Lorg/jf/dexlib2/writer/builder/BuilderTypeList;Lorg/jf/dexlib2/writer/builder/BuilderField;Lorg/jf/dexlib2/writer/builder/BuilderMethod;Lorg/jf/dexlib2/writer/builder/BuilderEncodedValues$BuilderArrayEncodedValue;Lorg/jf/dexlib2/writer/builder/BuilderEncodedValues$BuilderEncodedValue;Lorg/jf/dexlib2/writer/builder/BuilderAnnotationElement;Lorg/jf/dexlib2/writer/builder/BuilderStringPool;Lorg/jf/dexlib2/writer/builder/BuilderTypePool;Lorg/jf/dexlib2/writer/builder/BuilderProtoPool;Lorg/jf/dexlib2/writer/builder/BuilderFieldPool;Lorg/jf/dexlib2/writer/builder/BuilderMethodPool;Lorg/jf/dexlib2/writer/builder/BuilderClassPool;Lorg/jf/dexlib2/writer/builder/BuilderCallSitePool;Lorg/jf/dexlib2/writer/builder/BuilderMethodHandlePool;Lorg/jf/dexlib2/writer/builder/BuilderTypeListPool;Lorg/jf/dexlib2/writer/builder/BuilderAnnotationPool;Lorg/jf/dexlib2/writer/builder/BuilderAnnotationSetPool;Lorg/jf/dexlib2/writer/builder/BuilderEncodedArrayPool;>.SectionProvider;";
    let o = TypeSignature::from_jni(ts);
    println!("{o:?}");
    assert_eq!(o.to_jni(), ts);
}

#[test]
fn test_signature3() {
    let ts = "<TSource:Ljava/lang/Object;TAccumulate:Ljava/lang/Object;TResult:Ljava/lang/Object;>Ljava/lang/Object;";
    let o = TypeSignature::from_jni(ts);
    println!("{o:?}");
    assert_eq!(o.to_jni(), ts);
}

#[test]
fn test_signature4() {
    let o = parse_type_parameter("CONSTANT_FIELD:I", 0).unwrap().0;
    println!("{o:?}");
}

#[test]
fn test_methodsignature() {
    let t = parse_method_parameter("<init>()V", 0).unwrap().0;
    println!("{t:?}");
}

#[test]
fn test_method_signature1() {
    let ts = "(TTSource;TTAccumulate;Lcom/strobel/core/Accumulator<TTSource;TTAccumulate;>;Lcom/strobel/core/Selector<TTAccumulate;TTResult;>;)TTResult;";
    let m = MethodSignature::from_jni(ts);
    println!("{m:?}");
    assert_eq!(m.to_jni(), ts);
}

#[test]
fn test_method_signature2() {
    let ts = "<R2:Ljava/lang/Object;>(Lcom/strobel/core/Selector<-TR;+TR2;>;)Ljava/lang/Iterable<TR2;>;^Ljava/lang/Exception;";
    let m = MethodSignature::from_jni(ts);
    println!("{m:?}");
    assert_eq!(m.to_jni(), ts);
}

#[test]
fn test_method_signature3() {
    let ts = "<U:TT;>(TU;)I";
    let m = MethodSignature::from_jni(ts);
    println!("{m:?}");
    assert_eq!(m.to_jni(), ts);
}

#[test]
fn test_method_signature4() {
    let ts = "<R2:Ljava/lang/Object;>(Lcom/strobel/core/Selector<-TR;+TR2;>;)Ljava/lang/Iterable<TR2;>;";
    let m = MethodSignature::from_jni(ts);
    println!("{m:?}");
    assert_eq!(m.to_jni(), ts);
}

#[test]
fn test_method_signature5() {
    let ts = "<T:Landroidx/lifecycle/ViewModel;>(Ljava/lang/Class<TT;>;)TT;";
    let m = MethodSignature::from_jni(ts);
    println!("{m:?}");
    assert_eq!(m.to_jni(), ts);
}

#[test]
fn test_java_rendering() {
    let t = TypeSignature::from_jni("[I");
    assert_eq!(t.to_java(), "int[]");
    let t = TypeSignature::from_jni("Lcom/basic/Test;");
    assert_eq!(t.to_java(), "com.basic.Test");
    assert_eq!(t.to_jni(), "Lcom/basic/Test;");
    let t = TypeSignature::Bool;
    assert_eq!(t.to_jni(), "Z");
    assert_eq!(t.to_java(), "boolean");
}
