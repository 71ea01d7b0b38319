//! Java type and method signatures in their JNI textual form.

pub mod method_signature;
pub mod type_signature;
