use qt_bridge::inherit::{
    generate, GeneratedRustQObjectBlocks, ParsedFunctionParameter, ParsedInheritedMethod,
    QObjectName, ReceiverKind,
};

fn create_qobjectname() -> QObjectName {
    QObjectName { cpp_class_rust: "MyObjectQt".to_string() }
}

fn param(ident: &str, ty: &str) -> ParsedFunctionParameter {
    ParsedFunctionParameter { ident: ident.to_string(), ty: ty.to_string() }
}

fn method(ident: &str, parameters: Vec<ParsedFunctionParameter>, mutable: bool, safe: bool) -> ParsedInheritedMethod {
    ParsedInheritedMethod { ident: ident.to_string(), parameters, mutable, safe, return_type: None }
}

fn generate_from_method(m: ParsedInheritedMethod) -> GeneratedRustQObjectBlocks {
    generate(&create_qobjectname(), &[m])
}

fn param_pairs(ps: &[ParsedFunctionParameter]) -> Vec<(String, String)> {
    ps.iter().map(|p| (p.ident.clone(), p.ty.clone())).collect()
}

#[test]
fn test_mutable() {
    // fn test(self: Pin<&mut qobject::MyObject>, a: B, b: C); declared safe
    let generated = generate_from_method(method("test", vec![param("a", "B"), param("b", "C")], true, true));

    assert_eq!(generated.cxx_mod_contents.len(), 1);
    assert_eq!(generated.cxx_qt_mod_contents.len(), 0);

    // unsafe extern "C++" { #[cxx_name="testCxxQtInherit"] fn test(self: Pin<&mut MyObjectQt>, a: B, b: C); }
    let pair = &generated.cxx_mod_contents[0];
    assert!(pair.foreign.unsafe_marker);
    assert!(!pair.native.unsafe_marker);
    for d in [&pair.native, &pair.foreign] {
        assert_eq!(d.cxx_name, "testCxxQtInherit");
        assert_eq!(d.ident, "test");
        assert_eq!(d.receiver_kind, ReceiverKind::Exclusive);
        assert_eq!(d.receiver_ty, "MyObjectQt");
        assert_eq!(param_pairs(&d.parameters), vec![("a".to_string(), "B".to_string()), ("b".to_string(), "C".to_string())]);
        assert_eq!(d.return_type, None);
    }
}

#[test]
fn test_immutable() {
    // fn test(self: &qobject::MyObject, a: B, b: C); declared safe
    let generated = generate_from_method(method("test", vec![param("a", "B"), param("b", "C")], false, true));

    assert_eq!(generated.cxx_mod_contents.len(), 1);
    assert_eq!(generated.cxx_qt_mod_contents.len(), 0);

    // unsafe extern "C++" { #[cxx_name="testCxxQtInherit"] fn test(self: &MyObjectQt, a: B, b: C); }
    let pair = &generated.cxx_mod_contents[0];
    assert!(pair.foreign.unsafe_marker);
    assert!(!pair.native.unsafe_marker);
    for d in [&pair.native, &pair.foreign] {
        assert_eq!(d.cxx_name, "testCxxQtInherit");
        assert_eq!(d.ident, "test");
        assert_eq!(d.receiver_kind, ReceiverKind::Shared);
        assert_eq!(d.receiver_ty, "MyObjectQt");
        assert_eq!(param_pairs(&d.parameters), vec![("a".to_string(), "B".to_string()), ("b".to_string(), "C".to_string())]);
    }
}

#[test]
fn test_unsafe() {
    // unsafe fn test(self: &qobject::MyObject); declared unsafe
    let generated = generate_from_method(method("test", vec![], false, false));

    assert_eq!(generated.cxx_mod_contents.len(), 1);
    assert_eq!(generated.cxx_qt_mod_contents.len(), 0);

    // extern "C++" { #[cxx_name="testCxxQtInherit"] unsafe fn test(self: &MyObjectQt,); }
    let pair = &generated.cxx_mod_contents[0];
    assert!(!pair.foreign.unsafe_marker);
    assert!(pair.native.unsafe_marker);
    for d in [&pair.native, &pair.foreign] {
        assert_eq!(d.cxx_name, "testCxxQtInherit");
        assert_eq!(d.ident, "test");
        assert_eq!(d.receiver_kind, ReceiverKind::Shared);
        assert_eq!(d.receiver_ty, "MyObjectQt");
        assert!(d.parameters.is_empty());
    }
}

#[test]
fn scenario_mutable_safe_method_on_my_object() {
    let qobject = QObjectName { cpp_class_rust: "MyObject".to_string() };
    let m = method("test", vec![param("a", "TypeB"), param("b", "TypeC")], true, true);
    let generated = generate(&qobject, &[m]);
    let pair = &generated.cxx_mod_contents[0];
    assert_eq!(pair.native.receiver_kind, ReceiverKind::Exclusive);
    assert_eq!(pair.native.ident, "test");
    assert_eq!(pair.native.cxx_name, "testCxxQtInherit");
    assert_eq!(pair.native.receiver_ty, "MyObject");
    assert_eq!(param_pairs(&pair.native.parameters), vec![("a".to_string(), "TypeB".to_string()), ("b".to_string(), "TypeC".to_string())]);
    assert!(!pair.native.unsafe_marker);
    assert!(pair.foreign.unsafe_marker);
    assert_eq!(pair.foreign.receiver_kind, ReceiverKind::Exclusive);
    assert_eq!(param_pairs(&pair.foreign.parameters), param_pairs(&pair.native.parameters));
}

#[test]
fn mutable_unsafe_method_marks_native_side_only() {
    let generated = generate_from_method(method("resize", vec![param("w", "i32")], true, false));
    let pair = &generated.cxx_mod_contents[0];
    assert!(pair.native.unsafe_marker);
    assert!(!pair.foreign.unsafe_marker);
    assert_eq!(pair.native.receiver_kind, ReceiverKind::Exclusive);
    assert_eq!(pair.foreign.receiver_kind, ReceiverKind::Exclusive);
}

#[test]
fn generate_keeps_method_order_and_return_types() {
    let mut first = method("fetchMore", vec![param("parent", "&QModelIndex")], true, true);
    first.return_type = Some("bool".to_string());
    let second = method("hasChildren", vec![], false, false);
    let generated = generate(&create_qobjectname(), &[first, second]);
    assert_eq!(generated.cxx_mod_contents.len(), 2);
    let a = &generated.cxx_mod_contents[0];
    let b = &generated.cxx_mod_contents[1];
    assert_eq!(a.native.ident, "fetchMore");
    assert_eq!(a.native.cxx_name, "fetchMoreCxxQtInherit");
    assert_eq!(a.native.return_type, Some("bool".to_string()));
    assert_eq!(a.foreign.return_type, Some("bool".to_string()));
    assert_eq!(b.native.ident, "hasChildren");
    assert_eq!(b.native.cxx_name, "hasChildrenCxxQtInherit");
    assert_eq!(b.native.return_type, None);
}

#[test]
fn generate_of_no_methods_is_empty() {
    let generated = generate(&create_qobjectname(), &[]);
    assert!(generated.cxx_mod_contents.is_empty());
    assert!(generated.cxx_qt_mod_contents.is_empty());
}

#[test]
fn wrapper_ident_appends_suffix() {
    let m = method("rowCount", vec![], false, true);
    assert_eq!(m.wrapper_ident(), "rowCountCxxQtInherit");
}
