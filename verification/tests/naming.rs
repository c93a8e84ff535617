use masl_pipeline::naming::{check_module_name, namespace_path, output_rel_path, source_rel_path};

#[test]
fn valid_name_plain() {
    assert!(check_module_name("counter"));
    assert!(check_module_name("my_module2"));
}

#[test]
fn name_single_colon_accepted() {
    // A lone `:` is not a path separator; the toolkit decides later.
    assert!(check_module_name("a:b"));
}

#[test]
fn invalid_name_empty() {
    assert!(!check_module_name(""));
}

#[test]
fn invalid_name_double_colon() {
    assert!(!check_module_name("foo::bar"));
    assert!(!check_module_name("::"));
    assert!(!check_module_name("x::"));
    assert!(!check_module_name("::x"));
}

#[test]
fn namespace_path_value() {
    assert_eq!(namespace_path("counter"), "standards::counter");
}

#[test]
fn source_rel_path_value() {
    assert_eq!(source_rel_path("counter"), "counter/assets/contract.masm");
}

#[test]
fn output_rel_path_value() {
    assert_eq!(output_rel_path("counter"), "counter/generated/library.masl");
}
