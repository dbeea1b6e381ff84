use custom_extension::greeting::my_custom_extension;
use custom_extension::registration::Module;
use custom_extension::registration::get_module;

#[test]
fn greets_world() {
    assert_eq!(my_custom_extension("World"), "From my custom extension: World!");
}

#[test]
fn greets_empty_input() {
    assert_eq!(my_custom_extension(""), "From my custom extension: !");
}

#[test]
fn greets_unicode_input() {
    assert_eq!(my_custom_extension("José"), "From my custom extension: José!");
}

#[test]
fn unicode_passes_through_unmodified() {
    let out = my_custom_extension("héllo wörld ✓");
    assert_eq!(out, "From my custom extension: héllo wörld ✓!");
    assert!(out.contains("héllo wörld ✓"));
}

#[test]
fn repeated_calls_return_identical_output() {
    let first = my_custom_extension("same input");
    let second = my_custom_extension("same input");
    assert_eq!(first, second);
}

#[test]
fn registers_exactly_one_function() {
    let module = get_module(Module::new());
    assert_eq!(module.function_count(), 1);
    assert_eq!(module.function_name(0).as_str(), "my_custom_extension");
}

#[test]
fn registration_appends_to_existing_descriptor() {
    let module = Module::new().function(String::from("first"));
    let module = get_module(module);
    assert_eq!(module.function_count(), 2);
    assert_eq!(module.function_name(0).as_str(), "first");
    assert_eq!(module.function_name(1).as_str(), "my_custom_extension");
}
