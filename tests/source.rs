use pwasm_stack_height::{cargo_output_path, has_ctor, wasm_path, SourceInput, SourceTarget};

#[test]
fn wasm_path_uses_the_final_name() {
    let input = SourceInput::new("target", "example-wasm");
    assert_eq!(wasm_path(&input), "target/example-wasm.wasm");
    let renamed = input.with_final("contract");
    assert_eq!(wasm_path(&renamed), "target/contract.wasm");
}

#[test]
fn wasm_path_keeps_one_separator() {
    let input = SourceInput::new("/tmp/target/", "a");
    assert_eq!(wasm_path(&input), "/tmp/target/a.wasm");
    let empty = SourceInput::new("", "a");
    assert_eq!(wasm_path(&empty), "a.wasm");
}

#[test]
fn source_input_builders() {
    let input = SourceInput::new("dir", "bin-name");
    assert_eq!(input.target(), SourceTarget::Emscripten);
    assert_eq!(input.bin_name(), "bin-name");
    assert_eq!(input.final_name(), "bin-name");
    assert_eq!(input.target_dir(), "dir");
    let input = input.unknown();
    assert_eq!(input.target(), SourceTarget::Unknown);
    let input = input.emscripten();
    assert_eq!(input.target(), SourceTarget::Emscripten);
}

#[test]
fn constructor_is_found_by_its_export_name() {
    let with_ctor = vec!["call".to_string(), "deploy".to_string()];
    assert!(has_ctor(&with_ctor));
    let without = vec!["call".to_string(), "deploy_".to_string()];
    assert!(!has_ctor(&without));
    assert!(!has_ctor(&vec![]));
}

#[test]
fn cargo_output_path_follows_the_toolchain() {
    let input = SourceInput::new("target", "example-wasm");
    assert_eq!(
        cargo_output_path(&input),
        "target/wasm32-unknown-emscripten/release/example_wasm.wasm"
    );
    let input = input.unknown().with_final("renamed");
    assert_eq!(cargo_output_path(&input), "target/wasm32-unknown-unknown/release/example_wasm.wasm");
}
