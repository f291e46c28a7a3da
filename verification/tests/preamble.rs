use glsl_to_spirv::prepare_source;
use glsl_to_spirv::render_define;

#[test]
fn render_bare_name() {
    assert_eq!(render_define("A"), "#define A\n");
}

#[test]
fn render_name_with_value() {
    assert_eq!(render_define("A=1"), "#define A 1\n");
}

#[test]
fn render_discards_text_after_first_newline() {
    assert_eq!(render_define("A=1\nB=2"), "#define A 1\n");
}

#[test]
fn render_replaces_only_first_equals() {
    assert_eq!(render_define("A=B=C"), "#define A B=C\n");
}

#[test]
fn render_empty_definition() {
    assert_eq!(render_define(""), "#define \n");
}

#[test]
fn render_distinct_names_render_distinct() {
    assert_ne!(render_define("FOO"), render_define("BAR"));
}

#[test]
fn splice_inserts_after_version_line() {
    let source = "#version 450\nvoid main() {}\n";
    let defs = vec!["FOO=1".to_string(), "BAR".to_string()];
    let out = prepare_source(source, Some(&defs));
    assert_eq!(
        out,
        "#version 450\n#define FOO 1\n#define BAR\nvoid main() {}\n"
    );
}

#[test]
fn splice_keeps_definition_order() {
    let source = "#version 310 es\nx";
    let defs = vec!["B".to_string(), "A".to_string()];
    let out = prepare_source(source, Some(&defs));
    assert_eq!(out, "#version 310 es\n#define B\n#define A\nx");
}

#[test]
fn splice_uses_first_version_occurrence() {
    let source = "// #version mention\n#version 450\nbody";
    let defs = vec!["X".to_string()];
    let out = prepare_source(source, Some(&defs));
    assert_eq!(out, "// #version mention\n#define X\n#version 450\nbody");
}

#[test]
fn no_version_means_no_splice() {
    let source = "void main() {}\n";
    let defs = vec!["FOO=1".to_string()];
    assert_eq!(prepare_source(source, Some(&defs)), source);
    assert_eq!(prepare_source(source, Some(&defs)), prepare_source(source, None));
}

#[test]
fn version_without_trailing_newline_means_no_splice() {
    let source = "#version 450";
    let defs = vec!["FOO=1".to_string()];
    assert_eq!(prepare_source(source, Some(&defs)), source);
}

#[test]
fn empty_definition_list_changes_nothing() {
    let source = "#version 450\nvoid main() {}\n";
    let defs: Vec<String> = vec![];
    assert_eq!(prepare_source(source, Some(&defs)), source);
}

#[test]
fn absent_definitions_change_nothing() {
    let source = "#version 450\nvoid main() {}\n";
    assert_eq!(prepare_source(source, None), source);
}

#[test]
fn splice_handles_multibyte_source_text() {
    let source = "// caf\u{e9} \u{2603}\n#version 450\nbody";
    let defs = vec!["N=\u{e9}".to_string()];
    let out = prepare_source(source, Some(&defs));
    assert_eq!(out, "// caf\u{e9} \u{2603}\n#version 450\n#define N \u{e9}\nbody");
}
