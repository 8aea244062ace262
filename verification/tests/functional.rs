use amber::built_info;
use amber::cli::{create_output, BuildCommand};

#[test]
fn test_create_output_with_output_flag() {
    let cmd = BuildCommand {
        input: "test.ab".to_string(),
        output: Some("output.sh".to_string()),
        no_proc: vec![],
        minify: false,
    };

    let result = create_output(&cmd);
    assert_eq!(result, "output.sh".to_string());
}

#[test]
fn test_create_output_with_stdin() {
    let cmd = BuildCommand {
        input: "-".to_string(),
        output: None,
        no_proc: vec![],
        minify: false,
    };

    let result = create_output(&cmd);
    assert_eq!(result, "-".to_string());
}

#[test]
fn test_create_output_default_extension() {
    let cmd = BuildCommand {
        input: "test.amber".to_string(),
        output: None,
        no_proc: vec![],
        minify: false,
    };

    let result = create_output(&cmd);
    assert_eq!(result, "test.sh".to_string());
}

#[test]
fn test_main_version() {
    let version = built_info::PKG_VERSION;
    assert!(!version.is_empty());
}

#[test]
fn output_path_keeps_the_directory_and_replaces_the_extension() {
    let cmd = BuildCommand {
        input: "scripts/deploy.ab".to_string(),
        output: None,
        no_proc: vec![],
        minify: true,
    };
    assert_eq!(create_output(&cmd), "scripts/deploy.sh");
}

#[test]
fn output_flag_wins_over_the_standard_input() {
    let cmd = BuildCommand {
        input: "-".to_string(),
        output: Some("out.sh".to_string()),
        no_proc: vec![],
        minify: false,
    };
    assert_eq!(create_output(&cmd), "out.sh");
}

fn output_for(input: &str) -> String {
    create_output(&BuildCommand {
        input: input.to_string(),
        output: None,
        no_proc: vec![],
        minify: false,
    })
}

#[test]
fn extension_of_a_plain_name_is_replaced_or_added() {
    assert_eq!(output_for("test.ab"), "test.sh");
    assert_eq!(output_for("a.b.c"), "a.b.sh");
    assert_eq!(output_for("noext"), "noext.sh");
    assert_eq!(output_for(".hidden"), ".hidden.sh");
    assert_eq!(output_for(".hidden.ab"), ".hidden.sh");
    assert_eq!(output_for("a."), "a.sh");
    assert_eq!(output_for("été.ab"), "été.sh");
    assert_eq!(output_for("--"), "--.sh");
}
