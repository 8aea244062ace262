use amber::modules::expression::interpolated_region::{
    parse_escaped_string, InterpolatedRegionType,
};

#[test]
fn test_parse_escaped_string() {
    let text_type = InterpolatedRegionType::Text;
    let command_type = InterpolatedRegionType::Command;

    // Test text parsing
    assert_eq!(
        parse_escaped_string("hello".to_string(), &text_type),
        "hello"
    );
    assert_eq!(parse_escaped_string("\n".to_string(), &text_type), "\n");
    assert_eq!(parse_escaped_string("\t".to_string(), &text_type), "\t");
    assert_eq!(parse_escaped_string("\r".to_string(), &text_type), "\r");
    assert_eq!(parse_escaped_string("\0".to_string(), &text_type), "\0");
    assert_eq!(
        parse_escaped_string(r#"\\"#.to_string(), &text_type),
        r#"\"#
    );
    assert_eq!(parse_escaped_string(r#"'"#.to_string(), &text_type), r#"'"#);
    assert_eq!(
        parse_escaped_string(r#"\""#.to_string(), &text_type),
        r#"""#
    );
    assert_eq!(parse_escaped_string(r#"$"#.to_string(), &text_type), r#"$"#);
    assert_eq!(
        parse_escaped_string(r#"\\$"#.to_string(), &text_type),
        r#"\$"#
    );
    assert_eq!(
        parse_escaped_string(r#"\{"#.to_string(), &text_type),
        r#"{"#
    );
    assert_eq!(
        parse_escaped_string(r#"\\ "#.to_string(), &text_type),
        r#"\ "#
    );
    assert_eq!(
        parse_escaped_string(r#"$\{var}"#.to_string(), &text_type),
        r#"${var}"#
    );
    assert_eq!(
        parse_escaped_string(r#"\\$\{var}"#.to_string(), &text_type),
        r#"\${var}"#
    );

    // Test command parsing
    assert_eq!(
        parse_escaped_string("hello".to_string(), &command_type),
        "hello"
    );
    assert_eq!(parse_escaped_string("\n".to_string(), &command_type), "\n");
    assert_eq!(parse_escaped_string("\t".to_string(), &command_type), "\t");
    assert_eq!(parse_escaped_string("\r".to_string(), &command_type), "\r");
    assert_eq!(parse_escaped_string("\0".to_string(), &command_type), "\0");
    assert_eq!(
        parse_escaped_string(r#"\\"#.to_string(), &command_type),
        r#"\"#
    );
    assert_eq!(
        parse_escaped_string(r#"""#.to_string(), &command_type),
        r#"""#
    );
    assert_eq!(
        parse_escaped_string(r#"\""#.to_string(), &command_type),
        r#"\""#
    );
    assert_eq!(
        parse_escaped_string(r#"'"#.to_string(), &command_type),
        r#"'"#
    );
    assert_eq!(
        parse_escaped_string(r#"\'"#.to_string(), &command_type),
        r#"\'"#
    );
    assert_eq!(
        parse_escaped_string(r#"\$"#.to_string(), &command_type),
        r#"$"#
    );
    assert_eq!(
        parse_escaped_string(r#"\\\$"#.to_string(), &command_type),
        r#"\$"#
    );
    assert_eq!(
        parse_escaped_string(r#"\{"#.to_string(), &command_type),
        r#"{"#
    );
    assert_eq!(
        parse_escaped_string(r#"basename `pwd`"#.to_string(), &command_type),
        r#"basename `pwd`"#
    );
    assert_eq!(
        parse_escaped_string(r#"\$\{var}"#.to_string(), &command_type),
        r#"${var}"#
    );
    assert_eq!(
        parse_escaped_string(r#"\\\$\{var}"#.to_string(), &command_type),
        r#"\${var}"#
    );
}
