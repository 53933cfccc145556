use qute_analysis::parser::parse_include;
use qute_analysis::parser::QuteInclude;
use qute_analysis::parser::QuteIncludeFragement;

#[test]
fn basic() {
    assert_eq!(
        parse_include("{#include foo limit=10 /}".to_string()),
        Some(QuteInclude::Basic("foo".to_string()))
    );
}

#[test]
fn basic_folder() {
    assert_eq!(
        parse_include("{#include snippets/tailwind /}".to_string()),
        Some(QuteInclude::Basic("snippets/tailwind".to_string()))
    );
}

#[test]
fn fragment() {
    assert_eq!(
        parse_include("{#include select$user target=target /}".to_string()),
        Some(QuteInclude::Fragment(QuteIncludeFragement {
            template: "select".to_string(),
            fragment: "user".to_string()
        }))
    );
}

#[test]
fn detail() {
    assert_eq!(
        parse_include("{#include detail}".to_string()),
        Some(QuteInclude::Basic("detail".to_string()))
    );
}

#[test]
fn separator_counts_only_inside_the_template_token() {
    assert_eq!(
        parse_include("{#include detail target=a$b /}".to_string()),
        Some(QuteInclude::Basic("detail".to_string()))
    );
}

#[test]
fn not_an_include_line() {
    assert_eq!(parse_include("<p>plain markup</p>".to_string()), None);
}

#[test]
fn include_line_is_trimmed() {
    assert_eq!(
        parse_include("   {#include detail}  ".to_string()),
        Some(QuteInclude::Basic("detail".to_string()))
    );
}
