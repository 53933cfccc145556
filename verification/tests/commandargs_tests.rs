use qute_analysis::commandargs::parse;
use qute_analysis::commandargs::CommandArg;
use qute_analysis::get_templates_folder;
use qute_analysis::lsp::Point;
use qute_analysis::template_reverence_candidate;

#[test]
fn command_args_positional() {
    let args = vec![
        CommandArg::Str("file:///tmp/a.html".to_string()),
        CommandArg::Num(4),
        CommandArg::Num(7),
    ];
    let (point, uri) = parse(args);
    assert_eq!(point, Point { row: 4, column: 7 });
    assert_eq!(uri, "file:///tmp/a.html".to_string());
}

#[test]
fn command_args_tolerate_missing_and_misplaced() {
    let (point, uri) = parse(vec![]);
    assert_eq!(point, Point { row: 0, column: 0 });
    assert_eq!(uri, String::new());

    let args = vec![CommandArg::Num(9), CommandArg::Str("x".to_string()), CommandArg::Other];
    let (point, uri) = parse(args);
    assert_eq!(point, Point { row: 0, column: 0 });
    assert_eq!(uri, String::new());
}

#[test]
fn template_folder_and_reference_path() {
    assert_eq!(get_templates_folder(), "./src/main/resources/templates/");
    assert_eq!(
        template_reverence_candidate("snippets/tailwind", get_templates_folder()),
        "./src/main/resources/templates/snippets/tailwind.html".to_string()
    );
}
