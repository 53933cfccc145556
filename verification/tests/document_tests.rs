use qute_analysis::document::add_fragment;
use qute_analysis::document::check_extract;
use qute_analysis::document::extract_as_file;
use qute_analysis::document::extract_as_fragment;
use qute_analysis::document::extraction_options;
use qute_analysis::document::fragment_wrap;
use qute_analysis::document::get_element_node;
use qute_analysis::document::get_id_of_node;
use qute_analysis::document::get_node_at_point;
use qute_analysis::document::get_tree;
use qute_analysis::document::get_url_with_id;
use qute_analysis::document::include_fragment_reference;
use qute_analysis::document::include_reference;
use qute_analysis::document::range_includes_point;
use qute_analysis::document::ExtractionKind;
use qute_analysis::document::TreesitterError;
use qute_analysis::lsp::Point;
use qute_analysis::lsp::Position;
use qute_analysis::lsp::TsRange;
use qute_analysis::treesitter::html_language;

const DOCUMENT: &str = "
<!doctype html>
<html lang=\"en\">
<head>
\t<title>Real example</title>
</head>
<body>
<div id=\"did\">
\t<div>
\t\t<h1>Hey</h1>
\t</div>
</div>
</body>";

#[test]
fn could_extract_basic() {
    let point = Point { row: 7, column: 2 };
    let out = check_extract(DOCUMENT, point);
    assert_eq!(
        out,
        vec![
            ExtractionKind::AddFragement,
            ExtractionKind::ExtractAsFile,
            ExtractionKind::ExtractAsFragment
        ]
    );
}

#[test]
fn could_extract_no_id() {
    let point = Point { row: 8, column: 2 };
    let out = check_extract(DOCUMENT, point);
    assert_eq!(out, vec![ExtractionKind::AddFragement]);
}

#[test]
fn get_id_of_node_basic() {
    let language = html_language();
    let tree = get_tree(DOCUMENT, language).unwrap();
    let point = Point { row: 7, column: 2 };
    let node = get_node_at_point(&tree, point).unwrap();
    let node = get_element_node(node).unwrap();
    let id = get_id_of_node(language, node, DOCUMENT);
    assert_eq!(id, Ok("did".to_string()));
}

#[test]
fn get_tree_basic() {
    let language = html_language();
    assert!(get_tree(DOCUMENT, language).is_ok());
}

#[test]
fn range_includes_point_basic() {
    let point = Point { row: 0, column: 7 };
    let range = TsRange {
        start_byte: 0,
        end_byte: 16,
        start_point: Point { row: 0, column: 0 },
        end_point: Point { row: 0, column: 16 },
    };
    assert!(range_includes_point(range, point));
}

#[test]
fn no_node_found_on_empty_document() {
    let language = html_language();
    let tree = get_tree("", language).unwrap();
    let out = get_node_at_point(&tree, Point { row: 0, column: 0 });
    assert!(out.is_err());
}

#[test]
fn extraction_availability_rule() {
    assert_eq!(extraction_options(false, false), vec![]);
    assert_eq!(extraction_options(false, true), vec![]);
    assert_eq!(extraction_options(true, false), vec![ExtractionKind::AddFragement]);
    assert_eq!(
        extraction_options(true, true),
        vec![
            ExtractionKind::AddFragement,
            ExtractionKind::ExtractAsFile,
            ExtractionKind::ExtractAsFragment
        ]
    );
}

#[test]
fn id_comes_from_the_opening_tag_only() {
    let content = "<div><p id=\"inner\">x</p></div>";
    let out = check_extract(content, Point { row: 0, column: 2 });
    assert_eq!(out, vec![ExtractionKind::AddFragement]);
}

#[test]
fn extraction_kind_names_round_trip() {
    assert_eq!(ExtractionKind::AddFragement.to_string(), "AddFragement".to_string());
    assert_eq!(ExtractionKind::ExtractAsFile.to_string(), "ExtractAsFile".to_string());
    assert_eq!(ExtractionKind::ExtractAsFragment.to_string(), "ExtractAsFragment".to_string());
    assert_eq!(ExtractionKind::from_str("AddFragement"), Ok(ExtractionKind::AddFragement));
    assert_eq!(ExtractionKind::from_str("ExtractAsFile"), Ok(ExtractionKind::ExtractAsFile));
    assert_eq!(
        ExtractionKind::from_str("ExtractAsFragment"),
        Ok(ExtractionKind::ExtractAsFragment)
    );
    assert_eq!(ExtractionKind::from_str("extractAsFile"), Err(()));
}

#[test]
fn fragment_wrap_scenario() {
    assert_eq!(include_fragment_reference("X"), "{#include X$X /}".to_string());
    assert_eq!(
        fragment_wrap("X", "<p>hi</p>"),
        "{#fragment id=X}\n<p>hi</p>\n{/fragment}".to_string()
    );
    assert_eq!(include_reference("X"), "{#include X /}".to_string());
}

#[test]
fn extract_as_fragment_round_trip() {
    let content = "<div id=\"X\"><p>hi</p></div>";
    let url = "file:///tmp/page.html".to_string();
    let out = extract_as_fragment(url.clone(), Point { row: 0, column: 2 }, content).unwrap();
    assert_eq!(out.len(), 2);
    assert_eq!(out[0].0, url);
    assert_eq!(out[0].1.len(), 1);
    assert_eq!(out[0].1[0].new_text, "{#include X$X /}".to_string());
    assert_eq!(out[0].1[0].range.start, Position::new(0, 0));
    assert_eq!(out[0].1[0].range.end, Position::new(0, 27));
    assert_eq!(out[1].0, "file:///tmp/X.html".to_string());
    assert_eq!(out[1].1.len(), 1);
    assert_eq!(
        out[1].1[0].new_text,
        "{#fragment id=X}\n<div id=\"X\"><p>hi</p></div>\n{/fragment}".to_string()
    );
    assert_eq!(out[1].1[0].range.start, Position::new(0, 0));
    assert_eq!(out[1].1[0].range.end, Position::new(0, 0));
}

#[test]
fn extract_as_file_basic() {
    let content = "<div id=\"X\"><p>hi</p></div>";
    let url = "file:///tmp/page.html".to_string();
    let out = extract_as_file(url.clone(), Point { row: 0, column: 2 }, content).unwrap();
    assert_eq!(out.len(), 2);
    assert_eq!(out[0].1[0].new_text, "{#include X /}".to_string());
    assert_eq!(out[1].0, "file:///tmp/X.html".to_string());
    assert_eq!(out[1].1[0].new_text, "<div id=\"X\"><p>hi</p></div>".to_string());
}

#[test]
fn extract_needs_an_id() {
    let content = "<div><p>hi</p></div>";
    let url = "file:///tmp/page.html".to_string();
    let out = extract_as_file(url, Point { row: 0, column: 2 }, content);
    assert_eq!(out.unwrap_err(), TreesitterError::NoIdFoundOnElement);
}

#[test]
fn extract_needs_a_source_folder() {
    let content = "<div id=\"X\"><p>hi</p></div>";
    let out = extract_as_fragment(String::new(), Point { row: 0, column: 2 }, content);
    assert_eq!(out.unwrap_err(), TreesitterError::UnableToGetContent);
}

#[test]
fn add_fragment_wraps_element() {
    let content = "<div id=\"X\"><p>hi</p></div>";
    let uri = "file:///tmp/page.html".to_string();
    let out = add_fragment(uri.clone(), Point { row: 0, column: 14 }, content).unwrap();
    assert_eq!(out.len(), 1);
    assert_eq!(out[0].0, uri);
    assert_eq!(out[0].1.len(), 2);
    assert_eq!(out[0].1[0].new_text, "\n{/fragment}".to_string());
    assert_eq!(out[0].1[0].range.start, Position::new(0, 21));
    assert_eq!(out[0].1[1].new_text, "{#fragment id=NEW_FRAGMENT }\n".to_string());
    assert_eq!(out[0].1[1].range.start, Position::new(0, 12));
}

#[test]
fn add_fragment_needs_an_element() {
    let out = add_fragment("file:///x.html".to_string(), Point { row: 0, column: 1 }, "just words");
    assert_eq!(out.unwrap_err(), TreesitterError::NoNodeFound);
}

#[test]
fn url_with_id_needs_a_folder() {
    assert_eq!(
        get_url_with_id("file:///tmp/page.html", "frag"),
        Some("file:///tmp/frag.html".to_string())
    );
    assert_eq!(get_url_with_id("", "frag"), None);
}
