use dashmap::DashMap;
use qute_analysis::fragment::completion;
use qute_analysis::fragment::get_fragment_prefix;
use qute_analysis::fragment::get_name;
use qute_analysis::fragment::get_optional_clonse_statement;
use qute_analysis::fragment::lines;
use qute_analysis::fragment::scan_file_fragments;
use qute_analysis::fragment::scan_fragments;
use qute_analysis::fragment::Fragment;

#[test]
fn fragemnt_scan_fragments_basic() {
    let content = "<h1>Items</h1>\n<ol>\n    {#for item in items}\n    {#fragment id=item}   \n    <li>{item.name}</li>  \n    {/fragment}\n    {/for}\n</ol>\n";

    let out = scan_fragments(content.to_string(), String::new());
    assert_eq!(
        out,
        vec![Fragment { id: "item".to_string(), source: String::new() }]
    )
}

#[test]
fn scan_fragments_two_on_one_file() {
    let content = "{#fragment id=a}\nx\n{/fragment}\n{#fragment id=b}\ny\n{/fragment}\n";
    let out = scan_fragments(content.to_string(), "f.html".to_string());
    assert_eq!(
        out,
        vec![
            Fragment { id: "a".to_string(), source: "f.html".to_string() },
            Fragment { id: "b".to_string(), source: "f.html".to_string() },
        ]
    )
}

#[test]
fn scan_fragments_empty_content() {
    assert_eq!(scan_fragments(String::new(), String::new()), vec![]);
}

#[test]
fn fragment_prefix_stops_at_template_root() {
    let prefix = get_fragment_prefix("/work/src/main/resources/templates/items/list.html".to_string());
    assert_eq!(prefix, "items/list".to_string());
}

#[test]
fn fragment_id_is_prefixed_by_path() {
    let content = "{#fragment id=item}\n<li>x</li>\n{/fragment}\n";
    let source = "/work/src/main/resources/templates/items/list.html";
    let fragments = scan_file_fragments(source.to_string(), content.to_string());
    assert_eq!(
        fragments,
        vec![Fragment { id: "items/list$item".to_string(), source: source.to_string() }]
    );
}

#[test]
fn fragment_id_ends_at_closing_brace() {
    let out = scan_fragments("{#fragment id=a} b".to_string(), String::new());
    assert_eq!(out, vec![Fragment { id: "a".to_string(), source: String::new() }]);
}

#[test]
fn fragment_prefix_plain_file() {
    let prefix = get_fragment_prefix("templates/list.html".to_string());
    assert_eq!(prefix, "list".to_string());
}

#[test]
fn get_name_strips_extension() {
    assert_eq!(get_name("a/b/list.html"), Some("list".to_string()));
    assert_eq!(get_name("a/b/nested.tailwind.css"), Some("nested.tailwind".to_string()));
    assert_eq!(get_name("folder"), Some("folder".to_string()));
    assert_eq!(get_name(""), None);
}

#[test]
fn lines_splits_and_strips() {
    let out = lines("a\r\nb\nc");
    assert_eq!(out, vec!["a".to_string(), "b".to_string(), "c".to_string()]);
    let out = lines("a\n");
    assert_eq!(out, vec!["a".to_string()]);
}

#[test]
fn optional_close_statement() {
    assert_eq!(get_optional_clonse_statement("{#include a /}".to_string()), "");
    assert_eq!(get_optional_clonse_statement("{#include a".to_string()), " /}");
}

#[test]
fn fragment_completion_offers_ids() {
    let dm: DashMap<String, Fragment> = DashMap::new();
    dm.insert(
        "items/list$item".to_string(),
        Fragment { id: "items/list$item".to_string(), source: "list.html".to_string() },
    );
    let line = "    {#include ".to_string();
    let out = completion(&dm, line, 14);
    assert_eq!(out.len(), 1);
    assert_eq!(out[0].label, "items/list$item /}".to_string());
    assert_eq!(out[0].detail, Some("Fragment from project".to_string()));
    assert_eq!(out[0].insert_text, None);
}

#[test]
fn fragment_completion_inactive_without_marker() {
    let dm: DashMap<String, Fragment> = DashMap::new();
    dm.insert("a".to_string(), Fragment { id: "a".to_string(), source: String::new() });
    let out = completion(&dm, "<p>".to_string(), 3);
    assert_eq!(out.len(), 0);
}
