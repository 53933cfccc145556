use dashmap::DashMap;
use qute_analysis::lsp::CompletionItem;
use qute_analysis::route::Route;
use qute_analysis::route_completion::can_complete_path_for_param_name;
use qute_analysis::route_completion::completion;
use qute_analysis::route_completion::completion_items_for;

#[test]
fn completion_basic() {
    let dm = DashMap::new();
    dm.insert("/start".to_string(), Route::default());
    let out = completion(
        &dm,
        "<button hx-get=\"/s\" hx-trigger=\"click\" hx-target=\"#selectStyle\" hx-swap=\"outerHTML\"></button>",
        18,
    );
    assert_eq!(
        out,
        vec![CompletionItem {
            label: "/start".to_string(),
            detail: Some("GET: \n".to_string()),
            insert_text: Some("tart".to_string()),
            snippet: false,
        }]
    )
}

#[test]
fn completion_basic_not() {
    let dm = DashMap::new();
    dm.insert("".to_string(), Route::default());
    let out = completion(
        &dm,
        "<button hx-get=\"/sel\" hx-trigger=\"click\" hx-target=\"#selectStyle\" hx-swap=\"outerHTML\"></button>",
        63,
    );
    assert_eq!(out, vec![])
}

#[test]
fn completion_multi_line() {
    let dm = DashMap::new();
    dm.insert("/start".to_string(), Route::default());
    let out = completion(&dm, "hx-get=\"/\"", 9);
    assert_eq!(
        out,
        vec![CompletionItem {
            label: "/start".to_string(),
            detail: Some("GET: \n".to_string()),
            insert_text: Some("start".to_string()),
            snippet: false,
        }]
    )
}

#[test]
fn path_attribute_vocabulary() {
    assert!(can_complete_path_for_param_name(Some("action".to_string())));
    assert!(can_complete_path_for_param_name(Some("hx-get".to_string())));
    assert!(can_complete_path_for_param_name(Some("hx-post".to_string())));
    assert!(can_complete_path_for_param_name(Some("hx-put".to_string())));
    assert!(can_complete_path_for_param_name(Some("hx-path".to_string())));
    assert!(can_complete_path_for_param_name(Some("hx-delete".to_string())));
    assert!(!can_complete_path_for_param_name(Some("hx-target".to_string())));
    assert!(!can_complete_path_for_param_name(None));
}

#[test]
fn items_trim_the_typed_prefix() {
    let dm = DashMap::new();
    dm.insert("/start".to_string(), Route::default());
    let out = completion_items_for(&dm, "/s");
    assert_eq!(out.len(), 1);
    assert_eq!(out[0].label, "/start".to_string());
    assert_eq!(out[0].insert_text, Some("tart".to_string()));
}
