use dashmap::DashMap;
use qute_analysis::lsp::Location;
use qute_analysis::lsp::LspRange;
use qute_analysis::lsp::Position;
use qute_analysis::route::Route;
use qute_analysis::route_definition::get_definition;
use qute_analysis::route_definition::get_related_route;
use qute_analysis::route_definition::without_vars;

#[test]
fn route_definition_basic() {
    let map = DashMap::new();
    map.insert(
        "/{first_param}/select/{second_param}".to_owned(),
        Route {
            implementation: Some(Location {
                uri: "http://localhost/src/test.java".to_string(),
                range: LspRange::zero(),
            }),
            ..Default::default()
        },
    );
    let pos = Position::new(0, 12);
    let out = get_definition(&map, "\t\t\thx-get=\"/{id}/select/{toSelect}\"", &pos);

    assert_eq!(
        out,
        Some(Location {
            uri: "http://localhost/src/test.java".to_string(),
            range: LspRange::zero(),
        })
    );
}

#[test]
fn without_vars_base() {
    assert_eq!(without_vars("/{id}/select/{participant.uuid}"), "//select/");
}

#[test]
fn without_vars_idempotent_on_a_value() {
    let once = without_vars("/x/{a}/y{b}z");
    let twice = without_vars(once.as_str());
    assert_eq!(once, "/x//yz".to_string());
    assert_eq!(twice, once);
}

#[test]
fn without_vars_keeps_plain_paths() {
    assert_eq!(without_vars("/start"), "/start".to_string());
    assert_eq!(without_vars(""), "".to_string());
}

#[test]
fn related_route_matches_by_normalized_path() {
    let map = DashMap::new();
    let located = Route {
        implementation: Some(Location {
            uri: "file:///src/a.java".to_string(),
            range: LspRange::zero(),
        }),
        ..Default::default()
    };
    map.insert("/{id}/select".to_owned(), located.clone());
    let found = get_related_route(&map, "/abc.uuid/select");
    assert!(found.is_none());
    let found = get_related_route(&map, "/{other}/select");
    assert_eq!(found, Some(located));
}

#[test]
fn related_route_skips_unlocated_matches() {
    let map = DashMap::new();
    map.insert("/{id}/select".to_owned(), Route::default());
    assert_eq!(get_related_route(&map, "/{other}/select"), None);
}

#[test]
fn definition_needs_an_implementation() {
    let map = DashMap::new();
    map.insert("/start".to_owned(), Route::default());
    let pos = Position::new(0, 9);
    let out = get_definition(&map, "hx-get=\"/start\"", &pos);
    assert_eq!(out, None);
}
