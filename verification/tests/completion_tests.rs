use qute_analysis::completion::completion;
use qute_analysis::completion::get_characters_before;
use qute_analysis::completion::Keyword;

#[test]
fn completion_crash() {
    let line = "{\r\n".to_string();
    assert_eq!(completion(line, 1).len(), 17);

    let line = "{#".to_string();
    assert_eq!(completion(line, 2).len(), 14);

    let line = "{#f".to_string();
    assert_eq!(completion(line, 3).len(), 2);

    let line = "{@if".to_string();
    assert_eq!(completion(line, 4).len(), 0);

    let line = "{@whe".to_string();
    assert_eq!(completion(line, 4).len(), 0);
}

#[test]
fn completion_trim_prefix() {
    let line = "{".to_string();
    let out = completion(line, 1);
    let out: Vec<Option<String>> = out.into_iter().map(|e| e.insert_text).collect();
    assert_eq!(
        out,
        vec![
            Some("! $0 !}".to_string()),
            Some(" $0 }".to_string()),
            Some("{ $0 }}".to_string()),
            Some("#for $1 in $2}\n$0\n{/for}".to_string()),
            Some("#each items}\n$0\n{/each}".to_string()),
            Some("#let key=value}\n$0\n{/let}".to_string()),
            Some("#if condition}\n$0\n{/if}".to_string()),
            Some("#else}$0".to_string()),
            Some("#when $1}\n$0\n{/when}".to_string()),
            Some("#is $1}$0".to_string()),
            Some("#is in $1}$0".to_string()),
            Some("#switch $1}\n$0\n{/switch}".to_string()),
            Some("#case $1}$0".to_string()),
            Some("#with $1}\n$0\n{/with}".to_string()),
            Some("#include $1 /}$0".to_string()),
            Some("#fragment id=$1} \n${0:<h1>Fragment works</h1>}\n{/fragment}".to_string()),
            Some("#cached}$0{/cached}".to_string())
        ]
    );
}

#[test]
fn completion_trim_prefix_with_unwanted() {
    let line = "df{".to_string();
    let out = completion(line, 3);
    let out: Vec<Option<String>> = out.into_iter().map(|e| e.insert_text).collect();
    assert_eq!(
        out,
        vec![
            Some("! $0 !}".to_string()),
            Some(" $0 }".to_string()),
            Some("{ $0 }}".to_string()),
            Some("#for $1 in $2}\n$0\n{/for}".to_string()),
            Some("#each items}\n$0\n{/each}".to_string()),
            Some("#let key=value}\n$0\n{/let}".to_string()),
            Some("#if condition}\n$0\n{/if}".to_string()),
            Some("#else}$0".to_string()),
            Some("#when $1}\n$0\n{/when}".to_string()),
            Some("#is $1}$0".to_string()),
            Some("#is in $1}$0".to_string()),
            Some("#switch $1}\n$0\n{/switch}".to_string()),
            Some("#case $1}$0".to_string()),
            Some("#with $1}\n$0\n{/with}".to_string()),
            Some("#include $1 /}$0".to_string()),
            Some("#fragment id=$1} \n${0:<h1>Fragment works</h1>}\n{/fragment}".to_string()),
            Some("#cached}$0{/cached}".to_string())
        ]
    );
}

#[test]
fn characters_before_window() {
    assert_eq!(get_characters_before("abcdef".to_string(), 5), "cde".to_string());
    assert_eq!(get_characters_before("ab".to_string(), 99), "ab".to_string());
    assert_eq!(get_characters_before("ab".to_string(), 0), "".to_string());
}

#[test]
fn keyword_snippet_and_detail() {
    assert_eq!(Keyword::Include.complete(), "{#include $1 /}$0");
    assert_eq!(Keyword::Include.detail(), "Include from other templates");
    assert_eq!(Keyword::Comment.complete(), "{! $0 !}");
}
