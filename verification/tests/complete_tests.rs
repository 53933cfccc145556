use qute_analysis::complete::scan_fragments;
use qute_analysis::complete::Fragment;

#[test]
fn complete_scan_fragments_basic() {
    let conent = "<h1>Items</h1>\n<ol>\n    {#for item in items}\n    {#fragment id=item}   \n    <li>{item.name}</li>  \n    {/fragment}\n    {/for}\n</ol>\n";

    let out = scan_fragments(conent.to_string());
    assert_eq!(out, vec![Fragment { id: "item".to_string() }])
}
