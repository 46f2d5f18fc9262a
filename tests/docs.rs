use kythe_indexer::docs::{extract_links_from_docs, parse_intra_doc_link, process_documentation, DocReference, Namespace};
use kythe_indexer::entity::DocLink;

#[test]
fn link_hints() {
    assert_eq!(parse_intra_doc_link("struct MyStruct"), ("MyStruct".to_string(), Some(Namespace::Types)));
    assert_eq!(parse_intra_doc_link("panic!"), ("panic".to_string(), Some(Namespace::Macros)));
    assert_eq!(parse_intra_doc_link("fn@from_intra_spec"), ("from_intra_spec".to_string(), Some(Namespace::Values)));
    assert_eq!(parse_intra_doc_link("`foo()`"), ("foo".to_string(), Some(Namespace::Values)));
    assert_eq!(parse_intra_doc_link("module@m"), ("m".to_string(), Some(Namespace::Types)));
    assert_eq!(parse_intra_doc_link("``plain``"), ("plain".to_string(), None));
    assert_eq!(parse_intra_doc_link("structure"), ("structure".to_string(), None));
    assert_eq!(parse_intra_doc_link("```"), ("".to_string(), None));
}

#[test]
fn text_without_links_is_escaped() {
    let (text, refs) = process_documentation("a [b] c\\d", &vec![]);
    assert_eq!(text, "a \\[b\\] c\\\\d");
    assert!(refs.is_empty());
}

#[test]
fn resolved_and_unresolved_links() {
    let doc = "See [Foo] or [`bar`](fn@bar) here.";
    let links = vec![
        DocLink { start: 4, end: 9, target: Some(3), source_range: Some((100, 105)) },
        DocLink { start: 13, end: 28, target: None, source_range: None },
    ];
    let (text, refs) = process_documentation(doc, &links);
    assert_eq!(text, "See [Foo] or `bar` here.");
    assert_eq!(refs, vec![DocReference { range: Some((100, 105)), reference: 3 }]);
}

#[test]
fn link_without_title_reads_unknown() {
    let links = vec![DocLink { start: 0, end: 3, target: Some(1), source_range: None }];
    let (text, refs) = process_documentation("abc]", &links);
    assert_eq!(text, "[unknown]\\]");
    assert_eq!(refs.len(), 1);
}

#[test]
fn out_of_order_links_are_passed_over() {
    let links = vec![
        DocLink { start: 6, end: 9, target: Some(1), source_range: None },
        DocLink { start: 0, end: 3, target: Some(2), source_range: None },
        DocLink { start: 8, end: 40, target: Some(3), source_range: None },
    ];
    let (text, refs) = process_documentation("[a] x [b] y", &links);
    assert_eq!(text, "\\[a\\] x [b] y");
    assert_eq!(refs, vec![DocReference { range: None, reference: 1 }]);
}

#[test]
fn links_are_found_in_markdown() {
    let doc = "Uses [Foo] and [`bar()`](fn@bar).";
    let links = extract_links_from_docs(doc);
    assert_eq!(links.len(), 2);
    assert_eq!((links[0].start, links[0].end), (5, 10));
    assert_eq!(links[0].link, "Foo");
    assert_eq!(links[0].ns, None);
    assert_eq!((links[1].start, links[1].end), (15, 32));
    assert_eq!(links[1].link, "bar");
    assert_eq!(links[1].ns, Some(Namespace::Values));
}

#[test]
fn link_offsets_count_characters() {
    let doc = "é [Foo]";
    let links = extract_links_from_docs(doc);
    assert_eq!(links.len(), 1);
    assert_eq!((links[0].start, links[0].end), (2, 7));
}

#[test]
fn text_without_markdown_links() {
    assert!(extract_links_from_docs("no links here").is_empty());
}
