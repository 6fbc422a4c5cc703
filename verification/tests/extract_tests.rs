use doc_file::ast::{Lit, LitKind, MetaItem, MetaItemKind};
use doc_file::error::AttrError;
use doc_file::extract::{
    extract_doc_path, extract_from_list, extract_path, path_of_literal, ShapeKind,
};
use doc_file::path::PathLiteral;
use doc_file::span::Span;

fn sp(lo: u32, hi: u32) -> Span {
    Span::new(lo, hi)
}

fn lit(node: LitKind, span: Span) -> Lit {
    Lit { node, span }
}

fn string(text: &str, span: Span) -> Lit {
    lit(LitKind::Str(text.to_string()), span)
}

fn word(name: &str) -> MetaItem {
    MetaItem { node: MetaItemKind::Word(name.to_string()), span: sp(0, 0) }
}

fn pair(name: &str, value: Lit) -> MetaItem {
    MetaItem { node: MetaItemKind::NameValue(name.to_string(), value), span: sp(0, 0) }
}

fn list(name: &str, items: Vec<MetaItem>) -> MetaItem {
    MetaItem { node: MetaItemKind::List(name.to_string(), items), span: sp(0, 0) }
}

fn path(text: &str) -> PathLiteral {
    PathLiteral::new_opt(text).unwrap()
}

#[test]
fn the_two_names_have_their_shapes() {
    assert_eq!(ShapeKind::of_name("doc"), Some(ShapeKind::List));
    assert_eq!(ShapeKind::of_name("doc_file"), Some(ShapeKind::Direct));
}

#[test]
fn other_names_have_no_shape() {
    assert_eq!(ShapeKind::of_name(""), None);
    assert_eq!(ShapeKind::of_name("do"), None);
    assert_eq!(ShapeKind::of_name("docs"), None);
    assert_eq!(ShapeKind::of_name("Doc"), None);
    assert_eq!(ShapeKind::of_name("doc_files"), None);
    assert_eq!(ShapeKind::of_name("file"), None);
    assert_eq!(ShapeKind::of_name("derive"), None);
}

#[test]
fn a_string_literal_yields_its_text() {
    assert_eq!(path_of_literal(&string("a/b.md", sp(3, 11))), Ok(path("a/b.md")));
}

#[test]
fn a_string_literal_with_nul_is_a_path_error_at_the_literal() {
    assert_eq!(path_of_literal(&string("a\0b", sp(3, 8))), Err(AttrError::Path(sp(3, 8))));
}

#[test]
fn every_other_literal_is_a_syntax_error_at_the_literal() {
    let at = sp(7, 9);
    let others = vec![
        LitKind::Bytes(vec![97, 98]),
        LitKind::Byte(97),
        LitKind::Char('a'),
        LitKind::Int(42),
        LitKind::Float("1.5".to_string()),
        LitKind::Bool(true),
    ];
    for node in others {
        assert_eq!(path_of_literal(&lit(node, at)), Err(AttrError::Syntax(at)));
    }
}

#[test]
fn list_shape_finds_the_file_key() {
    let meta = list("doc", vec![pair("file", string("complicated_thing.markdown", sp(11, 39)))]);
    assert_eq!(extract_doc_path(&meta), Some(Ok(path("complicated_thing.markdown"))));
}

#[test]
fn list_shape_finds_the_file_key_among_other_keys() {
    let meta = list(
        "doc",
        vec![
            word("hidden"),
            pair("alias", string("x", sp(1, 2))),
            list("cfg", vec![word("test")]),
            pair("file", string("a.md", sp(30, 36))),
            word("inline"),
        ],
    );
    assert_eq!(extract_doc_path(&meta), Some(Ok(path("a.md"))));
}

#[test]
fn list_shape_without_file_key_is_nothing_to_expand() {
    assert_eq!(extract_doc_path(&list("doc", vec![])), None);
    assert_eq!(extract_doc_path(&list("doc", vec![word("hidden")])), None);
    let meta = list(
        "doc",
        vec![pair("alias", string("file", sp(1, 2))), pair("files", string("a.md", sp(3, 4)))],
    );
    assert_eq!(extract_doc_path(&meta), None);
}

#[test]
fn a_word_or_a_list_named_file_is_no_file_key() {
    assert_eq!(extract_doc_path(&list("doc", vec![word("file")])), None);
    let nested = list("doc", vec![list("file", vec![pair("file", string("a.md", sp(1, 2)))])]);
    assert_eq!(extract_doc_path(&nested), None);
}

#[test]
fn list_shape_with_a_number_is_a_syntax_error_at_the_literal() {
    let meta = list("doc", vec![pair("file", lit(LitKind::Int(7), sp(11, 12)))]);
    assert_eq!(extract_doc_path(&meta), Some(Err(AttrError::Syntax(sp(11, 12)))));
}

#[test]
fn list_shape_with_nul_in_the_path_is_a_path_error_at_the_literal() {
    let meta = list("doc", vec![pair("file", string("a\0.md", sp(11, 18)))]);
    assert_eq!(extract_doc_path(&meta), Some(Err(AttrError::Path(sp(11, 18)))));
}

#[test]
fn the_first_file_key_with_a_string_decides() {
    let two = vec![pair("file", string("a.md", sp(1, 2))), pair("file", string("b.md", sp(3, 4)))];
    assert_eq!(extract_from_list(&two), Some(Ok(path("a.md"))));
    let number_first =
        vec![pair("file", lit(LitKind::Int(3), sp(1, 2))), pair("file", string("b.md", sp(3, 4)))];
    assert_eq!(extract_from_list(&number_first), Some(Ok(path("b.md"))));
    let number_last =
        vec![pair("file", string("a.md", sp(1, 2))), pair("file", lit(LitKind::Int(3), sp(3, 4)))];
    assert_eq!(extract_from_list(&number_last), Some(Ok(path("a.md"))));
}

#[test]
fn the_first_file_key_with_a_string_decides_even_when_its_path_is_bad() {
    let items =
        vec![pair("file", string("a\0", sp(1, 2))), pair("file", string("b.md", sp(3, 4)))];
    assert_eq!(extract_from_list(&items), Some(Err(AttrError::Path(sp(1, 2)))));
}

#[test]
fn without_a_string_the_first_file_key_is_reported() {
    let items = vec![
        word("hidden"),
        pair("file", lit(LitKind::Bool(true), sp(5, 9))),
        pair("file", lit(LitKind::Int(3), sp(17, 18))),
    ];
    assert_eq!(extract_from_list(&items), Some(Err(AttrError::Syntax(sp(5, 9)))));
}

#[test]
fn an_annotation_named_doc_that_is_no_list_is_nothing_to_expand() {
    assert_eq!(extract_doc_path(&pair("doc", string("Document simple things.", sp(1, 2)))), None);
    assert_eq!(extract_doc_path(&word("doc")), None);
}

#[test]
fn direct_shape_takes_the_value() {
    let meta = pair("doc_file", string("relative/path.md", sp(13, 31)));
    assert_eq!(extract_doc_path(&meta), Some(Ok(path("relative/path.md"))));
}

#[test]
fn direct_shape_with_a_number_is_a_syntax_error_at_the_literal() {
    let meta = pair("doc_file", lit(LitKind::Int(7), sp(13, 14)));
    assert_eq!(extract_doc_path(&meta), Some(Err(AttrError::Syntax(sp(13, 14)))));
}

#[test]
fn direct_shape_with_nul_in_the_path_is_a_path_error_at_the_literal() {
    let meta = pair("doc_file", string("\0", sp(13, 17)));
    assert_eq!(extract_doc_path(&meta), Some(Err(AttrError::Path(sp(13, 17)))));
}

#[test]
fn direct_shape_without_a_value_is_nothing_to_expand() {
    let bare = MetaItem { node: MetaItemKind::Word("doc_file".to_string()), span: sp(2, 10) };
    assert_eq!(extract_doc_path(&bare), None);
    assert_eq!(extract_path(ShapeKind::Direct, &bare), None);
    let listed = MetaItem {
        node: MetaItemKind::List(
            "doc_file".to_string(),
            vec![pair("file", string("a.md", sp(1, 2)))],
        ),
        span: sp(2, 27),
    };
    assert_eq!(extract_doc_path(&listed), None);
    let without_key = MetaItem {
        node: MetaItemKind::List("doc_file".to_string(), vec![word("hidden")]),
        span: sp(2, 18),
    };
    assert_eq!(extract_doc_path(&without_key), None);
    assert_eq!(extract_doc_path(&list("doc_file", vec![])), None);
}

#[test]
fn a_bare_word_is_nothing_to_expand_whatever_its_name() {
    for name in ["doc", "doc_file", "file", "inline", ""] {
        assert_eq!(extract_doc_path(&word(name)), None);
    }
}

#[test]
fn a_list_without_file_key_is_nothing_to_expand_whatever_its_name() {
    for name in ["doc", "doc_file", "cfg", "file"] {
        assert_eq!(extract_doc_path(&list(name, vec![])), None);
        let others =
            vec![word("hidden"), pair("alias", string("a.md", sp(1, 2))), list("cfg", vec![])];
        assert_eq!(extract_doc_path(&list(name, others)), None);
    }
}

#[test]
fn ordinary_documentation_is_never_taken_for_a_path() {
    assert_eq!(extract_doc_path(&pair("doc", string("docs/intro.md", sp(6, 21)))), None);
    assert_eq!(extract_doc_path(&pair("doc", lit(LitKind::Int(3), sp(6, 7)))), None);
}

#[test]
fn an_annotation_of_another_name_is_nothing_to_expand() {
    assert_eq!(extract_doc_path(&list("cfg", vec![pair("file", string("a.md", sp(1, 2)))])), None);
    assert_eq!(extract_doc_path(&pair("path", string("a.md", sp(1, 2)))), None);
    assert_eq!(extract_doc_path(&word("inline")), None);
}

#[test]
fn the_shape_is_the_callers_choice_where_it_is_given() {
    let meta = pair("anything", string("a.md", sp(1, 2)));
    assert_eq!(extract_path(ShapeKind::Direct, &meta), Some(Ok(path("a.md"))));
    assert_eq!(extract_path(ShapeKind::List, &meta), None);
    let listed = list("anything", vec![pair("file", string("b.md", sp(1, 2)))]);
    assert_eq!(extract_path(ShapeKind::List, &listed), Some(Ok(path("b.md"))));
}
