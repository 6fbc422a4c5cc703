use vstd::prelude::*;
use vstd::string::*;
use crate::ast::{
    lemma_list_view, meta_item_views, Lit, LitKind, LitKindView, LitView, MetaItem, MetaItemKind,
    MetaItemKindView, MetaItemView,
};
use crate::error::{AttrError, AttrErrorView};
use crate::path::{valid_path_text, PathLiteral};
use crate::span::Span;

verus! {

/// The two ways in which an annotation can name a file.
#[derive(Clone, Copy, Debug, PartialEq, Eq, Structural)]
pub enum ShapeKind {
    /// `doc(file = "path")`: the path is the value of the key `file` in a list.
    List,
    /// `doc_file = "path"`: the path is the value of the annotation itself.
    Direct,
}

/// The shape that an annotation of the given name has, if the name is one of
/// the two that are recognised.
pub open spec fn shape_of(name: Seq<char>) -> Option<ShapeKind> {
    if name == "doc"@ {
        Some(ShapeKind::List)
    } else if name == "doc_file"@ {
        Some(ShapeKind::Direct)
    } else {
        None
    }
}

/// What examining an annotation yields.
pub enum Extraction {
    /// The annotation names no file: there is nothing to expand.
    NoOp,
    /// The annotation names this path, which holds no NUL character.
    Path(Seq<char>),
    /// The annotation is malformed.
    Failed(AttrErrorView),
}

/// What a literal yields when it stands where a path is expected: its text if
/// it is a string literal without a NUL character, a path error at the literal
/// if it is a string literal with one, a syntax error at the literal otherwise.
pub open spec fn literal_extraction(lit: LitView) -> Extraction {
    match lit.node {
        LitKindView::Str(text) => if valid_path_text(text) {
            Extraction::Path(text)
        } else {
            Extraction::Failed(AttrErrorView::Path(lit.span))
        },
        _ => Extraction::Failed(AttrErrorView::Syntax(lit.span)),
    }
}

/// Whether a sub-item is a `file` key: a name/value pair whose name is `file`.
/// A bare word or a nested list of that name carries no value and is no key.
pub open spec fn is_file_key(item: MetaItemView) -> bool {
    item.node matches MetaItemKindView::NameValue(name, _) && name == "file"@
}

/// Whether a sub-item is a `file` key whose value is a string literal.
pub open spec fn is_str_file_key(item: MetaItemView) -> bool {
    item.node matches MetaItemKindView::NameValue(name, lit) && name == "file"@
        && lit.node is Str
}

/// The literal that a name/value pair carries.
pub open spec fn value_of(item: MetaItemView) -> LitView
    recommends
        item.node is NameValue,
{
    match item.node {
        MetaItemKindView::NameValue(_, lit) => lit,
        _ => arbitrary(),
    }
}

/// Whether the sub-item at `i` is the first `file` key of `items`.
pub open spec fn first_file_key_at(items: Seq<MetaItemView>, i: int) -> bool {
    &&& 0 <= i < items.len()
    &&& is_file_key(items[i])
    &&& forall|j: int| 0 <= j < i ==> !is_file_key(#[trigger] items[j])
}

/// Whether the sub-item at `i` is the first `file` key of `items` whose value
/// is a string literal.
pub open spec fn first_str_file_key_at(items: Seq<MetaItemView>, i: int) -> bool {
    &&& 0 <= i < items.len()
    &&& is_str_file_key(items[i])
    &&& forall|j: int| 0 <= j < i ==> !is_str_file_key(#[trigger] items[j])
}

/// What the sub-items of a list-shaped annotation yield. The first `file` key
/// with a string literal decides, whatever stands before it. Where no `file`
/// key has a string literal, the first `file` key is a syntax error at its
/// literal. Where there is no `file` key at all, there is nothing to expand.
pub open spec fn list_extraction(items: Seq<MetaItemView>) -> Extraction {
    if exists|i: int| first_str_file_key_at(items, i) {
        literal_extraction(value_of(items[choose|i: int| first_str_file_key_at(items, i)]))
    } else if exists|i: int| first_file_key_at(items, i) {
        Extraction::Failed(
            AttrErrorView::Syntax(value_of(items[choose|i: int| first_file_key_at(items, i)]).span),
        )
    } else {
        Extraction::NoOp
    }
}

/// What an annotation of a known shape yields.
///
/// List shape: an annotation that is no list names no file. Direct shape: the
/// value of the annotation decides, and an annotation without a value, a bare
/// word or a list, is not of this shape and names no file.
pub open spec fn shaped_extraction(shape: ShapeKind, meta: MetaItemView) -> Extraction {
    match shape {
        ShapeKind::List => match meta.node {
            MetaItemKindView::List(_, items) => list_extraction(items),
            _ => Extraction::NoOp,
        },
        ShapeKind::Direct => match meta.node {
            MetaItemKindView::NameValue(_, lit) => literal_extraction(lit),
            _ => Extraction::NoOp,
        },
    }
}

/// What an annotation yields: by its name it has one of the two shapes, or it
/// is not recognised and names no file.
pub open spec fn extraction(meta: MetaItemView) -> Extraction {
    match shape_of(meta.name()) {
        Some(shape) => shaped_extraction(shape, meta),
        None => Extraction::NoOp,
    }
}

/// The meaning of the executable result: `None` for nothing to expand,
/// `Some(Ok(..))` for a path, `Some(Err(..))` for a malformed annotation.
pub open spec fn extraction_of(outcome: Option<Result<PathLiteral, AttrError>>) -> Extraction {
    match outcome {
        None => Extraction::NoOp,
        Some(Ok(path)) => Extraction::Path(path@),
        Some(Err(err)) => Extraction::Failed(err@),
    }
}

/// The first `file` key of a list is the only position that
/// `first_file_key_at` accepts, and likewise for `first_str_file_key_at`.
pub proof fn lemma_first_key_is_unique(items: Seq<MetaItemView>, i: int, k: int)
    ensures
        first_file_key_at(items, i) && first_file_key_at(items, k) ==> i == k,
        first_str_file_key_at(items, i) && first_str_file_key_at(items, k) ==> i == k,
{
}

/// Where the first `file` key with a string literal stands at `i`, the
/// literal there decides what the list yields.
pub proof fn lemma_first_string_key_decides(items: Seq<MetaItemView>, i: int)
    requires
        first_str_file_key_at(items, i),
    ensures
        list_extraction(items) == literal_extraction(value_of(items[i])),
{
    lemma_first_key_is_unique(items, i, choose|k: int| first_str_file_key_at(items, k));
}

/// Where no `file` key has a string literal and the first `file` key stands
/// at `i`, the list yields a syntax error at the literal there.
pub proof fn lemma_no_string_key_is_a_syntax_error(items: Seq<MetaItemView>, i: int)
    requires
        first_file_key_at(items, i),
        forall|j: int| 0 <= j < items.len() ==> !is_str_file_key(#[trigger] items[j]),
    ensures
        list_extraction(items) == Extraction::Failed(
            AttrErrorView::Syntax(value_of(items[i]).span),
        ),
{
    lemma_first_key_is_unique(items, i, choose|k: int| first_file_key_at(items, k));
    assert(!is_str_file_key(items[i]));
}

/// A list without a `file` key yields nothing to expand, whatever other keys
/// it holds.
pub proof fn lemma_no_key_is_a_no_op(items: Seq<MetaItemView>)
    requires
        forall|j: int| 0 <= j < items.len() ==> !is_file_key(#[trigger] items[j]),
    ensures
        list_extraction(items) == Extraction::NoOp,
{
}

/// A path that an annotation yields holds no NUL character.
pub proof fn lemma_extracted_path_is_valid(meta: MetaItemView)
    ensures
        extraction(meta) matches Extraction::Path(path) ==> valid_path_text(path),
{
}

/// The two recognised names are different, and each has its shape.
pub proof fn lemma_recognised_names()
    ensures
        shape_of("doc"@) == Some(ShapeKind::List),
        shape_of("doc_file"@) == Some(ShapeKind::Direct),
{
    reveal_strlit("doc");
    reveal_strlit("doc_file");
    assert("doc"@.len() != "doc_file"@.len());
}

/// Whether two texts are the same, character by character.
fn text_eq(a: &str, b: &str) -> (same: bool)
    ensures
        same == (a@ == b@),
{
    String::from_str(a) == String::from_str(b)
}

impl ShapeKind {
    /// The shape that an annotation of the given name has, if the name is one
    /// of the two that are recognised.
    pub fn of_name(name: &str) -> (shape: Option<ShapeKind>)
        ensures
            shape == shape_of(name@),
    {
        if text_eq(name, "doc") {
            Some(ShapeKind::List)
        } else if text_eq(name, "doc_file") {
            Some(ShapeKind::Direct)
        } else {
            None
        }
    }
}

/// Reads a path out of the literal that stands where one is expected.
pub fn path_of_literal(lit: &Lit) -> (outcome: Result<PathLiteral, AttrError>)
    ensures
        extraction_of(Some(outcome)) == literal_extraction(lit@),
{
    match &lit.node {
        LitKind::Str(text) => match PathLiteral::new_opt(text.as_str()) {
            Some(path) => Ok(path),
            None => Err(AttrError::Path(lit.span)),
        },
        _ => Err(AttrError::Syntax(lit.span)),
    }
}

/// Searches the sub-items of a list-shaped annotation for the path it names.
pub fn extract_from_list(items: &Vec<MetaItem>) -> (outcome: Option<
    Result<PathLiteral, AttrError>,
>)
    ensures
        extraction_of(outcome) == list_extraction(meta_item_views(items@)),
{
    let ghost views = meta_item_views(items@);
    let mut first_bad: Option<Span> = None;
    let ghost mut bad_at: int = 0;
    let mut i: usize = 0;
    while i < items.len()
        invariant
            i <= items.len(),
            views == meta_item_views(items@),
            forall|j: int| 0 <= j < i ==> !is_str_file_key(#[trigger] views[j]),
            first_bad is None ==> forall|j: int|
                0 <= j < i ==> !is_file_key(#[trigger] views[j]),
            first_bad matches Some(sp) ==> bad_at < i && first_file_key_at(views, bad_at)
                && sp == value_of(views[bad_at]).span,
        decreases items.len() - i,
    {
        assert(views[i as int] == items@[i as int]@);
        match &items[i].node {
            MetaItemKind::NameValue(name, lit) => {
                if text_eq(name.as_str(), "file") {
                    match &lit.node {
                        LitKind::Str(_) => {
                            proof {
                                lemma_first_string_key_decides(views, i as int);
                            }
                            return Some(path_of_literal(lit));
                        },
                        _ => {
                            if first_bad.is_none() {
                                first_bad = Some(lit.span);
                                proof {
                                    bad_at = i as int;
                                }
                            }
                        },
                    }
                }
            },
            _ => {},
        }
        i += 1;
    }
    match first_bad {
        Some(sp) => {
            proof {
                lemma_no_string_key_is_a_syntax_error(views, bad_at);
            }
            Some(Err(AttrError::Syntax(sp)))
        },
        None => {
            proof {
                lemma_no_key_is_a_no_op(views);
            }
            None
        },
    }
}

/// Examines an annotation of the given shape and extracts the path it names.
pub fn extract_path(shape: ShapeKind, meta: &MetaItem) -> (outcome: Option<
    Result<PathLiteral, AttrError>,
>)
    ensures
        extraction_of(outcome) == shaped_extraction(shape, meta@),
{
    match shape {
        ShapeKind::List => match &meta.node {
            MetaItemKind::List(_, items) => {
                proof {
                    lemma_list_view(*meta);
                }
                extract_from_list(items)
            },
            _ => None,
        },
        ShapeKind::Direct => match &meta.node {
            MetaItemKind::NameValue(_, lit) => Some(path_of_literal(lit)),
            _ => None,
        },
    }
}

/// Examines an annotation and extracts the path it names: `None` where there
/// is nothing to expand, a path where the annotation names one, an error
/// where it is malformed.
pub fn extract_doc_path(meta: &MetaItem) -> (outcome: Option<Result<PathLiteral, AttrError>>)
    ensures
        extraction_of(outcome) == extraction(meta@),
{
    match ShapeKind::of_name(meta.name()) {
        Some(shape) => extract_path(shape, meta),
        None => None,
    }
}

} // verus!
