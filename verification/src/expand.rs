use vstd::prelude::*;
use vstd::string::*;
use crate::ast::{
    attribute_views, AttrStyle, Attribute, AttributeView, Item, ItemView, Lit, LitKind,
    LitKindView, LitView, MetaItem, MetaItemKind, MetaItemKindView, MetaItemView,
};
use crate::error::{
    diagnostic_for, io_message_prefix, path_message, report, syntax_message, AttrError,
    AttrErrorView, Diagnostic, DiagnosticView, ErrorKind, IoFailure, IoFailureView,
};
use crate::extract::{
    extract_doc_path, extraction, first_file_key_at, first_str_file_key_at, is_file_key,
    is_str_file_key, lemma_first_string_key_decides, lemma_no_key_is_a_no_op,
    lemma_no_string_key_is_a_syntax_error, lemma_recognised_names, shape_of, value_of, Extraction,
};
use crate::path::{resolve_path, resolved_path, valid_path_text, PathLiteral};
use crate::span::{SourceLocation, SourceLocationView, Span};

verus! {

/// The documentation annotation that carries `text`: the name/value pair
/// `doc = text`, as an inner annotation that was written in no source file.
pub open spec fn doc_attribute(text: Seq<char>) -> AttributeView {
    AttributeView {
        style: AttrStyle::Inner,
        value: MetaItemView {
            node: MetaItemKindView::NameValue(
                "doc"@,
                LitView { node: LitKindView::Str(text), span: Span::dummy() },
            ),
            span: Span::dummy(),
        },
        is_sugared_doc: false,
        span: Span::dummy(),
    }
}

/// Builds the documentation annotation that carries `doc_string`.
pub fn mk_doc_attr(doc_string: String) -> (attr: Attribute)
    ensures
        attr@ == doc_attribute(doc_string@),
{
    Attribute {
        style: AttrStyle::Inner,
        value: MetaItem {
            node: MetaItemKind::NameValue(
                String::from_str("doc"),
                Lit { node: LitKind::Str(doc_string), span: Span::dummy() },
            ),
            span: Span::dummy(),
        },
        is_sugared_doc: false,
        span: Span::dummy(),
    }
}

/// What is left to do for an annotation once it has been examined.
#[derive(Debug, PartialEq, Eq)]
pub enum Step {
    /// Nothing: the annotation names no file.
    Skip,
    /// Read the file at this path, then splice its contents in.
    Read(String),
    /// Report this error.
    Fail(AttrError),
}

/// The mathematical value of a [`Step`].
pub enum StepView {
    Skip,
    Read(Seq<char>),
    Fail(AttrErrorView),
}

impl View for Step {
    type V = StepView;

    open spec fn view(&self) -> StepView {
        match *self {
            Step::Skip => StepView::Skip,
            Step::Read(path) => StepView::Read(path@),
            Step::Fail(err) => StepView::Fail(err@),
        }
    }
}

/// What is left to do for the annotation `meta`, written in the source file
/// `file`: where it names a path, a read of that path resolved against the
/// directory of `file`.
pub open spec fn plan(meta: MetaItemView, file: Seq<char>) -> StepView {
    match extraction(meta) {
        Extraction::NoOp => StepView::Skip,
        Extraction::Path(path) => StepView::Read(resolved_path(file, path)),
        Extraction::Failed(err) => StepView::Fail(err),
    }
}

/// Examines the annotation `meta`, which stands at `location`, and says what
/// is left to do for it.
pub fn plan_expansion(meta: &MetaItem, location: &SourceLocation) -> (step: Step)
    ensures
        step@ == plan(meta@, location@.file),
{
    match extract_doc_path(meta) {
        None => Step::Skip,
        Some(Ok(path)) => Step::Read(resolve_doc_path(&path, location)),
        Some(Err(err)) => Step::Fail(err),
    }
}

/// The path of the file that `path`, written at `location`, refers to.
pub fn resolve_doc_path(path: &PathLiteral, location: &SourceLocation) -> (resolved: String)
    ensures
        resolved@ == resolved_path(location@.file, path@),
{
    resolve_path(location.file.as_str(), path)
}

/// The mathematical value of what a read returned.
pub open spec fn outcome_view(outcome: Result<String, IoFailure>) -> Result<
    Seq<char>,
    IoFailureView,
> {
    match outcome {
        Ok(text) => Ok(text@),
        Err(e) => Err(e@),
    }
}

/// Reads the file that `path`, written at `location`, refers to, with `read`.
pub fn slurp_doc_file<F: FnOnce(String) -> Result<String, IoFailure>>(
    read: F,
    path: &PathLiteral,
    location: &SourceLocation,
) -> (outcome: Result<String, IoFailure>)
    requires
        forall|file: String|
            file@ == resolved_path(location@.file, path@) ==> call_requires(read, (file,)),
    ensures
        exists|file: String|
            file@ == resolved_path(location@.file, path@) && call_ensures(read, (file,), outcome),
{
    let file = resolve_doc_path(path, location);
    read(file)
}

/// The annotations of an item after the read for one of them has returned:
/// the contents of the file, carried by one documentation annotation, follow
/// the annotations that were there; after a failed read nothing changes.
pub open spec fn spliced(
    attrs: Seq<AttributeView>,
    outcome: Result<Seq<char>, IoFailureView>,
) -> Seq<AttributeView> {
    match outcome {
        Ok(text) => attrs.push(doc_attribute(text)),
        Err(_) => attrs,
    }
}

/// What becomes of a read once it has returned: success, or the failure as
/// the error of the annotation.
pub open spec fn splice_result(outcome: Result<Seq<char>, IoFailureView>) -> Result<
    (),
    AttrErrorView,
> {
    match outcome {
        Ok(_) => Ok(()),
        Err(e) => Err(AttrErrorView::IoError(e)),
    }
}

/// The mathematical value of the result of expanding one annotation.
pub open spec fn result_view(result: Result<(), AttrError>) -> Result<(), AttrErrorView> {
    match result {
        Ok(_) => Ok(()),
        Err(err) => Err(err@),
    }
}

/// Appending one annotation appends its value to the values.
pub proof fn lemma_attribute_views_push(attrs: Seq<Attribute>, attr: Attribute)
    ensures
        attribute_views(attrs.push(attr)) == attribute_views(attrs).push(attr@),
{
    assert(attribute_views(attrs.push(attr)) =~= attribute_views(attrs).push(attr@));
}

/// Takes what the read of the referenced file returned and splices it into
/// `attrs`: the contents become one documentation annotation at the end, and
/// a failure is handed on with `attrs` untouched.
pub fn splice(attrs: &mut Vec<Attribute>, outcome: Result<String, IoFailure>) -> (result: Result<
    (),
    AttrError,
>)
    ensures
        attribute_views(final(attrs)@) == spliced(
            attribute_views(old(attrs)@),
            outcome_view(outcome),
        ),
        result_view(result) == splice_result(outcome_view(outcome)),
        old(attrs)@ == final(attrs)@.take(old(attrs)@.len() as int),
        outcome is Err ==> *final(attrs) == *old(attrs),
{
    match outcome {
        Ok(doc_string) => {
            let attr = mk_doc_attr(doc_string);
            proof {
                lemma_attribute_views_push(attrs@, attr);
            }
            attrs.push(attr);
            assert(old(attrs)@ =~= attrs@.take(old(attrs)@.len() as int));
            Ok(())
        },
        Err(e) => {
            assert(old(attrs)@ =~= attrs@.take(old(attrs)@.len() as int));
            Err(AttrError::from_error(e))
        },
    }
}

/// Expands the annotation `meta`, which stands at `location`, into `attrs`,
/// the annotations of the item it belongs to; `read` is called, once, where
/// the annotation names a file, with the path of that file.
///
/// Where there is nothing to expand, the result is `Ok` and `attrs` is
/// untouched. Where the annotation is malformed, the result is its error and
/// `attrs` is untouched. Otherwise the result and `attrs` are what [`splice`]
/// makes of what `read` returned for the resolved path.
pub fn expand_attr_<F: FnOnce(String) -> Result<String, IoFailure>>(
    read: F,
    location: &SourceLocation,
    meta: &MetaItem,
    attrs: &mut Vec<Attribute>,
) -> (result: Result<(), AttrError>)
    requires
        forall|file: String|
            plan(meta@, location@.file) == StepView::Read(file@) ==> call_requires(read, (file,)),
    ensures
        old(attrs)@ == final(attrs)@.take(old(attrs)@.len() as int),
        result is Err ==> *final(attrs) == *old(attrs),
        match plan(meta@, location@.file) {
            StepView::Skip => result is Ok && *final(attrs) == *old(attrs),
            StepView::Fail(err) => {
                &&& result_view(result) == Err::<(), AttrErrorView>(err)
                &&& *final(attrs) == *old(attrs)
            },
            StepView::Read(path) => exists|file: String, outcome: Result<String, IoFailure>|
                {
                    &&& file@ == path
                    &&& call_ensures(read, (file,), outcome)
                    &&& attribute_views(final(attrs)@) == spliced(
                        attribute_views(old(attrs)@),
                        outcome_view(outcome),
                    )
                    &&& result_view(result) == splice_result(outcome_view(outcome))
                },
        },
{
    match plan_expansion(meta, location) {
        Step::Skip => {
            assert(old(attrs)@ =~= attrs@.take(old(attrs)@.len() as int));
            Ok(())
        },
        Step::Fail(err) => {
            assert(old(attrs)@ =~= attrs@.take(old(attrs)@.len() as int));
            Err(err)
        },
        Step::Read(file) => {
            let ghost requested = file;
            let outcome = read(file);
            let ghost returned = outcome;
            let result = splice(attrs, outcome);
            assert(requested@ == plan(meta@, location@.file)->Read_0 && call_ensures(
                read,
                (requested,),
                returned,
            ));
            result
        },
    }
}

/// What expanding one annotation of an item gives back: the item, and the
/// diagnostic to report, if any.
#[derive(Debug, PartialEq, Eq)]
pub struct Expansion {
    pub item: Item,
    pub diagnostic: Option<Diagnostic>,
}

/// The mathematical value of an [`Expansion`].
pub struct ExpansionView {
    pub item: ItemView,
    pub diagnostic: Option<DiagnosticView>,
}

impl View for Expansion {
    type V = ExpansionView;

    open spec fn view(&self) -> ExpansionView {
        ExpansionView {
            item: self.item@,
            diagnostic: match self.diagnostic {
                Some(d) => Some(d@),
                None => None,
            },
        }
    }
}

/// The item with `text` as one more documentation annotation at the end.
pub open spec fn documented(item: ItemView, text: Seq<char>) -> ItemView {
    ItemView { attrs: item.attrs.push(doc_attribute(text)), ..item }
}

/// What expanding the annotation `meta` of `item` gives, where `meta` stands
/// at `location` and `outcome` is what the read of the file it names returned.
///
/// Where there is nothing to expand: the item, and no diagnostic. Where the
/// annotation is malformed: the item, and the diagnostic for its error. After
/// a read: the item with the contents as one more documentation annotation
/// and no diagnostic, or the item and the diagnostic for the failed read.
/// `outcome` plays no part unless the annotation names a file.
pub open spec fn expansion(
    item: ItemView,
    meta: MetaItemView,
    location: SourceLocationView,
    outcome: Result<Seq<char>, IoFailureView>,
) -> ExpansionView {
    match plan(meta, location.file) {
        StepView::Skip => ExpansionView { item, diagnostic: None },
        StepView::Fail(err) => ExpansionView {
            item,
            diagnostic: Some(diagnostic_for(err, location.span)),
        },
        StepView::Read(_) => match outcome {
            Ok(text) => ExpansionView { item: documented(item, text), diagnostic: None },
            Err(e) => ExpansionView {
                item,
                diagnostic: Some(diagnostic_for(AttrErrorView::IoError(e), location.span)),
            },
        },
    }
}

/// Expands the annotation `meta` of `item`, which stands at `location`;
/// `read` is called, once, where the annotation names a file, with the path
/// of that file.
///
/// The item comes back with its name, its span and the annotations it had;
/// on success the contents of the file follow them as one documentation
/// annotation. Every failure comes back as one diagnostic beside the item as
/// it was.
pub fn expand_attr<F: FnOnce(String) -> Result<String, IoFailure>>(
    read: F,
    location: &SourceLocation,
    meta: &MetaItem,
    item: Item,
) -> (out: Expansion)
    requires
        forall|file: String|
            plan(meta@, location@.file) == StepView::Read(file@) ==> call_requires(read, (file,)),
    ensures
        out.item.ident == item.ident,
        out.item.span == item.span,
        item.attrs@ == out.item.attrs@.take(item.attrs@.len() as int),
        out.diagnostic is Some ==> out.item == item,
        match plan(meta@, location@.file) {
            StepView::Read(path) => exists|file: String, outcome: Result<String, IoFailure>|
                {
                    &&& file@ == path
                    &&& call_ensures(read, (file,), outcome)
                    &&& out@ == expansion(item@, meta@, location@, outcome_view(outcome))
                },
            _ => forall|outcome: Result<Seq<char>, IoFailureView>|
                out@ == #[trigger] expansion(item@, meta@, location@, outcome),
        },
{
    let Item { ident, attrs, span } = item;
    let mut attrs = attrs;
    match expand_attr_(read, location, meta, &mut attrs) {
        Ok(()) => Expansion { item: Item { ident, attrs, span }, diagnostic: None },
        Err(err) => {
            let diagnostic = report(&err, location.span);
            Expansion { item: Item { ident, attrs, span }, diagnostic: Some(diagnostic) }
        },
    }
}

/// An annotation whose name is not recognised leaves the item as it is:
/// nothing is read, nothing is added and nothing is reported.
pub proof fn lemma_unrecognised_annotation_is_ignored(
    item: ItemView,
    meta: MetaItemView,
    location: SourceLocationView,
    outcome: Result<Seq<char>, IoFailureView>,
)
    requires
        shape_of(meta.name()) is None,
    ensures
        plan(meta, location.file) == StepView::Skip,
        expansion(item, meta, location, outcome) == (ExpansionView { item, diagnostic: None }),
{
}

/// A list-shaped annotation whose first `file` key with a string literal
/// holds a path without a NUL character asks for the file at that path,
/// resolved against the directory of the source file. Once the file has been
/// read, the item has the annotations it had, followed by one documentation
/// annotation whose value is exactly the contents of the file, and nothing is
/// reported.
pub proof fn lemma_list_annotation_is_expanded(
    item: ItemView,
    meta: MetaItemView,
    location: SourceLocationView,
    i: int,
    contents: Seq<char>,
)
    requires
        meta.node matches MetaItemKindView::List(name, items) && name == "doc"@
            && first_str_file_key_at(items, i) && valid_path_text(
            value_of(items[i]).node->Str_0,
        ),
    ensures
        plan(meta, location.file) == StepView::Read(
            resolved_path(location.file, value_of(meta.node->List_1[i]).node->Str_0),
        ),
        expansion(item, meta, location, Ok(contents)) == (ExpansionView {
            item: documented(item, contents),
            diagnostic: None,
        }),
        documented(item, contents).attrs.take(item.attrs.len() as int) == item.attrs,
        documented(item, contents).attrs.last().value.node == MetaItemKindView::NameValue(
            "doc"@,
            LitView { node: LitKindView::Str(contents), span: Span::dummy() },
        ),
{
    lemma_recognised_names();
    lemma_first_string_key_decides(meta.node->List_1, i);
    assert(documented(item, contents).attrs.take(item.attrs.len() as int) =~= item.attrs);
}

/// A direct-shaped annotation whose value is a string literal without a NUL
/// character asks for the file at that path, resolved against the directory
/// of the source file. Once the file has been read, the item has the
/// annotations it had, followed by one documentation annotation whose value
/// is exactly the contents of the file, and nothing is reported.
pub proof fn lemma_direct_annotation_is_expanded(
    item: ItemView,
    meta: MetaItemView,
    location: SourceLocationView,
    contents: Seq<char>,
)
    requires
        meta.node matches MetaItemKindView::NameValue(name, lit) && name == "doc_file"@
            && lit.node is Str && valid_path_text(lit.node->Str_0),
    ensures
        plan(meta, location.file) == StepView::Read(
            resolved_path(location.file, value_of(meta).node->Str_0),
        ),
        expansion(item, meta, location, Ok(contents)) == (ExpansionView {
            item: documented(item, contents),
            diagnostic: None,
        }),
        documented(item, contents).attrs.take(item.attrs.len() as int) == item.attrs,
        documented(item, contents).attrs.last().value.node == MetaItemKindView::NameValue(
            "doc"@,
            LitView { node: LitKindView::Str(contents), span: Span::dummy() },
        ),
{
    lemma_recognised_names();
    assert(documented(item, contents).attrs.take(item.attrs.len() as int) =~= item.attrs);
}

/// A list-shaped annotation without a `file` key leaves the item as it is,
/// whatever other keys it holds: nothing is read, nothing is added and
/// nothing is reported. So does an annotation of that name that is no list.
pub proof fn lemma_list_without_file_key_is_ignored(
    item: ItemView,
    meta: MetaItemView,
    location: SourceLocationView,
    outcome: Result<Seq<char>, IoFailureView>,
)
    requires
        meta.name() == "doc"@,
        meta.node matches MetaItemKindView::List(_, items) ==> forall|j: int|
            0 <= j < items.len() ==> !is_file_key(#[trigger] items[j]),
    ensures
        plan(meta, location.file) == StepView::Skip,
        expansion(item, meta, location, outcome) == (ExpansionView { item, diagnostic: None }),
{
    lemma_recognised_names();
    if let MetaItemKindView::List(_, items) = meta.node {
        lemma_no_key_is_a_no_op(items);
    }
}

/// A list-shaped annotation in which no `file` key has a string literal, and
/// whose first `file` key stands at `i`, leaves the item as it is and gives
/// one syntax diagnostic, which points at the literal of that key.
pub proof fn lemma_list_value_must_be_a_string(
    item: ItemView,
    meta: MetaItemView,
    location: SourceLocationView,
    i: int,
    outcome: Result<Seq<char>, IoFailureView>,
)
    requires
        meta.node matches MetaItemKindView::List(name, items) && name == "doc"@
            && first_file_key_at(items, i) && forall|j: int|
            0 <= j < items.len() ==> !is_str_file_key(#[trigger] items[j]),
    ensures
        expansion(item, meta, location, outcome) == (ExpansionView {
            item,
            diagnostic: Some(
                DiagnosticView {
                    kind: ErrorKind::Syntax,
                    span: value_of(meta.node->List_1[i]).span,
                    message: syntax_message(),
                },
            ),
        }),
{
    lemma_recognised_names();
    lemma_no_string_key_is_a_syntax_error(meta.node->List_1, i);
}

/// A direct-shaped annotation whose value is a literal other than a string
/// leaves the item as it is and gives one syntax diagnostic, which points at
/// that literal.
pub proof fn lemma_direct_value_must_be_a_string(
    item: ItemView,
    meta: MetaItemView,
    location: SourceLocationView,
    outcome: Result<Seq<char>, IoFailureView>,
)
    requires
        meta.node matches MetaItemKindView::NameValue(name, lit) && name == "doc_file"@
            && !(lit.node is Str),
    ensures
        expansion(item, meta, location, outcome) == (ExpansionView {
            item,
            diagnostic: Some(
                DiagnosticView {
                    kind: ErrorKind::Syntax,
                    span: value_of(meta).span,
                    message: syntax_message(),
                },
            ),
        }),
{
    lemma_recognised_names();
}

/// An annotation without a value, a bare word or a list, is not of the direct
/// shape even under that name: it leaves the item as it is, nothing is read
/// and nothing is reported.
pub proof fn lemma_direct_annotation_needs_a_value(
    item: ItemView,
    meta: MetaItemView,
    location: SourceLocationView,
    outcome: Result<Seq<char>, IoFailureView>,
)
    requires
        meta.name() == "doc_file"@,
        !(meta.node is NameValue),
    ensures
        plan(meta, location.file) == StepView::Skip,
        expansion(item, meta, location, outcome) == (ExpansionView { item, diagnostic: None }),
{
    lemma_recognised_names();
}

/// An annotation that names no file leaves the item as it is, whatever its
/// name: a bare word, a name/value pair under another name than that of the
/// direct shape, and a list without a `file` key. Nothing is read and nothing
/// is reported.
pub proof fn lemma_annotation_without_file_is_ignored(
    item: ItemView,
    meta: MetaItemView,
    location: SourceLocationView,
    outcome: Result<Seq<char>, IoFailureView>,
)
    requires
        match meta.node {
            MetaItemKindView::Word(_) => true,
            MetaItemKindView::NameValue(name, _) => name != "doc_file"@,
            MetaItemKindView::List(_, items) => forall|j: int|
                0 <= j < items.len() ==> !is_file_key(#[trigger] items[j]),
        },
    ensures
        extraction(meta) == Extraction::NoOp,
        plan(meta, location.file) == StepView::Skip,
        expansion(item, meta, location, outcome) == (ExpansionView { item, diagnostic: None }),
{
    lemma_recognised_names();
    if let MetaItemKindView::List(_, items) = meta.node {
        lemma_no_key_is_a_no_op(items);
    }
}

/// A list-shaped annotation whose first `file` key with a string literal
/// holds a NUL character leaves the item as it is and gives one path
/// diagnostic, which points at that literal.
pub proof fn lemma_list_path_must_hold_no_nul(
    item: ItemView,
    meta: MetaItemView,
    location: SourceLocationView,
    i: int,
    outcome: Result<Seq<char>, IoFailureView>,
)
    requires
        meta.node matches MetaItemKindView::List(name, items) && name == "doc"@
            && first_str_file_key_at(items, i) && !valid_path_text(
            value_of(items[i]).node->Str_0,
        ),
    ensures
        expansion(item, meta, location, outcome) == (ExpansionView {
            item,
            diagnostic: Some(
                DiagnosticView {
                    kind: ErrorKind::Path,
                    span: value_of(meta.node->List_1[i]).span,
                    message: path_message(),
                },
            ),
        }),
{
    lemma_recognised_names();
    lemma_first_string_key_decides(meta.node->List_1, i);
}

/// A direct-shaped annotation whose string literal holds a NUL character
/// leaves the item as it is and gives one path diagnostic, which points at
/// that literal.
pub proof fn lemma_direct_path_must_hold_no_nul(
    item: ItemView,
    meta: MetaItemView,
    location: SourceLocationView,
    outcome: Result<Seq<char>, IoFailureView>,
)
    requires
        meta.node matches MetaItemKindView::NameValue(name, lit) && name == "doc_file"@
            && lit.node is Str && !valid_path_text(lit.node->Str_0),
    ensures
        expansion(item, meta, location, outcome) == (ExpansionView {
            item,
            diagnostic: Some(
                DiagnosticView {
                    kind: ErrorKind::Path,
                    span: value_of(meta).span,
                    message: path_message(),
                },
            ),
        }),
{
    lemma_recognised_names();
}

/// Where an annotation names a path and the read of the file fails, the item
/// stays as it is and one diagnostic is given: it points at the annotation,
/// and its message ends with the cause of the failure.
pub proof fn lemma_failed_read_is_reported(
    item: ItemView,
    meta: MetaItemView,
    location: SourceLocationView,
    failure: IoFailureView,
)
    requires
        extraction(meta) is Path,
    ensures
        expansion(item, meta, location, Err(failure)) == (ExpansionView {
            item,
            diagnostic: Some(
                DiagnosticView {
                    kind: ErrorKind::Io,
                    span: location.span,
                    message: io_message_prefix() + failure.message,
                },
            ),
        }),
        (io_message_prefix() + failure.message).skip(io_message_prefix().len() as int)
            == failure.message,
{
    assert((io_message_prefix() + failure.message).skip(io_message_prefix().len() as int)
        =~= failure.message);
}

/// Expansion only ever appends: the item keeps its name, its span and the
/// annotations it had, in their order, and gains at most one annotation. It
/// gains one exactly when nothing is reported and a file was read; whenever a
/// diagnostic is given the item is as it was.
pub proof fn lemma_expansion_is_append_only(
    item: ItemView,
    meta: MetaItemView,
    location: SourceLocationView,
    outcome: Result<Seq<char>, IoFailureView>,
)
    ensures
        ({
            let out = expansion(item, meta, location, outcome);
            &&& out.item.ident == item.ident
            &&& out.item.span == item.span
            &&& out.item.attrs.len() <= item.attrs.len() + 1
            &&& out.item.attrs.take(item.attrs.len() as int) == item.attrs
            &&& out.diagnostic is Some ==> out.item == item
            &&& out.item.attrs.len() == item.attrs.len() + 1 <==> plan(meta, location.file) is Read
                && outcome is Ok
            &&& out.diagnostic is Some <==> plan(meta, location.file) is Fail || (plan(
                meta,
                location.file,
            ) is Read && outcome is Err)
        }),
{
    let out = expansion(item, meta, location, outcome);
    assert(out.item.attrs.take(item.attrs.len() as int) =~= item.attrs);
}

/// Expanding the same annotation of the same item again gives the same item
/// and the same diagnostic, as long as the file it names, if it names one,
/// reads the same.
pub proof fn lemma_expansion_is_repeatable(
    item: ItemView,
    meta: MetaItemView,
    location: SourceLocationView,
    first: Result<Seq<char>, IoFailureView>,
    second: Result<Seq<char>, IoFailureView>,
)
    requires
        plan(meta, location.file) is Read ==> first == second,
    ensures
        expansion(item, meta, location, first) == expansion(item, meta, location, second),
{
}

/// The documentation annotation that expansion adds names no file itself:
/// expanding it in turn adds nothing and reports nothing.
pub proof fn lemma_doc_attribute_is_inert(
    item: ItemView,
    text: Seq<char>,
    location: SourceLocationView,
    outcome: Result<Seq<char>, IoFailureView>,
)
    ensures
        extraction(doc_attribute(text).value) == Extraction::NoOp,
        expansion(item, doc_attribute(text).value, location, outcome) == (ExpansionView {
            item,
            diagnostic: None,
        }),
{
    lemma_recognised_names();
}

} // verus!
