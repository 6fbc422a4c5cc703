use vstd::prelude::*;
use crate::span::Span;

verus! {

/// The value of a literal as it was written in the source.
#[derive(Debug, PartialEq, Eq)]
pub enum LitKind {
    /// A string literal, decoded.
    Str(String),
    /// A byte-string literal.
    Bytes(Vec<u8>),
    /// A byte literal.
    Byte(u8),
    /// A character literal.
    Char(char),
    /// An integer literal.
    Int(u64),
    /// A literal with a fractional part, kept as the digits that were written.
    Float(String),
    /// `true` or `false`.
    Bool(bool),
}

/// The mathematical value of a [`LitKind`].
pub enum LitKindView {
    Str(Seq<char>),
    Bytes(Seq<u8>),
    Byte(u8),
    Char(char),
    Int(u64),
    Float(Seq<char>),
    Bool(bool),
}

impl View for LitKind {
    type V = LitKindView;

    open spec fn view(&self) -> LitKindView {
        match *self {
            LitKind::Str(s) => LitKindView::Str(s@),
            LitKind::Bytes(b) => LitKindView::Bytes(b@),
            LitKind::Byte(b) => LitKindView::Byte(b),
            LitKind::Char(c) => LitKindView::Char(c),
            LitKind::Int(n) => LitKindView::Int(n),
            LitKind::Float(s) => LitKindView::Float(s@),
            LitKind::Bool(b) => LitKindView::Bool(b),
        }
    }
}

/// A literal together with the place where it was written.
#[derive(Debug, PartialEq, Eq)]
pub struct Lit {
    pub node: LitKind,
    pub span: Span,
}

/// The mathematical value of a [`Lit`].
pub struct LitView {
    pub node: LitKindView,
    pub span: Span,
}

impl View for Lit {
    type V = LitView;

    open spec fn view(&self) -> LitView {
        LitView { node: self.node@, span: self.span }
    }
}

/// The three forms that the content of an annotation can take.
#[derive(Debug, PartialEq, Eq)]
pub enum MetaItemKind {
    /// A bare name: `name`.
    Word(String),
    /// A name with a list of sub-items: `name(a, b = "c")`.
    List(String, Vec<MetaItem>),
    /// A name with a literal value: `name = "value"`.
    NameValue(String, Lit),
}

/// The content of an annotation, or one sub-item of a list annotation.
#[derive(Debug, PartialEq, Eq)]
pub struct MetaItem {
    pub node: MetaItemKind,
    pub span: Span,
}

/// The mathematical value of a [`MetaItemKind`].
pub enum MetaItemKindView {
    Word(Seq<char>),
    List(Seq<char>, Seq<MetaItemView>),
    NameValue(Seq<char>, LitView),
}

/// The mathematical value of a [`MetaItem`].
pub struct MetaItemView {
    pub node: MetaItemKindView,
    pub span: Span,
}

impl MetaItemView {
    /// The name that the annotation or sub-item carries, whatever its form.
    pub open spec fn name(self) -> Seq<char> {
        match self.node {
            MetaItemKindView::Word(name) => name,
            MetaItemKindView::List(name, _) => name,
            MetaItemKindView::NameValue(name, _) => name,
        }
    }
}

impl MetaItem {
    /// The mathematical value of the annotation, sub-items included.
    pub open spec fn model(&self) -> MetaItemView
        decreases self,
    {
        MetaItemView {
            node: match self.node {
                MetaItemKind::Word(name) => MetaItemKindView::Word(name@),
                MetaItemKind::List(name, items) => MetaItemKindView::List(
                    name@,
                    Seq::new(
                        items@.len(),
                        |i: int|
                            if 0 <= i < items@.len() {
                                items@[i].model()
                            } else {
                                arbitrary()
                            },
                    ),
                ),
                MetaItemKind::NameValue(name, lit) => MetaItemKindView::NameValue(name@, lit@),
            },
            span: self.span,
        }
    }
}

impl View for MetaItem {
    type V = MetaItemView;

    open spec fn view(&self) -> MetaItemView {
        self.model()
    }
}

/// The values of a sequence of sub-items, in the same order.
pub open spec fn meta_item_views(items: Seq<MetaItem>) -> Seq<MetaItemView> {
    Seq::new(items.len(), |i: int| items[i]@)
}

/// The value of a list annotation holds the values of its sub-items, in order.
pub proof fn lemma_list_view(meta: MetaItem)
    ensures
        meta.node matches MetaItemKind::List(name, items) ==> meta@.node
            == MetaItemKindView::List(name@, meta_item_views(items@)),
{
    if let MetaItemKind::List(name, items) = meta.node {
        assert(meta@.node->List_1 =~= meta_item_views(items@));
    }
}

impl MetaItem {
    /// The name that the annotation or sub-item carries, whatever its form.
    pub fn name(&self) -> (name: &str)
        ensures
            name@ == self@.name(),
    {
        match &self.node {
            MetaItemKind::Word(name) => name.as_str(),
            MetaItemKind::List(name, _) => name.as_str(),
            MetaItemKind::NameValue(name, _) => name.as_str(),
        }
    }
}

/// Where an annotation stands relative to the item it belongs to.
#[derive(Clone, Copy, Debug, PartialEq, Eq, Structural)]
pub enum AttrStyle {
    /// Written before the item: `#[..]`.
    Outer,
    /// Written inside the item: `#![..]`.
    Inner,
}

/// An annotation attached to an item.
#[derive(Debug, PartialEq, Eq)]
pub struct Attribute {
    pub style: AttrStyle,
    pub value: MetaItem,
    /// Whether the annotation was written as a documentation comment.
    pub is_sugared_doc: bool,
    pub span: Span,
}

/// The mathematical value of an [`Attribute`].
pub struct AttributeView {
    pub style: AttrStyle,
    pub value: MetaItemView,
    pub is_sugared_doc: bool,
    pub span: Span,
}

impl View for Attribute {
    type V = AttributeView;

    open spec fn view(&self) -> AttributeView {
        AttributeView {
            style: self.style,
            value: self.value@,
            is_sugared_doc: self.is_sugared_doc,
            span: self.span,
        }
    }
}

/// The values of a sequence of annotations, in the same order.
pub open spec fn attribute_views(attrs: Seq<Attribute>) -> Seq<AttributeView> {
    Seq::new(attrs.len(), |i: int| attrs[i]@)
}

/// A declared entity of the source tree, as far as annotations are concerned:
/// its name, the annotations attached to it, and where it stands.
#[derive(Debug, PartialEq, Eq)]
pub struct Item {
    pub ident: String,
    pub attrs: Vec<Attribute>,
    pub span: Span,
}

/// The mathematical value of an [`Item`].
pub struct ItemView {
    pub ident: Seq<char>,
    pub attrs: Seq<AttributeView>,
    pub span: Span,
}

impl View for Item {
    type V = ItemView;

    open spec fn view(&self) -> ItemView {
        ItemView { ident: self.ident@, attrs: attribute_views(self.attrs@), span: self.span }
    }
}

} // verus!
