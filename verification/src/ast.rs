//! The parts of a parsed module that the annotator reads or writes, as plain values.
//!
//! Each type has a view in which strings are sequences of characters and vectors are
//! sequences; the contracts of the crate are stated over these views.

use vstd::prelude::*;
use crate::source::SourceSpan;

verus! {

/// The views of the items of a sequence, in order.
pub open spec fn views<T: View>(items: Seq<T>) -> Seq<T::V> {
    Seq::new(items.len(), |i: int| items[i]@)
}

/// The name in an opening tag. Only the part by which the element is known is kept.
#[derive(Clone, Debug, PartialEq, Eq)]
pub enum TagName {
    /// `<name>`
    Ident { name: String },
    /// `<object.name>`, of which the name after the last dot is kept
    Member { name: String },
    /// `<namespace:name>`, of which the name after the colon is kept
    Namespaced { name: String },
    /// A form of tag name that the host may add and this crate does not know.
    Unknown,
}

pub enum TagNameView {
    Ident { name: Seq<char> },
    Member { name: Seq<char> },
    Namespaced { name: Seq<char> },
    Unknown,
}

impl View for TagName {
    type V = TagNameView;

    open spec fn view(&self) -> TagNameView {
        match self {
            TagName::Ident { name } => TagNameView::Ident { name: name@ },
            TagName::Member { name } => TagNameView::Member { name: name@ },
            TagName::Namespaced { name } => TagNameView::Namespaced { name: name@ },
            TagName::Unknown => TagNameView::Unknown,
        }
    }
}

/// The name of an attribute.
#[derive(Clone, Debug, PartialEq, Eq)]
pub enum AttrName {
    /// `name`
    Ident { name: String },
    /// `namespace:name`
    Namespaced { namespace: String, name: String },
}

pub enum AttrNameView {
    Ident { name: Seq<char> },
    Namespaced { namespace: Seq<char>, name: Seq<char> },
}

impl View for AttrName {
    type V = AttrNameView;

    open spec fn view(&self) -> AttrNameView {
        match self {
            AttrName::Ident { name } => AttrNameView::Ident { name: name@ },
            AttrName::Namespaced { namespace, name } => AttrNameView::Namespaced {
                namespace: namespace@,
                name: name@,
            },
        }
    }
}

/// What an attribute is set to.
#[derive(Clone, Debug, PartialEq, Eq)]
pub enum AttrValue {
    /// `name` alone
    Absent,
    /// `name="text"`
    Str { text: String },
    /// `name={...}` or nested markup, which the annotator never looks into
    Other,
}

pub enum AttrValueView {
    Absent,
    Str { text: Seq<char> },
    Other,
}

impl View for AttrValue {
    type V = AttrValueView;

    open spec fn view(&self) -> AttrValueView {
        match self {
            AttrValue::Absent => AttrValueView::Absent,
            AttrValue::Str { text } => AttrValueView::Str { text: text@ },
            AttrValue::Other => AttrValueView::Other,
        }
    }
}

/// One entry of an opening tag's attribute list.
#[derive(Clone, Debug, PartialEq, Eq)]
pub enum Attribute {
    /// `name`, `name="text"` or `name={...}`
    Named { name: AttrName, value: AttrValue },
    /// `{...props}`
    Spread,
}

pub enum AttributeView {
    Named { name: AttrNameView, value: AttrValueView },
    Spread,
}

impl View for Attribute {
    type V = AttributeView;

    open spec fn view(&self) -> AttributeView {
        match self {
            Attribute::Named { name, value } => AttributeView::Named { name: name@, value: value@ },
            Attribute::Spread => AttributeView::Spread,
        }
    }
}

/// An opening tag: its name, its attributes in source order, and its span.
#[derive(Clone, Debug, PartialEq, Eq)]
pub struct OpeningElement {
    pub name: TagName,
    pub attrs: Vec<Attribute>,
    pub span: SourceSpan,
}

pub struct OpeningElementView {
    pub name: TagNameView,
    pub attrs: Seq<AttributeView>,
    pub span: SourceSpan,
}

impl View for OpeningElement {
    type V = OpeningElementView;

    open spec fn view(&self) -> OpeningElementView {
        OpeningElementView { name: self.name@, attrs: views(self.attrs@), span: self.span }
    }
}

/// One binding that an import declaration brings in. `local` is the name it has in the module.
#[derive(Clone, Debug, PartialEq, Eq)]
pub enum ImportSpecifier {
    /// `import { imported as local }`
    Named { local: String },
    /// `import local`
    Default { local: String },
    /// `import * as local`
    Namespace { local: String },
}

pub enum ImportSpecifierView {
    Named { local: Seq<char> },
    Default { local: Seq<char> },
    Namespace { local: Seq<char> },
}

impl View for ImportSpecifier {
    type V = ImportSpecifierView;

    open spec fn view(&self) -> ImportSpecifierView {
        match self {
            ImportSpecifier::Named { local } => ImportSpecifierView::Named { local: local@ },
            ImportSpecifier::Default { local } => ImportSpecifierView::Default { local: local@ },
            ImportSpecifier::Namespace { local } => ImportSpecifierView::Namespace {
                local: local@,
            },
        }
    }
}

impl ImportSpecifierView {
    /// The name that the binding has in the importing module.
    pub open spec fn local(self) -> Seq<char> {
        match self {
            ImportSpecifierView::Named { local } => local,
            ImportSpecifierView::Default { local } => local,
            ImportSpecifierView::Namespace { local } => local,
        }
    }
}

/// `import <specifiers> from "<source>"`
#[derive(Clone, Debug, PartialEq, Eq)]
pub struct ImportDecl {
    pub source: String,
    pub specifiers: Vec<ImportSpecifier>,
}

pub struct ImportDeclView {
    pub source: Seq<char>,
    pub specifiers: Seq<ImportSpecifierView>,
}

impl View for ImportDecl {
    type V = ImportDeclView;

    open spec fn view(&self) -> ImportDeclView {
        ImportDeclView { source: self.source@, specifiers: views(self.specifiers@) }
    }
}

} // verus!
