//! The visitor: what it learns from import declarations, and what it does to opening tags.
//!
//! The host walks the module and resolves positions. The visitor is handed each import
//! declaration and each opening tag as plain values and decides, from its settings and the
//! imports it has seen so far, whether the tag gets a `data-source` attribute and which.

use vstd::prelude::*;
use vstd::string::StringExecFns;
use crate::ast::{
    views, AttrName, AttrNameView, AttrValue, AttrValueView, Attribute, AttributeView, ImportDecl,
    ImportDeclView, ImportSpecifier, ImportSpecifierView, OpeningElement, OpeningElementView,
    TagName, TagNameView,
};
use crate::config::{Settings, SettingsView};
use crate::name_set::NameSet;
use crate::source::{resolve, resolved, SourceLocation, SourceLocationView, SourceSpan};
use crate::text::{
    chars_of, find_first, is_lowercase, lowercased, string_of, text_eq, text_of,
};

verus! {

/// The name of the attribute that carries an element's origin.
pub open spec fn marker() -> Seq<char> {
    "data-source"@
}

/// The name by which an element is judged: the identifier, the member after the last dot,
/// or the name after the colon. A tag of unknown form has none.
pub open spec fn candidate_name(name: TagNameView) -> Option<Seq<char>> {
    match name {
        TagNameView::Ident { name } => Some(name),
        TagNameView::Member { name } => Some(name),
        TagNameView::Namespaced { name } => Some(name),
        TagNameView::Unknown => None,
    }
}

/// An attribute whose name is the plain identifier `data-source`, whatever its value.
pub open spec fn names_marker(attr: AttributeView) -> bool {
    attr matches AttributeView::Named { name: AttrNameView::Ident { name }, .. } && name
        == marker()
}

/// Whether some attribute of the list is named `data-source`.
pub open spec fn is_marked(attrs: Seq<AttributeView>) -> bool {
    exists|i: int| 0 <= i < attrs.len() && names_marker(#[trigger] attrs[i])
}

/// The attribute `data-source="value"`.
pub open spec fn marker_attr(value: Seq<char>) -> AttributeView {
    AttributeView::Named {
        name: AttrNameView::Ident { name: marker() },
        value: AttrValueView::Str { text: value },
    }
}

/// The view of an optional attribute.
pub open spec fn attr_of(attr: Option<Attribute>) -> Option<AttributeView> {
    match attr {
        Some(a) => Some(a@),
        None => None,
    }
}

/// The attribute for a span: none where the span is synthetic, else `data-source` with the
/// text that the span resolves to.
pub open spec fn made_attr(
    span: SourceSpan,
    at: SourceLocationView,
    working_directory: Option<Seq<char>>,
) -> Option<AttributeView> {
    match resolved(span, at, working_directory) {
        Some(value) => Some(marker_attr(value)),
        None => None,
    }
}

/// The state of one traversal: the settings, and the local names that imports from tracked
/// libraries have bound so far.
pub struct VisitorView {
    pub settings: SettingsView,
    pub ui_imports: Set<Seq<char>>,
}

impl VisitorView {
    /// The state at the start of a traversal: no import seen.
    pub open spec fn fresh(settings: SettingsView) -> VisitorView {
        VisitorView { settings, ui_imports: Set::empty() }
    }

    /// Whether an element called `name` may be annotated: it is not excluded, and it is all
    /// lowercase or bound by an import from a tracked library.
    pub open spec fn eligible(self, name: Seq<char>) -> bool {
        !self.settings.excludes(name) && (is_lowercase(name) || self.ui_imports.contains(name))
    }

    /// Whether the element is to be annotated as far as its name and attributes go: it has a
    /// name, the name is eligible, and no attribute is called `data-source` yet.
    pub open spec fn wants(self, el: OpeningElementView) -> bool {
        candidate_name(el.name) matches Some(name) && self.eligible(name) && !is_marked(el.attrs)
    }

    /// The attribute that the element is to get, if any, where the host places the start of
    /// its span at `at`.
    pub open spec fn annotation(self, el: OpeningElementView, at: SourceLocationView) -> Option<
        AttributeView,
    > {
        if self.wants(el) {
            made_attr(el.span, at, self.settings.working_directory)
        } else {
            None
        }
    }

    /// The element after the visit: with its annotation at the end of its attributes, or as
    /// it was.
    pub open spec fn annotated(
        self,
        el: OpeningElementView,
        at: SourceLocationView,
    ) -> OpeningElementView {
        match self.annotation(el, at) {
            Some(attr) => OpeningElementView { attrs: el.attrs.push(attr), ..el },
            None => el,
        }
    }

    /// The local names among `specifiers` that are not excluded.
    pub open spec fn admitted(self, specifiers: Seq<ImportSpecifierView>) -> Set<Seq<char>> {
        Set::new(
            |name: Seq<char>|
                !self.settings.excludes(name) && exists|i: int|
                    0 <= i < specifiers.len() && (#[trigger] specifiers[i]).local() == name,
        )
    }

    /// The state after an import declaration: where its source is tracked, the local names
    /// it binds are added, but for the excluded ones. Nothing is ever taken away.
    pub open spec fn observed(self, decl: ImportDeclView) -> VisitorView {
        if self.settings.tracks(decl.source) {
            VisitorView {
                ui_imports: self.ui_imports.union(self.admitted(decl.specifiers)),
                ..self
            }
        } else {
            self
        }
    }
}

/// The visitor of one traversal of one module.
pub struct ReactSourceStringVisitor {
    settings: Settings,
    ui_imports: NameSet,
}

impl View for ReactSourceStringVisitor {
    type V = VisitorView;

    closed spec fn view(&self) -> VisitorView {
        VisitorView { settings: self.settings@, ui_imports: self.ui_imports@ }
    }
}

impl ReactSourceStringVisitor {
    /// A visitor that has seen no import. `cwd` is the working directory that the host
    /// reports; it is used where the settings name none, unless it is empty.
    pub fn new(settings: Settings, cwd: Option<String>) -> (visitor: Self)
        ensures
            visitor@ == VisitorView::fresh(settings@.or_working_in(text_of(cwd))),
    {
        ReactSourceStringVisitor { settings: settings.or_working_in(cwd), ui_imports: NameSet::new() }
    }

    /// The settings that the visitor goes by.
    pub fn settings(&self) -> (settings: &Settings)
        ensures
            settings@ == self@.settings,
    {
        &self.settings
    }

    /// The local names bound so far by imports from tracked libraries.
    pub fn ui_imports(&self) -> (names: &NameSet)
        ensures
            names@ == self@.ui_imports,
    {
        &self.ui_imports
    }

    /// The name by which an element with the tag name `name` is judged, if it has one.
    pub fn jsx_element_name_str(name: &TagName) -> (candidate: Option<String>)
        ensures
            text_of(candidate) == candidate_name(name@),
    {
        match name {
            TagName::Ident { name } => Some(name.clone()),
            TagName::Member { name } => Some(name.clone()),
            TagName::Namespaced { name } => Some(name.clone()),
            TagName::Unknown => None,
        }
    }

    /// Whether one of `attrs` is named `data-source`. A spread, or a name with a namespace,
    /// never counts.
    pub fn has_data_source(attrs: &Vec<Attribute>) -> (marked: bool)
        ensures
            marked == is_marked(views(attrs@)),
    {
        let mut i: usize = 0;
        while i < attrs.len()
            invariant
                i <= attrs@.len(),
                forall|j: int| 0 <= j < i ==> !names_marker(#[trigger] views(attrs@)[j]),
            decreases attrs@.len() - i,
        {
            match &attrs[i] {
                Attribute::Named { name: AttrName::Ident { name }, .. } => {
                    if text_eq(name.as_str(), "data-source") {
                        assert(names_marker(views(attrs@)[i as int]));
                        return true;
                    }
                },
                _ => {},
            }
            i = i + 1;
        }
        false
    }

    /// The attribute for an element whose span is `span`, where the host places the start of
    /// the span at `at`: none for a synthetic span, else `data-source="path:line"`.
    pub fn make_data_source_attr(&self, span: SourceSpan, at: &SourceLocation) -> (attr: Option<
        Attribute,
    >)
        ensures
            attr_of(attr) == made_attr(span, at@, self@.settings.working_directory),
    {
        match resolve(span, at, self.settings.working_directory()) {
            Some(text) => Some(
                Attribute::Named {
                    name: AttrName::Ident { name: String::from_str("data-source") },
                    value: AttrValue::Str { text },
                },
            ),
            None => None,
        }
    }

    /// Takes note of an import declaration. Where its source is a tracked library, or begins
    /// with one followed by a slash, every local name it binds is recorded, but for those
    /// whose lowercase form is excluded.
    pub fn visit_mut_import_decl(&mut self, decl: &ImportDecl)
        ensures
            final(self)@ == old(self)@.observed(decl@),
    {
        let source = decl.source.as_str();
        let mut in_libs = self.settings.libraries().contains(source);
        if !in_libs {
            let chars = chars_of(source);
            let end = find_first(&chars, '/');
            let segment = string_of(&chars, 0, end);
            in_libs = self.settings.libraries().contains(segment.as_str());
        }
        if !in_libs {
            return;
        }
        let ghost before = self@;
        let ghost all = views(decl.specifiers@);
        let mut i: usize = 0;
        while i < decl.specifiers.len()
            invariant
                i <= decl.specifiers@.len(),
                all == views(decl.specifiers@),
                self@.settings == before.settings,
                self@.ui_imports == before.ui_imports.union(before.admitted(all.take(i as int))),
            decreases decl.specifiers@.len() - i,
        {
            let local = match &decl.specifiers[i] {
                ImportSpecifier::Named { local } => local,
                ImportSpecifier::Default { local } => local,
                ImportSpecifier::Namespace { local } => local,
            };
            assert(all[i as int].local() == local@);
            let lower = lowercased(local.as_str());
            if !self.settings.excluded().contains(lower.as_str()) {
                self.ui_imports.insert(local.clone());
            }
            proof {
                let seen = all.take(i as int);
                let next = all.take(i + 1);
                assert(next == seen.push(all[i as int]));
                assert(self@.ui_imports =~= before.ui_imports.union(before.admitted(next))) by {
                    assert forall|name: Seq<char>|
                        before.admitted(next).contains(name) == (before.admitted(seen).contains(
                            name,
                        ) || (name == local@ && !before.settings.excludes(name))) by {
                        if before.admitted(seen).contains(name) {
                            let j = choose|j: int|
                                0 <= j < seen.len() && (#[trigger] seen[j]).local() == name;
                            assert(next[j].local() == name);
                        }
                        if name == local@ && !before.settings.excludes(name) {
                            assert(next[i as int].local() == name);
                        }
                        if before.admitted(next).contains(name) {
                            let j = choose|j: int|
                                0 <= j < next.len() && (#[trigger] next[j]).local() == name;
                            if j < i {
                                assert(seen[j].local() == name);
                            }
                        }
                    }
                }
            }
            i = i + 1;
        }
        assert(all.take(i as int) == all);
    }

    /// Whether the element is to be annotated, so that the place of its span must be asked
    /// of the host: its name and attributes allow it, and its span is not synthetic.
    pub fn needs_location(&self, el: &OpeningElement) -> (needed: bool)
        ensures
            needed == (self@.wants(el@) && !el.span.is_synthetic()),
    {
        self.wants(el) && !el.span.is_dummy()
    }

    /// Whether name and attributes of the element allow an annotation.
    fn wants(&self, el: &OpeningElement) -> (wanted: bool)
        ensures
            wanted == self@.wants(el@),
    {
        let element_name = match Self::jsx_element_name_str(&el.name) {
            Some(name) => name,
            None => {
                return false;
            },
        };
        let name_lower = lowercased(element_name.as_str());
        if self.settings.excluded().contains(name_lower.as_str()) {
            return false;
        }
        let is_lowercase = text_eq(element_name.as_str(), name_lower.as_str());
        let is_ui_import = self.ui_imports.contains(element_name.as_str());
        if !is_lowercase && !is_ui_import {
            return false;
        }
        !Self::has_data_source(&el.attrs)
    }

    /// The attribute that the element is to get, if any, where the host places the start of
    /// its span at `at`. `at` is read only where `needs_location` holds.
    pub fn annotation(&self, el: &OpeningElement, at: &SourceLocation) -> (attr: Option<Attribute>)
        ensures
            attr_of(attr) == self@.annotation(el@, at@),
            attr is Some <==> self@.wants(el@) && !el.span.is_synthetic(),
    {
        if self.wants(el) {
            self.make_data_source_attr(el.span, at)
        } else {
            None
        }
    }

    /// Visits an opening tag: appends its annotation, if it is to get one, and leaves it as
    /// it is otherwise. Name, span and the attributes it had stay as they were.
    pub fn visit_mut_jsx_opening_element(&self, el: &mut OpeningElement, at: &SourceLocation)
        ensures
            final(el)@ == self@.annotated(old(el)@, at@),
            final(el).name == old(el).name,
            final(el).span == old(el).span,
            old(el).attrs@.is_prefix_of(final(el).attrs@),
    {
        if let Some(attr) = self.annotation(el, at) {
            let ghost before = views(el.attrs@);
            el.attrs.push(attr);
            assert(views(el.attrs@) == before.push(attr@));
        }
    }
}

} // verus!
