//! What holds of every pass, proved from the definitions that the contracts use.

use vstd::prelude::*;
use crate::ast::{ImportDeclView, OpeningElementView};
use crate::config::{PluginConfigView, SettingsView};
use crate::path::{directory_prefix, forward_slashes, trim_start_slashes};
use crate::source::{reported_path, source_text, SourceLocationView};
use crate::text::{is_lowercase, lowercase_of};
use crate::transform::{transformed, NodeView};
use crate::visitor::{candidate_name, is_marked, marker_attr, names_marker, VisitorView};

verus! {

/// Whether `decl` binds `name` locally.
pub open spec fn binds(decl: ImportDeclView, name: Seq<char>) -> bool {
    exists|k: int| 0 <= k < decl.specifiers.len() && (#[trigger] decl.specifiers[k]).local() == name
}

/// Whether `node` is an import from a tracked library that binds `name` locally.
pub open spec fn imports(settings: SettingsView, node: NodeView, name: Seq<char>) -> bool {
    node matches NodeView::Import { decl } && settings.tracks(decl.source) && binds(decl, name)
}

/// Whether one of the first `end` nodes is an import from a tracked library that binds `name`.
pub open spec fn imported_before(
    settings: SettingsView,
    nodes: Seq<NodeView>,
    end: int,
    name: Seq<char>,
) -> bool {
    exists|j: int| 0 <= j < end && j < nodes.len() && imports(settings, #[trigger] nodes[j], name)
}

/// Whether two modules have the same length and the same import declarations at the same
/// places.
pub open spec fn same_imports(a: Seq<NodeView>, b: Seq<NodeView>) -> bool {
    &&& a.len() == b.len()
    &&& forall|i: int|
        0 <= i < a.len() && ((#[trigger] a[i]) is Import || b[i] is Import) ==> a[i] == b[i]
}

/// Dropping the slashes at the start of a path leaves an end of that path.
pub proof fn lemma_trim_start_is_an_end(path: Seq<char>)
    ensures
        exists|k: int| 0 <= k <= path.len() && trim_start_slashes(path) == #[trigger] path.skip(k),
    decreases path.len(),
{
    if path.len() > 0 && path.first() == '/' {
        let rest = path.drop_first();
        lemma_trim_start_is_an_end(rest);
        let k = choose|k: int| 0 <= k <= rest.len() && trim_start_slashes(rest) == #[trigger] rest.skip(k);
        assert(rest.skip(k) == path.skip(k + 1));
    } else {
        assert(path.skip(0) == path);
    }
}

/// A reported path holds no backslash, whatever the host's file name and working directory
/// look like.
pub proof fn lemma_reported_path_has_no_backslash(
    working_directory: Option<Seq<char>>,
    file: Seq<char>,
)
    ensures
        !reported_path(working_directory, file).contains('\\'),
{
    let path = forward_slashes(file);
    let reported = reported_path(working_directory, file);
    assert forall|i: int| 0 <= i < reported.len() implies reported[i] != '\\' by {
        if working_directory is Some && directory_prefix(working_directory->0).is_prefix_of(path) {
            let tail = path.skip(directory_prefix(working_directory->0).len() as int);
            lemma_trim_start_is_an_end(tail);
            let k = choose|k: int|
                0 <= k <= tail.len() && trim_start_slashes(tail) == #[trigger] tail.skip(k);
            assert(reported[i] == tail[k + i]);
        } else {
            assert(reported[i] == path[i]);
        }
    }
}

/// An element is annotated exactly when it has a name that is not excluded and is all
/// lowercase or bound by an import, no attribute of it is called `data-source`, and its span
/// is not synthetic. The annotation is then `data-source="path:line"`, put after the
/// attributes it had; otherwise the element stays as it was.
pub proof fn lemma_annotated(visitor: VisitorView, el: OpeningElementView, at: SourceLocationView)
    ensures
        visitor.annotated(el, at) == (if candidate_name(el.name) matches Some(name)
            && !visitor.settings.excludes(name) && (is_lowercase(name)
            || visitor.ui_imports.contains(name)) && !is_marked(el.attrs)
            && !el.span.is_synthetic() {
            OpeningElementView {
                attrs: el.attrs.push(
                    marker_attr(source_text(visitor.settings.working_directory, at)),
                ),
                ..el
            }
        } else {
            el
        }),
{
}

/// A visit appends at most one attribute and touches nothing else: name and span stay, and
/// the attributes that were there stay first, in their order.
pub proof fn lemma_only_appends(visitor: VisitorView, el: OpeningElementView, at: SourceLocationView)
    ensures
        visitor.annotated(el, at).name == el.name,
        visitor.annotated(el, at).span == el.span,
        el.attrs.is_prefix_of(visitor.annotated(el, at).attrs),
        visitor.annotated(el, at).attrs.len() <= el.attrs.len() + 1,
{
}

/// An element that a visit has annotated is marked, and no state of any visitor annotates a
/// marked element: no element gets a second `data-source`.
pub proof fn lemma_marked_stays(
    first: VisitorView,
    second: VisitorView,
    el: OpeningElementView,
    at: SourceLocationView,
    at_again: SourceLocationView,
)
    requires
        is_marked(el.attrs) || first.annotation(el, at) is Some,
    ensures
        is_marked(first.annotated(el, at).attrs),
        second.annotated(first.annotated(el, at), at_again) == first.annotated(el, at),
{
    let once = first.annotated(el, at);
    if first.annotation(el, at) is Some {
        assert(names_marker(once.attrs[el.attrs.len() as int]));
    }
}

/// Visiting an element twice in the same state gives what visiting it once gives.
pub proof fn lemma_visit_idempotent(
    visitor: VisitorView,
    el: OpeningElementView,
    at: SourceLocationView,
)
    ensures
        visitor.annotated(visitor.annotated(el, at), at) == visitor.annotated(el, at),
{
    if visitor.annotation(el, at) is Some {
        lemma_marked_stays(visitor, visitor, el, at, at);
    }
}

/// An element whose span is synthetic is never annotated, whatever else holds of it.
pub proof fn lemma_synthetic_never_annotated(
    visitor: VisitorView,
    el: OpeningElementView,
    at: SourceLocationView,
)
    requires
        el.span.is_synthetic(),
    ensures
        visitor.annotated(el, at) == el,
{
}

/// An element whose name, in whatever case, equals a configured excluded name, in whatever
/// case, is never annotated: not under any working directory, not after any imports.
pub proof fn lemma_excluded_never_annotated(
    config: PluginConfigView,
    cwd: Option<Seq<char>>,
    excluded_name: Seq<char>,
    visitor: VisitorView,
    el: OpeningElementView,
    at: SourceLocationView,
)
    requires
        config.excluded matches Some(names) && names.contains(excluded_name),
        candidate_name(el.name) matches Some(name) && lowercase_of(name) == lowercase_of(
            excluded_name,
        ),
        visitor.settings == SettingsView::of(Some(config)).or_working_in(cwd),
    ensures
        visitor.annotated(el, at) == el,
{
    let names = config.excluded->0;
    let lower = names.map_values(|name: Seq<char>| lowercase_of(name));
    let k = choose|k: int| 0 <= k < names.len() && names[k] == excluded_name;
    assert(lower[k] == lowercase_of(excluded_name));
    assert(lower.contains(lowercase_of(excluded_name)));
}

/// An import declaration never takes a binding away, and leaves the settings alone.
pub proof fn lemma_bindings_grow(visitor: VisitorView, decl: ImportDeclView)
    ensures
        visitor.ui_imports.subset_of(visitor.observed(decl).ui_imports),
        visitor.observed(decl).settings == visitor.settings,
{
}

/// Through a whole pass the settings stay and the bindings only grow.
pub proof fn lemma_after_grows(visitor: VisitorView, nodes: Seq<NodeView>)
    ensures
        visitor.after(nodes).settings == visitor.settings,
        visitor.ui_imports.subset_of(visitor.after(nodes).ui_imports),
    decreases nodes.len(),
{
    if nodes.len() > 0 {
        lemma_after_grows(visitor, nodes.drop_last());
    }
}

/// At every point of a pass, a name is bound exactly if it is not excluded and an import
/// from a tracked library, among the nodes dealt with so far, binds it.
pub proof fn lemma_bound_iff_imported(settings: SettingsView, nodes: Seq<NodeView>, name: Seq<char>)
    ensures
        VisitorView::fresh(settings).after(nodes).ui_imports.contains(name) <==> !settings.excludes(
            name,
        ) && imported_before(settings, nodes, nodes.len() as int, name),
    decreases nodes.len(),
{
    let start = VisitorView::fresh(settings);
    if nodes.len() > 0 {
        let front = nodes.drop_last();
        let last = nodes.last();
        lemma_bound_iff_imported(settings, front, name);
        lemma_after_grows(start, front);
        let state = start.after(front);
        if imported_before(settings, front, front.len() as int, name) {
            let j = choose|j: int|
                0 <= j < front.len() && j < front.len() && imports(settings, #[trigger] front[j], name);
            assert(imports(settings, nodes[j], name));
        }
        if imports(settings, last, name) {
            assert(imports(settings, nodes[nodes.len() - 1], name));
        }
        if imported_before(settings, nodes, nodes.len() as int, name) {
            let j = choose|j: int|
                0 <= j < nodes.len() && j < nodes.len() && imports(settings, #[trigger] nodes[j], name);
            if j < front.len() {
                assert(imports(settings, front[j], name));
            }
        }
    }
}

/// No excluded name is ever bound.
pub proof fn lemma_bindings_never_excluded(
    settings: SettingsView,
    nodes: Seq<NodeView>,
    name: Seq<char>,
)
    requires
        settings.excludes(name),
    ensures
        !VisitorView::fresh(settings).after(nodes).ui_imports.contains(name),
{
    lemma_bound_iff_imported(settings, nodes, name);
}

/// A pass keeps the length of the module and every import declaration in its place.
pub proof fn lemma_transformed_same_imports(nodes: Seq<NodeView>, settings: SettingsView)
    ensures
        same_imports(nodes, transformed(nodes, settings)),
{
}

/// Modules with the same imports at the same places leave the visitor in the same state.
pub proof fn lemma_same_imports_same_state(visitor: VisitorView, a: Seq<NodeView>, b: Seq<NodeView>)
    requires
        same_imports(a, b),
    ensures
        visitor.after(a) == visitor.after(b),
    decreases a.len(),
{
    if a.len() > 0 {
        let last = a.len() - 1;
        assert(a[last] is Import || b[last] is Import ==> a[last] == b[last]);
        assert forall|i: int|
            0 <= i < a.drop_last().len() && ((#[trigger] a.drop_last()[i]) is Import
                || b.drop_last()[i] is Import) implies a.drop_last()[i] == b.drop_last()[i] by {
            assert(a[i] is Import || b[i] is Import ==> a[i] == b[i]);
        }
        lemma_same_imports_same_state(visitor, a.drop_last(), b.drop_last());
    }
}

/// What a pass makes of the node at `i` depends on that node and on the nodes before it,
/// not on any node after it.
pub proof fn lemma_later_nodes_do_not_matter(nodes: Seq<NodeView>, settings: SettingsView, i: int)
    requires
        0 <= i < nodes.len(),
    ensures
        transformed(nodes, settings)[i] == transformed(nodes.take(i + 1), settings)[i],
{
    assert(nodes.take(i + 1).take(i) == nodes.take(i));
}

/// The outcome for the element at `i` of a module: it is annotated exactly when it has a
/// name that is not excluded and is all lowercase or bound by an import from a tracked
/// library that stands before it, no attribute of it is called `data-source`, and its span
/// is not synthetic. An import that stands after it does not count.
pub proof fn lemma_element_outcome(nodes: Seq<NodeView>, settings: SettingsView, i: int)
    requires
        0 <= i < nodes.len(),
        nodes[i] is Element,
    ensures
        ({
            let opening = nodes[i]->opening;
            let at = nodes[i]->at;
            transformed(nodes, settings)[i] == NodeView::Element {
                opening: if candidate_name(opening.name) matches Some(name) && !settings.excludes(
                    name,
                ) && (is_lowercase(name) || imported_before(settings, nodes, i, name))
                    && !is_marked(opening.attrs) && !opening.span.is_synthetic() {
                    OpeningElementView {
                        attrs: opening.attrs.push(
                            marker_attr(source_text(settings.working_directory, at)),
                        ),
                        ..opening
                    }
                } else {
                    opening
                },
                at,
            }
        }),
{
    let opening = nodes[i]->opening;
    let at = nodes[i]->at;
    let front = nodes.take(i);
    let state = VisitorView::fresh(settings).after(front);
    lemma_after_grows(VisitorView::fresh(settings), front);
    lemma_annotated(state, opening, at);
    if candidate_name(opening.name) is Some {
        let name = candidate_name(opening.name)->0;
        lemma_bound_iff_imported(settings, front, name);
        if imported_before(settings, front, front.len() as int, name) {
            let j = choose|j: int|
                0 <= j < front.len() && j < front.len() && imports(settings, #[trigger] front[j], name);
            assert(imports(settings, nodes[j], name));
        }
        if imported_before(settings, nodes, i, name) {
            let j = choose|j: int|
                0 <= j < i && j < nodes.len() && imports(settings, #[trigger] nodes[j], name);
            assert(imports(settings, front[j], name));
        }
    }
}

/// A second pass over a module changes nothing: it gives what the first pass gave.
pub proof fn lemma_transform_idempotent(nodes: Seq<NodeView>, settings: SettingsView)
    ensures
        transformed(transformed(nodes, settings), settings) == transformed(nodes, settings),
{
    let once = transformed(nodes, settings);
    let twice = transformed(once, settings);
    let start = VisitorView::fresh(settings);
    assert forall|i: int| 0 <= i < nodes.len() implies twice[i] == once[i] by {
        lemma_transformed_same_imports(nodes, settings);
        assert forall|j: int|
            0 <= j < i && ((#[trigger] nodes.take(i)[j]) is Import
                || once.take(i)[j] is Import) implies nodes.take(i)[j] == once.take(i)[j] by {
            assert(nodes[j] is Import || once[j] is Import ==> nodes[j] == once[j]);
        }
        lemma_same_imports_same_state(start, nodes.take(i), once.take(i));
        let state = start.after(nodes.take(i));
        match nodes[i] {
            NodeView::Import { decl } => {},
            NodeView::Element { opening, at } => {
                lemma_visit_idempotent(state, opening, at);
            },
        }
    }
}

} // verus!
