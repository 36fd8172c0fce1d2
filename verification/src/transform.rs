//! One pass over one module.
//!
//! A module comes as the nodes that a depth-first walk meets, in the order in which it
//! deals with them: an import declaration when it is entered, an opening tag once what is
//! nested in the tag itself has been dealt with. Every other kind of node is of no concern
//! and is left out.

use vstd::prelude::*;
use crate::ast::{views, ImportDecl, ImportDeclView, OpeningElement, OpeningElementView};
use crate::config::{config_view, parse_config, PluginConfig, PluginConfigView, SettingsView};
use crate::source::{SourceLocation, SourceLocationView};
use crate::text::text_of;
use crate::visitor::{ReactSourceStringVisitor, VisitorView};

verus! {

/// A node that the pass deals with.
#[derive(Clone, Debug, PartialEq, Eq)]
pub enum Node {
    /// An import declaration.
    Import { decl: ImportDecl },
    /// An opening tag, with the place that the host's source map gives for the start of its
    /// span. The place is read only where the tag is annotated.
    Element { opening: OpeningElement, at: SourceLocation },
}

pub enum NodeView {
    Import { decl: ImportDeclView },
    Element { opening: OpeningElementView, at: SourceLocationView },
}

impl View for Node {
    type V = NodeView;

    open spec fn view(&self) -> NodeView {
        match self {
            Node::Import { decl } => NodeView::Import { decl: decl@ },
            Node::Element { opening, at } => NodeView::Element { opening: opening@, at: at@ },
        }
    }
}

/// A module, as the nodes of concern in visiting order.
#[derive(Clone, Debug, PartialEq, Eq)]
pub struct Program {
    pub body: Vec<Node>,
}

impl View for Program {
    type V = Seq<NodeView>;

    open spec fn view(&self) -> Seq<NodeView> {
        views(self.body@)
    }
}

/// What the host hands over along with a module.
#[derive(Clone, Debug, PartialEq, Eq)]
pub struct Metadata {
    /// The configuration, where the host gave one and it could be read.
    pub config: Option<PluginConfig>,
    /// The working directory that the host reports, if it reports one.
    pub cwd: Option<String>,
}

pub struct MetadataView {
    pub config: Option<PluginConfigView>,
    pub cwd: Option<Seq<char>>,
}

impl View for Metadata {
    type V = MetadataView;

    open spec fn view(&self) -> MetadataView {
        MetadataView { config: config_view(self.config), cwd: text_of(self.cwd) }
    }
}

impl MetadataView {
    /// The settings of a pass under this metadata: those of the configuration, with the
    /// host's working directory where the configuration names no root.
    pub open spec fn settings(self) -> SettingsView {
        SettingsView::of(self.config).or_working_in(self.cwd)
    }
}

impl VisitorView {
    /// The state after `node`.
    pub open spec fn step(self, node: NodeView) -> VisitorView {
        match node {
            NodeView::Import { decl } => self.observed(decl),
            NodeView::Element { .. } => self,
        }
    }

    /// The state after `nodes`, in order.
    pub open spec fn after(self, nodes: Seq<NodeView>) -> VisitorView
        decreases nodes.len(),
    {
        if nodes.len() == 0 {
            self
        } else {
            self.after(nodes.drop_last()).step(nodes.last())
        }
    }

    /// `node` as the visit in this state leaves it.
    pub open spec fn visited(self, node: NodeView) -> NodeView {
        match node {
            NodeView::Import { decl } => node,
            NodeView::Element { opening, at } => NodeView::Element {
                opening: self.annotated(opening, at),
                at,
            },
        }
    }
}

/// The module after one pass under `settings`: each node as its visit leaves it, in the
/// state in which the nodes before it have left the visitor.
pub open spec fn transformed(nodes: Seq<NodeView>, settings: SettingsView) -> Seq<NodeView> {
    Seq::new(
        nodes.len(),
        |i: int| VisitorView::fresh(settings).after(nodes.take(i)).visited(nodes[i]),
    )
}

/// The state after a node more is the step from the state before it.
pub proof fn lemma_after_next(visitor: VisitorView, nodes: Seq<NodeView>, i: int)
    requires
        0 <= i < nodes.len(),
    ensures
        visitor.after(nodes.take(i + 1)) == visitor.after(nodes.take(i)).step(nodes[i]),
{
    assert(nodes.take(i + 1).drop_last() == nodes.take(i));
}

/// Runs one pass over `program`: import declarations are taken note of, opening tags are
/// annotated, each in its turn. The visitor and what it has learnt end with the pass.
pub fn process_transform(program: Program, metadata: Metadata) -> (out: Program)
    ensures
        out@ == transformed(program@, metadata@.settings()),
{
    let Metadata { config, cwd } = metadata;
    let settings = parse_config(config);
    let mut visitor = ReactSourceStringVisitor::new(settings, cwd);
    let ghost start = visitor@;
    let ghost nodes = program@;
    let mut body = program.body;
    let mut i: usize = 0;
    while i < body.len()
        invariant
            i <= body@.len(),
            body@.len() == nodes.len(),
            start == VisitorView::fresh(metadata@.settings()),
            visitor@ == start.after(nodes.take(i as int)),
            forall|j: int| 0 <= j < i ==> (#[trigger] body@[j])@ == transformed(nodes, start.settings)[j],
            forall|j: int| i <= j < nodes.len() ==> (#[trigger] body@[j])@ == nodes[j],
        decreases body@.len() - i,
    {
        proof {
            lemma_after_next(start, nodes, i as int);
        }
        match &mut body[i] {
            Node::Import { decl } => {
                visitor.visit_mut_import_decl(decl);
            },
            Node::Element { opening, at } => {
                visitor.visit_mut_jsx_opening_element(opening, at);
            },
        }
        i = i + 1;
    }
    let out = Program { body };
    assert(out@ == transformed(nodes, start.settings));
    out
}

} // verus!
