//! Menu nodes: the description of one native menu, as plain data.
//!
//! A [`MenuNode`] is what the builders hand out and what the host toolkit is
//! asked to show. [`NodeModel`] is its mathematical counterpart, over which
//! the contracts of this crate are stated.

use vstd::prelude::*;
use vstd::string::StringExecFns;

verus! {

/// One node of a native menu.
#[derive(Debug, PartialEq, Eq)]
pub enum MenuNode {
    /// A plain item. A click on it is reported under `id`.
    Item { id: String, label: String, accelerator: Option<String>, enabled: bool },
    /// An item with a check mark. A click on it is reported under `id`.
    CheckableItem { id: String, label: String, checked: bool, enabled: bool },
    /// A separator line.
    Separator,
    /// A nested menu. The order of `children` is the order on screen.
    Submenu { label: String, children: Vec<MenuNode> },
}

/// The model of a [`MenuNode`]: the same tree over character sequences.
pub enum NodeModel {
    Item { id: Seq<char>, label: Seq<char>, accelerator: Option<Seq<char>>, enabled: bool },
    CheckableItem { id: Seq<char>, label: Seq<char>, checked: bool, enabled: bool },
    Separator,
    Submenu { label: Seq<char>, children: Seq<NodeModel> },
}

/// The characters of an optional string.
pub open spec fn opt_text(s: Option<String>) -> Option<Seq<char>> {
    match s {
        Some(t) => Some(t@),
        None => None,
    }
}

/// The characters of an optional string slice.
pub open spec fn opt_str(s: Option<&str>) -> Option<Seq<char>> {
    match s {
        Some(t) => Some(t@),
        None => None,
    }
}

/// The characters of each string of a sequence.
pub open spec fn texts(strings: Seq<String>) -> Seq<Seq<char>> {
    Seq::new(strings.len(), |i: int| strings[i]@)
}

/// The models of a sequence of nodes, in the same order.
pub open spec fn views(nodes: Seq<MenuNode>) -> Seq<NodeModel>
    decreases nodes,
{
    Seq::new(
        nodes.len(),
        |i: int|
            if 0 <= i < nodes.len() {
                nodes[i]@
            } else {
                NodeModel::Separator
            },
    )
}

impl View for MenuNode {
    type V = NodeModel;

    open spec fn view(&self) -> NodeModel
        decreases self,
    {
        match self {
            MenuNode::Item { id, label, accelerator, enabled } => NodeModel::Item {
                id: id@,
                label: label@,
                accelerator: opt_text(*accelerator),
                enabled: *enabled,
            },
            MenuNode::CheckableItem { id, label, checked, enabled } => NodeModel::CheckableItem {
                id: id@,
                label: label@,
                checked: *checked,
                enabled: *enabled,
            },
            MenuNode::Separator => NodeModel::Separator,
            MenuNode::Submenu { label, children } => NodeModel::Submenu {
                label: label@,
                children: views(children@),
            },
        }
    }
}

impl NodeModel {
    /// An enabled plain item.
    pub open spec fn item(id: Seq<char>, label: Seq<char>, accelerator: Option<Seq<char>>) -> NodeModel {
        NodeModel::Item { id, label, accelerator, enabled: true }
    }

    /// An enabled checkable item.
    pub open spec fn check(id: Seq<char>, label: Seq<char>, checked: bool) -> NodeModel {
        NodeModel::CheckableItem { id, label, checked, enabled: true }
    }

    /// A submenu.
    pub open spec fn submenu(label: Seq<char>, children: Seq<NodeModel>) -> NodeModel {
        NodeModel::Submenu { label, children }
    }

    /// Whether a click on this node is reported under an identifier.
    pub open spec fn is_interactive(self) -> bool {
        self is Item || self is CheckableItem
    }

    /// The nodes directly below a submenu, in on-screen order; none below any
    /// other node.
    pub open spec fn children(self) -> Seq<NodeModel> {
        match self {
            NodeModel::Submenu { children, .. } => children,
            _ => Seq::empty(),
        }
    }

    /// Whether this node is a checkable item that shows its check mark.
    pub open spec fn is_checked(self) -> bool {
        match self {
            NodeModel::CheckableItem { checked, .. } => checked,
            _ => false,
        }
    }

    /// The identifiers of the interactive nodes of this subtree, in on-screen
    /// order.
    pub open spec fn ids(self) -> Seq<Seq<char>>
        decreases self, 0nat,
    {
        match self {
            NodeModel::Item { id, .. } => seq![id],
            NodeModel::CheckableItem { id, .. } => seq![id],
            NodeModel::Separator => Seq::empty(),
            NodeModel::Submenu { children, .. } => ids_upto(children, children.len()),
        }
    }
}

/// The identifiers of the first `n` nodes of `nodes` and of all that lies
/// below them, in on-screen order.
pub open spec fn ids_upto(nodes: Seq<NodeModel>, n: nat) -> Seq<Seq<char>>
    decreases nodes, n,
{
    if n == 0 || n > nodes.len() {
        Seq::empty()
    } else {
        ids_upto(nodes, (n - 1) as nat) + nodes[n - 1].ids()
    }
}

/// The identifiers of a sequence of nodes, in on-screen order.
pub open spec fn ids_of(nodes: Seq<NodeModel>) -> Seq<Seq<char>> {
    ids_upto(nodes, nodes.len())
}

impl MenuNode {
    /// An enabled item that reports clicks under `id`.
    pub fn item(id: &str, label: &str, accelerator: Option<&str>) -> (node: MenuNode)
        ensures
            node@ == NodeModel::item(id@, label@, opt_str(accelerator)),
    {
        let accelerator = match accelerator {
            Some(keys) => Some(String::from_str(keys)),
            None => None,
        };
        MenuNode::Item { id: String::from_str(id), label: String::from_str(label), accelerator, enabled: true }
    }

    /// An enabled checkable item that reports clicks under `id`.
    pub fn check(id: &str, label: &str, checked: bool) -> (node: MenuNode)
        ensures
            node@ == NodeModel::check(id@, label@, checked),
    {
        MenuNode::CheckableItem { id: String::from_str(id), label: String::from_str(label), checked, enabled: true }
    }

    /// A separator.
    pub fn separator() -> (node: MenuNode)
        ensures
            node@ == NodeModel::Separator,
    {
        MenuNode::Separator
    }

    /// A submenu that shows `children` in the order given.
    pub fn submenu(label: &str, children: Vec<MenuNode>) -> (node: MenuNode)
        ensures
            node@ == NodeModel::submenu(label@, views(children@)),
    {
        MenuNode::Submenu { label: String::from_str(label), children }
    }

    /// Appends the identifiers of this subtree to `out`, in on-screen order.
    pub fn collect_ids(&self, out: &mut Vec<String>)
        ensures
            texts(final(out)@) == texts(old(out)@) + self@.ids(),
        decreases self,
    {
        match self {
            MenuNode::Item { id, .. } => {
                out.push(id.clone());
                assert(texts(out@) =~= texts(old(out)@) + seq![id@]);
            },
            MenuNode::CheckableItem { id, .. } => {
                out.push(id.clone());
                assert(texts(out@) =~= texts(old(out)@) + seq![id@]);
            },
            MenuNode::Separator => {
                assert(texts(out@) =~= texts(old(out)@) + Seq::<Seq<char>>::empty());
            },
            MenuNode::Submenu { children, .. } => {
                collect_all_ids(children, out);
            },
        }
    }

    /// The identifiers of the interactive nodes of this subtree, in on-screen
    /// order.
    pub fn ids(&self) -> (ids: Vec<String>)
        ensures
            texts(ids@) == self@.ids(),
    {
        let mut ids: Vec<String> = Vec::new();
        self.collect_ids(&mut ids);
        assert(texts(ids@) =~= self@.ids());
        ids
    }
}

/// Appends the identifiers of `nodes` and of all that lies below them to
/// `out`, in on-screen order.
pub fn collect_all_ids(nodes: &Vec<MenuNode>, out: &mut Vec<String>)
    ensures
        texts(final(out)@) == texts(old(out)@) + ids_of(views(nodes@)),
    decreases nodes,
{
    let mut i: usize = 0;
    assert(texts(out@) =~= texts(old(out)@) + ids_upto(views(nodes@), 0));
    while i < nodes.len()
        invariant
            i <= nodes.len(),
            texts(out@) == texts(old(out)@) + ids_upto(views(nodes@), i as nat),
        decreases nodes.len() - i,
    {
        let ghost before = texts(out@);
        nodes[i].collect_ids(out);
        proof {
            let models = views(nodes@);
            assert(models[i as int] == nodes@[i as int]@);
            assert(ids_upto(models, (i + 1) as nat) == ids_upto(models, i as nat) + models[i as int].ids());
            assert(texts(out@) =~= texts(old(out)@) + ids_upto(models, (i + 1) as nat));
        }
        i += 1;
    }
}

} // verus!
