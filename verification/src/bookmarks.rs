//! The bookmark tree model: a pure transform from the configured nested
//! folder/entry structure into the flat list of navigable menu nodes.
//!
//! The branching rule is deliberate: an empty folder contributes nothing, a
//! one-entry folder contributes a flat selectable leaf, and a folder of two
//! or more entries contributes a sub-group whose display name is the first
//! entry's label — that first entry is consumed as the group's title and is
//! not itself selectable.  The asymmetry is a documented quirk of the
//! configuration format and is preserved as such.

use vstd::prelude::*;

verus! {

/// One configured bookmark: a display label and the URL it navigates to.
#[derive(Debug, PartialEq, Clone)]
pub struct Entry {
    pub label: String,
    pub url: String,
}

/// One node of the materialized bookmark menu.
#[derive(Debug, PartialEq)]
pub enum MenuNode {
    /// A flat, selectable item.
    Leaf { label: String, url: String },
    /// A sub-grouping; its children are all selectable.
    Group { label: String, children: Vec<Entry> },
}

/// Mathematical model of a menu node.
#[verifier::ext_equal]
pub enum NodeModel {
    Leaf { label: String, url: String },
    Group { label: String, children: Seq<Entry> },
}

impl View for MenuNode {
    type V = NodeModel;

    open spec fn view(&self) -> NodeModel {
        match self {
            MenuNode::Leaf { label, url } => NodeModel::Leaf { label: *label, url: *url },
            MenuNode::Group { label, children } => NodeModel::Group {
                label: *label,
                children: children@,
            },
        }
    }
}

/// What a single folder contributes to the menu.
pub open spec fn node_of(f: Seq<Entry>) -> Seq<NodeModel> {
    if f.len() == 0 {
        Seq::empty()
    } else if f.len() == 1 {
        seq![NodeModel::Leaf { label: f[0].label, url: f[0].url }]
    } else {
        seq![NodeModel::Group { label: f[0].label, children: f.drop_first() }]
    }
}

/// The whole menu: folder contributions in configuration order.
pub open spec fn materialize_m(fs: Seq<Seq<Entry>>) -> Seq<NodeModel>
    decreases fs.len(),
{
    if fs.len() == 0 {
        Seq::empty()
    } else {
        node_of(fs.first()) + materialize_m(fs.drop_first())
    }
}

pub open spec fn folders_view(fs: Seq<Vec<Entry>>) -> Seq<Seq<Entry>> {
    fs.map_values(|f: Vec<Entry>| f@)
}

pub open spec fn nodes_view(ns: Seq<MenuNode>) -> Seq<NodeModel> {
    ns.map_values(|n: MenuNode| n@)
}

proof fn lemma_materialize_snoc(fs: Seq<Seq<Entry>>, f: Seq<Entry>)
    ensures
        materialize_m(fs.push(f)) == materialize_m(fs) + node_of(f),
    decreases fs.len(),
{
    if fs.len() == 0 {
        assert(fs.push(f).drop_first() =~= fs);
        assert(materialize_m(fs.push(f)) =~= materialize_m(fs) + node_of(f));
    } else {
        assert(fs.push(f).drop_first() =~= fs.drop_first().push(f));
        assert(fs.push(f).first() == fs.first());
        lemma_materialize_snoc(fs.drop_first(), f);
        assert(materialize_m(fs.push(f)) =~= materialize_m(fs) + node_of(f));
    }
}

/// Turns the configured folders into the flat menu, preserving the order of
/// folders and of entries within each folder.
pub fn materialize(folders: &Vec<Vec<Entry>>) -> (r: Vec<MenuNode>)
    ensures
        nodes_view(r@) == materialize_m(folders_view(folders@)),
{
    let ghost fv = folders_view(folders@);
    let mut r: Vec<MenuNode> = Vec::new();
    proof {
        assert(nodes_view(r@) =~= materialize_m(fv.take(0)));
    }
    let mut i: usize = 0;
    while i < folders.len()
        invariant
            0 <= i <= folders.len(),
            fv == folders_view(folders@),
            fv.len() == folders@.len(),
            nodes_view(r@) == materialize_m(fv.take(i as int)),
        decreases folders.len() - i,
    {
        let f = &folders[i];
        proof {
            assert(fv[i as int] == f@);
            assert(fv.take(i + 1) =~= fv.take(i as int).push(f@));
            lemma_materialize_snoc(fv.take(i as int), f@);
        }
        if f.len() == 0 {
            proof {
                assert(nodes_view(r@) =~= materialize_m(fv.take(i + 1)));
            }
        } else if f.len() == 1 {
            let node = MenuNode::Leaf { label: f[0].label.clone(), url: f[0].url.clone() };
            proof {
                assert(node@ == node_of(f@)[0]);
            }
            r.push(node);
            proof {
                assert(nodes_view(r@) =~= materialize_m(fv.take(i + 1)));
            }
        } else {
            let mut children: Vec<Entry> = Vec::new();
            let mut j: usize = 1;
            while j < f.len()
                invariant
                    1 <= j <= f@.len(),
                    children@ == f@.subrange(1, j as int),
                decreases f.len() - j,
            {
                children.push(Entry { label: f[j].label.clone(), url: f[j].url.clone() });
                proof {
                    assert(children@ =~= f@.subrange(1, j + 1));
                }
                j = j + 1;
            }
            proof {
                assert(children@ =~= f@.drop_first());
            }
            let node = MenuNode::Group { label: f[0].label.clone(), children };
            proof {
                assert(node@ == node_of(f@)[0]);
            }
            r.push(node);
            proof {
                assert(nodes_view(r@) =~= materialize_m(fv.take(i + 1)));
            }
        }
        i = i + 1;
    }
    proof {
        assert(fv.take(fv.len() as int) =~= fv);
    }
    r
}

} // verus!
