//! The template-tree copy with its rename rule.
//!
//! The copy step works on an in-memory picture of the source tree: the
//! unverified shell reads the template directory into an [`FsTree`], the
//! verified [`copy_tree`] computes the tree to materialize at the target,
//! and the shell writes that tree out. Copying renames any entry bearing
//! the reserved ignore-file placeholder name `_gitignore` to the dot-prefixed
//! `.gitignore`, at every level, and silently drops entries that are neither
//! regular files nor directories.

use vstd::prelude::*;

verus! {

/// A filesystem node as the copy step sees it. `Other` stands for entries
/// that are neither regular files nor directories (symbolic links, devices).
pub enum FsTree {
    File { data: Vec<u8> },
    Dir { entries: Vec<Entry> },
    Other,
}

/// A named node inside a directory.
pub struct Entry {
    pub name: String,
    pub node: FsTree,
}

/// The mathematical picture of a node.
pub enum NodeModel {
    File { data: Seq<u8> },
    Dir { entries: Seq<EntryModel> },
    Other,
}

/// The mathematical picture of a named node.
pub struct EntryModel {
    pub name: Seq<char>,
    pub node: NodeModel,
}

/// The model of a node.
pub open spec fn node_view(t: FsTree) -> NodeModel
    decreases t,
{
    match t {
        FsTree::File { data } => NodeModel::File { data: data@ },
        FsTree::Dir { entries } => NodeModel::Dir { entries: entries_view(entries@) },
        FsTree::Other => NodeModel::Other,
    }
}

/// The models of a directory's entries, in order.
pub open spec fn entries_view(es: Seq<Entry>) -> Seq<EntryModel>
    decreases es,
{
    if es.len() == 0 {
        Seq::empty()
    } else {
        seq![EntryModel { name: es[0].name@, node: node_view(es[0].node) }] + entries_view(
            es.subrange(1, es.len() as int),
        )
    }
}

/// The name an entry is written under at the destination: the reserved
/// ignore-file placeholder becomes the conventional dot-prefixed name.
pub open spec fn dest_name_spec(name: Seq<char>) -> Seq<char> {
    if name == "_gitignore"@ {
        ".gitignore"@
    } else {
        name
    }
}

/// What the copy produces from a source node.
pub open spec fn copied(m: NodeModel) -> NodeModel
    decreases m,
{
    match m {
        NodeModel::File { data } => NodeModel::File { data },
        NodeModel::Dir { entries } => NodeModel::Dir { entries: copied_entries(entries) },
        NodeModel::Other => NodeModel::Other,
    }
}

/// What the copy produces from a directory's entries: the entries that are
/// files or directories, in their original order, each under its
/// destination name, each copied in turn.
pub open spec fn copied_entries(es: Seq<EntryModel>) -> Seq<EntryModel>
    decreases es,
{
    if es.len() == 0 {
        Seq::empty()
    } else {
        let rest = copied_entries(es.subrange(1, es.len() as int));
        if es[0].node is Other {
            rest
        } else {
            seq![EntryModel { name: dest_name_spec(es[0].name), node: copied(es[0].node) }] + rest
        }
    }
}

/// `entries_view` distributes over concatenation.
proof fn lemma_entries_view_concat(a: Seq<Entry>, b: Seq<Entry>)
    ensures
        entries_view(a + b) == entries_view(a) + entries_view(b),
    decreases a,
{
    if a.len() == 0 {
        assert(a + b =~= b);
        assert(entries_view(a) + entries_view(b) =~= entries_view(b));
    } else {
        let ab = a + b;
        assert(ab[0] == a[0]);
        assert(ab.subrange(1, ab.len() as int) =~= a.subrange(1, a.len() as int) + b);
        lemma_entries_view_concat(a.subrange(1, a.len() as int), b);
        assert(entries_view(a + b) =~= entries_view(a) + entries_view(b));
    }
}

/// `copied_entries` distributes over concatenation.
proof fn lemma_copied_entries_concat(a: Seq<EntryModel>, b: Seq<EntryModel>)
    ensures
        copied_entries(a + b) == copied_entries(a) + copied_entries(b),
    decreases a,
{
    if a.len() == 0 {
        assert(a + b =~= b);
        assert(copied_entries(a) + copied_entries(b) =~= copied_entries(b));
    } else {
        let ab = a + b;
        assert(ab[0] == a[0]);
        assert(ab.subrange(1, ab.len() as int) =~= a.subrange(1, a.len() as int) + b);
        lemma_copied_entries_concat(a.subrange(1, a.len() as int), b);
        assert(copied_entries(a + b) =~= copied_entries(a) + copied_entries(b));
    }
}

/// The model of a one-entry listing.
proof fn lemma_entries_view_single(e: Entry)
    ensures
        entries_view(seq![e]) == seq![(EntryModel { name: e.name@, node: node_view(e.node) })],
{
    let s = seq![e];
    assert(s.subrange(1, 1) =~= Seq::<Entry>::empty());
    assert(entries_view(Seq::<Entry>::empty()) == Seq::<EntryModel>::empty());
    assert(entries_view(s) =~= seq![(EntryModel { name: e.name@, node: node_view(e.node) })]);
}

/// What the copy produces from a one-entry listing.
proof fn lemma_copied_entries_single(e: EntryModel)
    ensures
        e.node is Other ==> copied_entries(seq![e]) == Seq::<EntryModel>::empty(),
        !(e.node is Other) ==> copied_entries(seq![e]) == seq![
            (EntryModel { name: dest_name_spec(e.name), node: copied(e.node) }),
        ],
{
    let s = seq![e];
    assert(s.subrange(1, 1) =~= Seq::<EntryModel>::empty());
    assert(copied_entries(Seq::<EntryModel>::empty()) == Seq::<EntryModel>::empty());
    if e.node is Other {
        assert(copied_entries(s) =~= Seq::<EntryModel>::empty());
    } else {
        assert(copied_entries(s) =~= seq![
            (EntryModel { name: dest_name_spec(e.name), node: copied(e.node) }),
        ]);
    }
}

/// Byte-for-byte copy of a file's contents.
fn clone_bytes(data: &Vec<u8>) -> (r: Vec<u8>)
    ensures
        r@ == data@,
{
    let mut r: Vec<u8> = Vec::new();
    let mut i: usize = 0;
    while i < data.len()
        invariant
            0 <= i <= data@.len(),
            r@ == data@.subrange(0, i as int),
        decreases data@.len() - i,
    {
        r.push(data[i]);
        assert(r@ =~= data@.subrange(0, i + 1));
        i = i + 1;
    }
    assert(r@ =~= data@);
    r
}

/// The destination name of an entry: `_gitignore` becomes `.gitignore`,
/// every other name is kept.
pub fn dest_name(name: &String) -> (r: String)
    ensures
        r@ == dest_name_spec(name@),
{
    let placeholder = String::from_str("_gitignore");
    if name.eq(&placeholder) {
        String::from_str(".gitignore")
    } else {
        name.clone()
    }
}

/// Computes the tree the copy materializes at the destination: the same
/// relative structure and file contents as the source, entries named with
/// the reserved ignore-file placeholder renamed to the dot-prefixed
/// ignore-file name, entries that are neither files nor directories
/// dropped.
pub fn copy_tree(src: &FsTree) -> (r: FsTree)
    ensures
        node_view(r) == copied(node_view(*src)),
    decreases *src,
{
    match src {
        FsTree::File { data } => FsTree::File { data: clone_bytes(data) },
        FsTree::Other => FsTree::Other,
        FsTree::Dir { entries } => {
            let ghost evs = entries_view(entries@);
            let mut out: Vec<Entry> = Vec::new();
            let mut j: usize = 0;
            while j < entries.len()
                invariant
                    0 <= j <= entries@.len(),
                    evs == entries_view(entries@),
                    entries_view(out@) == copied_entries(evs.take(j as int)),
                    decreases_to!(*src => entries@),
                decreases entries@.len() - j,
            {
                let ghost out0 = out@;
                proof {
                    lemma_entries_view_index(entries@, j as int);
                    assert(evs.take(j + 1) =~= evs.take(j as int) + seq![evs[j as int]]);
                    lemma_copied_entries_concat(evs.take(j as int), seq![evs[j as int]]);
                    lemma_copied_entries_single(evs[j as int]);
                }
                let e = &entries[j];
                proof {
                    assert(decreases_to!(entries@ => entries@[j as int]));
                    assert(decreases_to!(entries@[j as int] => entries@[j as int].node));
                }
                match &e.node {
                    FsTree::Other => {
                        proof {
                            assert(evs[j as int].node is Other);
                        }
                    },
                    _ => {
                        let child = copy_tree(&e.node);
                        let en = Entry { name: dest_name(&e.name), node: child };
                        proof {
                            assert(!(evs[j as int].node is Other));
                        }
                        out.push(en);
                        proof {
                            assert(out@ =~= out0 + seq![en]);
                            lemma_entries_view_concat(out0, seq![en]);
                            lemma_entries_view_single(en);
                        }
                    },
                }
                j = j + 1;
            }
            proof {
                lemma_entries_view_len(entries@);
                assert(evs.take(entries@.len() as int) =~= evs);
            }
            FsTree::Dir { entries: out }
        },
    }
}

/// `entries_view` maps each entry to its model, position by position.
pub proof fn lemma_entries_view_index(es: Seq<Entry>, i: int)
    requires
        0 <= i < es.len(),
    ensures
        entries_view(es).len() == es.len(),
        entries_view(es)[i] == (EntryModel { name: es[i].name@, node: node_view(es[i].node) }),
    decreases es,
{
    lemma_entries_view_len(es);
    if i > 0 {
        lemma_entries_view_index(es.subrange(1, es.len() as int), i - 1);
        assert(es.subrange(1, es.len() as int)[i - 1] == es[i]);
    }
}

/// `entries_view` keeps the number of entries.
pub proof fn lemma_entries_view_len(es: Seq<Entry>)
    ensures
        entries_view(es).len() == es.len(),
    decreases es,
{
    if es.len() > 0 {
        lemma_entries_view_len(es.subrange(1, es.len() as int));
    }
}

/// How many of the first `i` entries the copy keeps: those that are files
/// or directories.
pub open spec fn kept_before(es: Seq<EntryModel>, i: int) -> int
    decreases i,
{
    if i <= 0 {
        0
    } else {
        kept_before(es, i - 1) + (if es[i - 1].node is Other {
            0int
        } else {
            1int
        })
    }
}

/// Splitting off the first entry splits the count of kept entries.
proof fn lemma_kept_before_tail(es: Seq<EntryModel>, i: int)
    requires
        1 <= i <= es.len(),
    ensures
        kept_before(es, i) == (if es[0].node is Other {
            0int
        } else {
            1int
        }) + kept_before(es.subrange(1, es.len() as int), i - 1),
    decreases i,
{
    let tail = es.subrange(1, es.len() as int);
    if i == 1 {
        assert(kept_before(es, 0) == 0);
        assert(kept_before(tail, 0) == 0);
    } else {
        lemma_kept_before_tail(es, i - 1);
        assert(tail[i - 2] == es[i - 1]);
    }
}

/// Every source entry that is a file or a directory appears in the copied
/// directory, under its destination name, with its own subtree copied, at
/// the position its kept predecessors leave it: order is preserved.
pub proof fn lemma_copied_entry(es: Seq<EntryModel>, i: int)
    requires
        0 <= i < es.len(),
        !(es[i].node is Other),
    ensures
        0 <= kept_before(es, i) < copied_entries(es).len(),
        copied_entries(es)[kept_before(es, i)] == (EntryModel {
            name: dest_name_spec(es[i].name),
            node: copied(es[i].node),
        }),
    decreases es,
{
    let ce = copied_entries(es);
    let tail = es.subrange(1, es.len() as int);
    let rest = copied_entries(tail);
    if i == 0 {
        assert(ce[0] == (EntryModel { name: dest_name_spec(es[0].name), node: copied(es[0].node) }));
    } else {
        lemma_copied_entry(tail, i - 1);
        lemma_kept_before_tail(es, i);
        assert(tail[i - 1] == es[i]);
        let jr = kept_before(tail, i - 1);
        if es[0].node is Other {
            assert(ce[jr] == rest[jr]);
        } else {
            assert(ce[jr + 1] == rest[jr]);
        }
    }
}

} // verus!
