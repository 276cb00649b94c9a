//! What diffoscope finds: a tree of differences.
use crate::text::{
    lemma_pieces_between_separators, lemma_pieces_of_two, opt_text, pieces, split_on, str_eq, texts,
};
use vstd::prelude::*;

verus! {

/// A node in the tree of differences.
#[derive(Debug)]
pub struct DiffoscopeOutput {
    /// Version of the format, at the root.
    pub diffoscope_json_version: Option<u8>,
    /// What is compared.
    pub source1: String,
    /// What it is compared with.
    pub source2: String,
    /// Remarks.
    pub comments: Vec<String>,
    /// The difference itself, if it is one of text.
    pub unified_diff: Option<String>,
    /// The differences in the parts.
    pub details: Vec<DiffoscopeOutput>,
}

/// A node in the tree of differences, as text.
pub struct TreeView {
    /// Version of the format, at the root.
    pub version: Option<u8>,
    /// What is compared.
    pub source1: Seq<char>,
    /// What it is compared with.
    pub source2: Seq<char>,
    /// Remarks.
    pub comments: Seq<Seq<char>>,
    /// The difference itself, if it is one of text.
    pub unified_diff: Option<Seq<char>>,
    /// The differences in the parts.
    pub details: Seq<TreeView>,
}

/// A node as text.
pub open spec fn tree_view(tree: DiffoscopeOutput) -> TreeView
    decreases tree,
{
    TreeView {
        version: tree.diffoscope_json_version,
        source1: tree.source1@,
        source2: tree.source2@,
        comments: texts(tree.comments@),
        unified_diff: opt_text(tree.unified_diff),
        details: tree_views(tree.details@),
    }
}

/// Nodes as text.
pub open spec fn tree_views(trees: Seq<DiffoscopeOutput>) -> Seq<TreeView>
    decreases trees,
{
    if trees.len() == 0 {
        Seq::empty()
    } else {
        tree_views(trees.drop_last()).push(tree_view(trees.last()))
    }
}

/// Nodes and one more, as text.
pub proof fn lemma_pushed_view(trees: Seq<DiffoscopeOutput>, tree: DiffoscopeOutput)
    ensures
        tree_views(trees.push(tree)) == tree_views(trees).push(tree_view(tree)),
{
    assert(trees.push(tree).drop_last() =~= trees);
}

/// A node with other names, as part of a tree.
pub open spec fn renamed(tree: TreeView, source1: Seq<char>, source2: Seq<char>) -> TreeView {
    TreeView { version: None, source1, source2, ..tree }
}

impl DiffoscopeOutput {
    /// Puts the difference between two packages into the tree, under their names,
    /// if there is one.
    pub fn add_pair(
        &mut self,
        old_name: &str,
        new_name: &str,
        difference: Option<DiffoscopeOutput>,
    )
        ensures
            match difference {
                None => *final(self) == *old(self),
                Some(sub) => tree_view(*final(self)) == (TreeView {
                    details: tree_view(*old(self)).details.push(
                        renamed(tree_view(sub), old_name@, new_name@),
                    ),
                    ..tree_view(*old(self))
                }),
            },
    {
        if let Some(sub) = difference {
            let mut sub = sub;
            sub.source1 = old_name.to_owned();
            sub.source2 = new_name.to_owned();
            sub.diffoscope_json_version = None;
            let ghost before = self.details@;
            self.details.push(sub);
            proof {
                lemma_pushed_view(before, sub);
            }
        }
    }
}

/// The last component of a path that is made of `parts`: the last part that is
/// neither empty nor a dot; none where there is no such part or it leads upwards.
pub open spec fn last_component(parts: Seq<Seq<char>>) -> Option<Seq<char>>
    decreases parts.len(),
{
    if parts.len() == 0 {
        None
    } else if parts.last().len() == 0 || parts.last() == "."@ {
        last_component(parts.drop_last())
    } else if parts.last() == ".."@ {
        None
    } else {
        Some(parts.last())
    }
}

/// The file name in a path.
pub fn file_name(path: &str) -> (r: Option<String>)
    ensures
        opt_text(r) == last_component(pieces(path@, '/')),
{
    let parts = split_on(path, '/');
    let ghost all = texts(parts@);
    let mut n: usize = parts.len();
    assert(all.take(n as int) =~= all);
    while n > 0
        invariant
            n <= parts.len(),
            all == texts(parts@),
            all == pieces(path@, '/'),
            last_component(all) == last_component(all.take(n as int)),
        decreases n,
    {
        let part = &parts[n - 1];
        proof {
            assert(all.take(n as int).last() == part@);
            assert(all.take(n as int).drop_last() =~= all.take(n - 1));
        }
        if part.as_str().is_empty() || str_eq(part.as_str(), ".") {
            n = n - 1;
        } else if str_eq(part.as_str(), "..") {
            return None;
        } else {
            return Some(part.clone());
        }
    }
    None
}

/// A path without its directories, where it has a file name.
pub open spec fn base_name(path: Seq<char>) -> Seq<char> {
    match last_component(pieces(path, '/')) {
        Some(name) => name,
        None => path,
    }
}

/// Takes the directories off the names of what is compared.
pub fn filter_irrelevant(diff: &mut DiffoscopeOutput)
    ensures
        tree_view(*final(diff)) == (TreeView {
            source1: base_name(old(diff).source1@),
            source2: base_name(old(diff).source2@),
            ..tree_view(*old(diff))
        }),
        final(diff).details == old(diff).details,
{
    if let Some(name) = file_name(diff.source1.as_str()) {
        diff.source1 = name;
    }
    if let Some(name) = file_name(diff.source2.as_str()) {
        diff.source2 = name;
    }
}

/// A path without its directories is what stands behind its last slash, where that
/// is a name; a slash at the end does not count, nor does a dot behind one.
pub proof fn lemma_base_name_is_the_last_name(directory: Seq<char>, name: Seq<char>)
    requires
        !name.contains('/'),
    ensures
        name.len() > 0 && name != "."@ && name != ".."@ ==> base_name(
            directory + seq!['/'] + name,
        ) == name && base_name(name) == name,
        (name.len() == 0 || name == "."@) && last_component(pieces(directory, '/')) is Some
            ==> base_name(directory + seq!['/'] + name) == base_name(directory),
        name == ".."@ ==> base_name(directory + seq!['/'] + name) == directory + seq!['/'] + name,
{
    lemma_pieces_of_two(directory, name, '/');
    lemma_pieces_between_separators(name, Seq::empty(), '/');
    reveal_strlit(".");
    reveal_strlit("..");
    assert("."@.len() == 1 && ".."@.len() == 2);
    let parts = pieces(directory + seq!['/'] + name, '/');
    assert(parts =~= pieces(directory, '/').push(name));
    assert(parts.last() == name);
    assert(parts.drop_last() =~= pieces(directory, '/'));
    assert(seq![name].last() == name);
}

/// A node that gets other names keeps all else, but for the version of the format,
/// which only the root has.
pub proof fn lemma_renamed_keeps_the_rest(tree: TreeView, source1: Seq<char>, source2: Seq<char>)
    ensures
        renamed(tree, source1, source2).source1 == source1,
        renamed(tree, source1, source2).source2 == source2,
        renamed(tree, source1, source2).comments == tree.comments,
        renamed(tree, source1, source2).unified_diff == tree.unified_diff,
        renamed(tree, source1, source2).details == tree.details,
        renamed(tree, source1, source2).version is None,
{
}

} // verus!
