//! Differences that nobody wants to see.
use crate::differ::diffoscope::tree::{
    DiffoscopeOutput, TreeView, lemma_pushed_view, tree_view, tree_views,
};
use crate::differ::diffoscope::udiff::{
    filter_boring_udiff, filtered_udiff, parsed_hunks, unversioned_text,
};
use crate::text::{before_last, ends_with, head_before_last, replace_all, replaced, str_eq};
use vstd::prelude::*;

verus! {

/// Whether a node has something to show.
pub open spec fn shows_something(tree: TreeView) -> bool {
    (tree.unified_diff is Some && tree.unified_diff->0.len() > 0) || tree.details.len() > 0
}

/// A difference of text in which the versions are not to be seen; nothing where
/// it cannot be taken apart.
pub open spec fn shown_udiff(
    udiff: Option<Seq<char>>,
    old_version: Seq<char>,
    new_version: Seq<char>,
    shown: Seq<char>,
) -> Option<Seq<char>> {
    match udiff {
        Some(udiff) => match filtered_udiff(
            parsed_hunks(udiff, usize::BITS),
            old_version,
            new_version,
            shown,
        ) {
            Ok(text) => Some(text),
            Err(_) => None,
        },
        None => None,
    }
}

/// A node in which the versions are not to be seen, with those of its parts that
/// then have something to show.
pub open spec fn shown_detail(
    tree: TreeView,
    old_version: Seq<char>,
    new_version: Seq<char>,
    shown: Seq<char>,
) -> TreeView
    decreases tree,
{
    TreeView {
        source1: replaced(tree.source1, old_version, shown),
        source2: replaced(tree.source2, new_version, shown),
        unified_diff: shown_udiff(tree.unified_diff, old_version, new_version, shown),
        details: shown_details(tree.details, old_version, new_version, shown),
        ..tree
    }
}

/// Nodes in which the versions are not to be seen, as far as they then have
/// something to show.
pub open spec fn shown_details(
    trees: Seq<TreeView>,
    old_version: Seq<char>,
    new_version: Seq<char>,
    shown: Seq<char>,
) -> Seq<TreeView>
    decreases trees,
{
    if trees.len() == 0 {
        Seq::empty()
    } else {
        let before = shown_details(trees.drop_last(), old_version, new_version, shown);
        let last = shown_detail(trees.last(), old_version, new_version, shown);
        if shows_something(last) {
            before.push(last)
        } else {
            before
        }
    }
}

/// The views of nodes stand at the places of the nodes.
proof fn lemma_views(trees: Seq<DiffoscopeOutput>)
    ensures
        tree_views(trees).len() == trees.len(),
        forall|i: int|
            0 <= i < trees.len() ==> #[trigger] tree_views(trees)[i] == tree_view(trees[i]),
    decreases trees.len(),
{
    if trees.len() > 0 {
        lemma_views(trees.drop_last());
        assert forall|i: int| 0 <= i < trees.len() implies #[trigger] tree_views(trees)[i]
            == tree_view(trees[i]) by {
            if i < trees.len() - 1 {
                assert(tree_views(trees.drop_last())[i] == tree_view(trees.drop_last()[i]));
            }
        }
    }
}

/// A copy of remarks.
fn copy_comments(comments: &Vec<String>) -> (r: Vec<String>)
    ensures
        r@ == comments@,
{
    let mut r: Vec<String> = Vec::new();
    let mut i: usize = 0;
    while i < comments.len()
        invariant
            i <= comments.len(),
            r@ == comments@.take(i as int),
        decreases comments.len() - i,
    {
        r.push(comments[i].clone());
        assert(comments@.take(i + 1) =~= comments@.take(i as int).push(comments@[i as int]));
        i = i + 1;
    }
    assert(comments@.take(i as int) =~= comments@);
    r
}

/// A node in which the versions are not to be seen, if it then has something to
/// show.
pub fn filter_boring_detail(
    detail: &DiffoscopeOutput,
    old_version: &str,
    new_version: &str,
    display_version: &str,
) -> (r: Option<DiffoscopeOutput>)
    ensures
        ({
            let wanted = shown_detail(
                tree_view(*detail),
                old_version@,
                new_version@,
                display_version@,
            );
            match r {
                Some(tree) => shows_something(wanted) && tree_view(tree) == wanted,
                None => !shows_something(wanted),
            }
        }),
    decreases *detail,
{
    let unified_diff = match &detail.unified_diff {
        Some(udiff) => match filter_boring_udiff(
            udiff.as_str(),
            old_version,
            new_version,
            display_version,
        ) {
            Ok(text) => Some(text),
            Err(_) => None,
        },
        None => None,
    };
    let mut details: Vec<DiffoscopeOutput> = Vec::new();
    let ghost views = tree_views(detail.details@);
    proof {
        lemma_views(detail.details@);
        assert(views.take(0) =~= Seq::<TreeView>::empty());
    }
    let mut i: usize = 0;
    while i < detail.details.len()
        invariant
            i <= detail.details.len(),
            views == tree_views(detail.details@),
            views.len() == detail.details@.len(),
            forall|j: int|
                0 <= j < detail.details@.len() ==> #[trigger] views[j] == tree_view(
                    detail.details@[j],
                ),
            tree_views(details@) == shown_details(
                views.take(i as int),
                old_version@,
                new_version@,
                display_version@,
            ),
        decreases detail.details.len() - i,
    {
        proof {
            assert(views.take(i + 1).drop_last() =~= views.take(i as int));
            assert(views.take(i + 1).last() == tree_view(detail.details@[i as int]));
        }
        let ghost before = details@;
        if let Some(sub) = filter_boring_detail(
            &detail.details[i],
            old_version,
            new_version,
            display_version,
        ) {
            details.push(sub);
            proof {
                lemma_pushed_view(before, sub);
            }
        }
        i = i + 1;
    }
    assert(views.take(i as int) =~= views);
    let tree = DiffoscopeOutput {
        diffoscope_json_version: detail.diffoscope_json_version,
        source1: replace_all(detail.source1.as_str(), old_version, display_version),
        source2: replace_all(detail.source2.as_str(), new_version, display_version),
        comments: copy_comments(&detail.comments),
        unified_diff,
        details,
    };
    proof {
        lemma_views(tree.details@);
    }
    let shows = match &tree.unified_diff {
        Some(text) => !text.as_str().is_empty(),
        None => false,
    };
    if shows || tree.details.len() > 0 {
        Some(tree)
    } else {
        None
    }
}

/// Whether a name is that of a field that always differs.
pub open spec fn is_boring_field(name: Seq<char>) -> bool {
    name == "Date"@ || name == "Distribution"@ || name == "Version"@
}

/// Whether a node is left out whatever it says.
pub open spec fn is_boring(source1: Seq<char>, source2: Seq<char>) -> bool {
    ||| is_boring_field(source1) && is_boring_field(source2)
    ||| ".buildinfo"@.is_suffix_of(source1) && ".buildinfo"@.is_suffix_of(source2)
}

/// The nodes at the top that are not left out, with the versions not to be seen,
/// as far as they then have something to show.
pub open spec fn shown_top(
    trees: Seq<TreeView>,
    old_version: Seq<char>,
    new_version: Seq<char>,
    shown: Seq<char>,
) -> Seq<TreeView>
    decreases trees.len(),
{
    if trees.len() == 0 {
        Seq::empty()
    } else {
        let before = shown_top(trees.drop_last(), old_version, new_version, shown);
        let last = shown_detail(trees.last(), old_version, new_version, shown);
        if !is_boring(trees.last().source1, trees.last().source2) && shows_something(last) {
            before.push(last)
        } else {
            before
        }
    }
}

/// Whether a name is that of a field that always differs.
fn boring_field(name: &str) -> (r: bool)
    ensures
        r == is_boring_field(name@),
{
    str_eq(name, "Date") || str_eq(name, "Distribution") || str_eq(name, "Version")
}

/// Takes out of a tree what nobody wants to see: fields that always differ, build
/// information, and the versions, in place of which the new one stands without
/// its suffix.
pub fn filter_boring(
    diff: &mut DiffoscopeOutput,
    old_version: &str,
    new_version: &str,
    _old_campaign: &str,
    _new_campaign: &str,
)
    ensures
        tree_view(*final(diff)) == (TreeView {
            details: shown_top(
                tree_view(*old(diff)).details,
                old_version@,
                new_version@,
                before_last(new_version@, '~'),
            ),
            ..tree_view(*old(diff))
        }),
{
    let shown = head_before_last(new_version, '~');
    let mut details: Vec<DiffoscopeOutput> = Vec::new();
    let ghost views = tree_views(diff.details@);
    proof {
        lemma_views(diff.details@);
        assert(views.take(0) =~= Seq::<TreeView>::empty());
    }
    let mut i: usize = 0;
    while i < diff.details.len()
        invariant
            i <= diff.details.len(),
            *diff == *old(diff),
            views == tree_views(diff.details@),
            views.len() == diff.details@.len(),
            forall|j: int|
                0 <= j < diff.details@.len() ==> #[trigger] views[j] == tree_view(
                    diff.details@[j],
                ),
            shown@ == before_last(new_version@, '~'),
            tree_views(details@) == shown_top(
                views.take(i as int),
                old_version@,
                new_version@,
                shown@,
            ),
        decreases diff.details.len() - i,
    {
        let detail = &diff.details[i];
        proof {
            assert(views.take(i + 1).drop_last() =~= views.take(i as int));
            assert(views.take(i + 1).last() == tree_view(*detail));
        }
        let ghost before = details@;
        let boring = (boring_field(detail.source1.as_str()) && boring_field(
            detail.source2.as_str(),
        )) || (ends_with(detail.source1.as_str(), ".buildinfo") && ends_with(
            detail.source2.as_str(),
            ".buildinfo",
        ));
        if !boring {
            if let Some(sub) = filter_boring_detail(
                detail,
                old_version,
                new_version,
                shown.as_str(),
            ) {
                details.push(sub);
                proof {
                    lemma_pushed_view(before, sub);
                }
            }
        }
        i = i + 1;
    }
    assert(views.take(i as int) =~= views);
    diff.details = details;
}

/// Whether all nodes have something to show, those within them too.
pub open spec fn all_show(trees: Seq<TreeView>) -> bool
    decreases trees,
{
    trees.len() == 0 || (all_show(trees.drop_last()) && shows_something(trees.last()) && all_show(
        trees.last().details,
    ))
}

/// Where all nodes have something to show, each of them has, and so have all nodes
/// within it.
pub proof fn lemma_each_shows(trees: Seq<TreeView>, i: int)
    requires
        all_show(trees),
        0 <= i < trees.len(),
    ensures
        shows_something(trees[i]),
        all_show(trees[i].details),
    decreases trees.len(),
{
    if i < trees.len() - 1 {
        lemma_each_shows(trees.drop_last(), i);
    }
}

/// One more node that has something to show, with all nodes within it.
proof fn lemma_one_more_shows(trees: Seq<TreeView>, tree: TreeView)
    requires
        all_show(trees),
        shows_something(tree),
        all_show(tree.details),
    ensures
        all_show(trees.push(tree)),
{
    assert(trees.push(tree).drop_last() =~= trees);
}

/// Nodes in which the versions are not to be seen have something to show, and so
/// have all nodes within them.
proof fn lemma_shown_details_show(
    trees: Seq<TreeView>,
    old_version: Seq<char>,
    new_version: Seq<char>,
    shown: Seq<char>,
)
    ensures
        all_show(shown_details(trees, old_version, new_version, shown)),
    decreases trees,
{
    if trees.len() > 0 {
        let before = shown_details(trees.drop_last(), old_version, new_version, shown);
        let last = shown_detail(trees.last(), old_version, new_version, shown);
        lemma_shown_details_show(trees.drop_last(), old_version, new_version, shown);
        lemma_shown_details_show(trees.last().details, old_version, new_version, shown);
        if shows_something(last) {
            lemma_one_more_shows(before, last);
        }
    }
}

/// In a tree from which what nobody wants to see was taken, every node below the
/// root, at whatever depth, has something to show.
pub proof fn lemma_nothing_empty_is_left(
    trees: Seq<TreeView>,
    old_version: Seq<char>,
    new_version: Seq<char>,
    shown: Seq<char>,
)
    ensures
        all_show(shown_top(trees, old_version, new_version, shown)),
        shown_top(trees, old_version, new_version, shown).len() <= trees.len(),
    decreases trees.len(),
{
    if trees.len() > 0 {
        let before = shown_top(trees.drop_last(), old_version, new_version, shown);
        let last = shown_detail(trees.last(), old_version, new_version, shown);
        lemma_nothing_empty_is_left(trees.drop_last(), old_version, new_version, shown);
        lemma_shown_details_show(trees.last().details, old_version, new_version, shown);
        if !is_boring(trees.last().source1, trees.last().source2) && shows_something(last) {
            lemma_one_more_shows(before, last);
        }
    }
}

/// The nodes at the top are dealt with one by one, and stay in order: what is left
/// of two lists is what is left of the first, then what is left of the second.
pub proof fn lemma_top_nodes_stay_in_order(
    a: Seq<TreeView>,
    b: Seq<TreeView>,
    old_version: Seq<char>,
    new_version: Seq<char>,
    shown: Seq<char>,
)
    ensures
        shown_top(a + b, old_version, new_version, shown) == shown_top(
            a,
            old_version,
            new_version,
            shown,
        ) + shown_top(b, old_version, new_version, shown),
        shown_top(Seq::empty(), old_version, new_version, shown).len() == 0,
    decreases b.len(),
{
    if b.len() == 0 {
        assert(a + b =~= a);
        assert(shown_top(a, old_version, new_version, shown) + shown_top(
            b,
            old_version,
            new_version,
            shown,
        ) =~= shown_top(a, old_version, new_version, shown));
    } else {
        lemma_top_nodes_stay_in_order(a, b.drop_last(), old_version, new_version, shown);
        assert((a + b).drop_last() =~= a + b.drop_last());
        assert((a + b).last() == b.last());
        assert(shown_top(a + b, old_version, new_version, shown) =~= shown_top(
            a,
            old_version,
            new_version,
            shown,
        ) + shown_top(b, old_version, new_version, shown));
    }
}

/// A node at the top is left out just where it is about a field that always differs
/// or about build information, or has nothing to show; else it stays, with the
/// versions not to be seen.
pub proof fn lemma_only_boring_nodes_are_left_out(
    tree: TreeView,
    old_version: Seq<char>,
    new_version: Seq<char>,
    shown: Seq<char>,
)
    ensures
        ({
            let kept = shown_top(seq![tree], old_version, new_version, shown);
            let node = shown_detail(tree, old_version, new_version, shown);
            let fields = seq!["Date"@, "Distribution"@, "Version"@];
            let always_differs = fields.contains(tree.source1) && fields.contains(tree.source2);
            let build_information = ".buildinfo"@.is_suffix_of(tree.source1)
                && ".buildinfo"@.is_suffix_of(tree.source2);
            let empty = (node.unified_diff is None || node.unified_diff->0.len() == 0)
                && node.details.len() == 0;
            kept == if always_differs || build_information || empty {
                Seq::empty()
            } else {
                seq![node]
            }
        }),
{
    let fields = seq!["Date"@, "Distribution"@, "Version"@];
    assert(fields[0] == "Date"@ && fields[1] == "Distribution"@ && fields[2] == "Version"@);
    assert(fields.contains(tree.source1) <==> is_boring_field(tree.source1));
    assert(fields.contains(tree.source2) <==> is_boring_field(tree.source2));
    assert(seq![tree].drop_last() =~= Seq::<TreeView>::empty());
    assert(shown_top(Seq::<TreeView>::empty(), old_version, new_version, shown)
        =~= Seq::<TreeView>::empty());
    let node = shown_detail(tree, old_version, new_version, shown);
    assert(Seq::<TreeView>::empty().push(node) =~= seq![node]);
}

/// The nodes within a node are dealt with one by one, and stay in order; one is left
/// out just where it has nothing to show.
pub proof fn lemma_inner_nodes_stay_in_order(
    trees: Seq<TreeView>,
    tree: TreeView,
    old_version: Seq<char>,
    new_version: Seq<char>,
    shown: Seq<char>,
)
    ensures
        ({
            let before = shown_details(trees, old_version, new_version, shown);
            let node = shown_detail(tree, old_version, new_version, shown);
            let empty = (node.unified_diff is None || node.unified_diff->0.len() == 0)
                && node.details.len() == 0;
            shown_details(trees.push(tree), old_version, new_version, shown) == if empty {
                before
            } else {
                before.push(node)
            }
        }),
        shown_details(Seq::empty(), old_version, new_version, shown).len() == 0,
{
    assert(trees.push(tree).drop_last() =~= trees);
    assert(trees.push(tree).last() == tree);
}

/// A node keeps its version and its remarks; its names, its difference and its parts
/// are its own, with the versions not to be seen, and a difference that cannot be
/// taken apart is not shown.
pub proof fn lemma_node_shows_what_it_said(
    tree: TreeView,
    old_version: Seq<char>,
    new_version: Seq<char>,
    shown: Seq<char>,
)
    ensures
        ({
            let node = shown_detail(tree, old_version, new_version, shown);
            &&& node.version == tree.version
            &&& node.comments == tree.comments
            &&& node.source1 == replaced(tree.source1, old_version, shown)
            &&& node.source2 == replaced(tree.source2, new_version, shown)
            &&& node.details == shown_details(tree.details, old_version, new_version, shown)
            &&& tree.unified_diff is None ==> node.unified_diff is None
            &&& tree.unified_diff matches Some(udiff) ==> match parsed_hunks(udiff, usize::BITS) {
                Ok(hunks) => node.unified_diff == Some(
                    unversioned_text(hunks, old_version, new_version, shown),
                ),
                Err(_) => node.unified_diff is None,
            }
        }),
{
}

} // verus!
