//! Rebuilding a tab's split tree from its exported form: every split names
//! its tree path, and the panes are listed as the leaves stand in order.
use crate::api::schema::{LayoutSplit, SplitDirection};
use crate::client_state::app_state::{Direction, Node};
use crate::seqs::{first_index, first_index_is};
use vstd::prelude::*;
use vstd::string::*;

verus! {

/// The text before a split's number.
pub const SPLIT_PREFIX: &'static str = "split_";

/// The path of the topmost split.
pub const ROOT_PATH: &'static str = "root";

/// The bit pattern of an even split's ratio.
pub const EVEN_RATIO_BITS: u32 = 0x3F00_0000;

pub open spec fn is_underscore() -> spec_fn(char) -> bool {
    |c: char| c == '_'
}

/// A path written as zeros and ones.
pub open spec fn bits(t: Seq<char>) -> Option<Seq<bool>> {
    if forall|i: int| 0 <= i < t.len() ==> #[trigger] t[i] == '0' || t[i] == '1' {
        Some(t.map_values(|c: char| c == '1'))
    } else {
        None
    }
}

/// The tree path in a split id: `split_`, a number, an underscore, then
/// `root` or one digit per turn.
pub open spec fn split_path(id: Seq<char>) -> Option<Seq<bool>> {
    if id.len() >= 6 && id.take(6) == SPLIT_PREFIX@ {
        let rest = id.skip(6);
        let i = first_index(rest, is_underscore());
        if i < rest.len() {
            if rest.skip(i + 1) == ROOT_PATH@ {
                Some(Seq::empty())
            } else {
                bits(rest.skip(i + 1))
            }
        } else {
            None
        }
    } else {
        None
    }
}

/// Parses the tree path out of a split id.
pub fn parse_split_path(id: &str) -> (r: Option<Vec<bool>>)
    ensures
        match r {
            Some(path) => split_path(id@) == Some(path@),
            None => split_path(id@) is None,
        },
{
    proof {
        reveal_strlit("split_");
        reveal_strlit("root");
    }
    let n: usize = id.unicode_len();
    if n < 6 {
        return None;
    }
    let head = id.substring_char(0, 6);
    assert(id@.subrange(0, 6) =~= id@.take(6));
    if !crate::text::same(head, SPLIT_PREFIX) {
        return None;
    }
    let ghost rest = id@.skip(6);
    let mut i: usize = 6;
    while i < n && id.get_char(i) != '_'
        invariant
            n == id@.len(),
            6 <= i <= n,
            rest == id@.skip(6),
            forall|j: int| 0 <= j < i - 6 ==> !is_underscore()(#[trigger] rest[j]),
        decreases n - i,
    {
        assert(rest[i - 6] == id@[i as int]);
        i = i + 1;
    }
    proof {
        if i < n {
            assert(rest[i - 6] == id@[i as int]);
        }
        first_index_is(rest, is_underscore(), i - 6);
    }
    if i == n {
        return None;
    }
    let tail = id.substring_char(i + 1, n);
    let ghost t = rest.skip(i - 6 + 1);
    assert(tail@ =~= t);
    if crate::text::same(tail, ROOT_PATH) {
        let path: Vec<bool> = Vec::new();
        assert(path@ =~= Seq::empty());
        return Some(path);
    }
    let m: usize = tail.unicode_len();
    let mut path: Vec<bool> = Vec::new();
    let mut k: usize = 0;
    while k < m
        invariant
            m == tail@.len(),
            k <= m,
            split_path(id@) == bits(tail@),
            path@.len() == k,
            forall|j: int| 0 <= j < k ==> #[trigger] tail@[j] == '0' || tail@[j] == '1',
            forall|j: int| 0 <= j < k ==> #[trigger] path@[j] == (tail@[j] == '1'),
        decreases m - k,
    {
        let c: char = tail.get_char(k);
        if c == '0' {
            path.push(false);
        } else if c == '1' {
            path.push(true);
        } else {
            assert(!(tail@[k as int] == '0' || tail@[k as int] == '1'));
            return None;
        }
        k = k + 1;
    }
    assert(path@ =~= tail@.map_values(|c: char| c == '1'));
    Some(path)
}

/// The axis of a split that puts its second half on that side.
pub open spec fn axis(d: SplitDirection) -> Direction {
    match d {
        SplitDirection::Right => Direction::Horizontal,
        SplitDirection::Down => Direction::Vertical,
    }
}

/// The split exported at a path; of several, the last one listed.
pub open spec fn split_at(splits: Seq<LayoutSplit>, path: Seq<bool>) -> Option<(Direction, u32)>
    decreases splits.len(),
{
    if splits.len() == 0 {
        None
    } else if split_path(splits.last().id@) == Some(path) {
        Some((axis(splits.last().direction), splits.last().ratio_bits))
    } else {
        split_at(splits.drop_last(), path)
    }
}

/// Every split id names a path.
pub open spec fn paths_parse(splits: Seq<LayoutSplit>) -> bool {
    forall|i: int| 0 <= i < splits.len() ==> split_path((#[trigger] splits[i]).id@) is Some
}

/// A split with its parsed path.
pub struct PlacedSplit {
    pub path: Vec<bool>,
    pub direction: Direction,
    pub ratio_bits: u32,
}

/// The placed splits stand for the exported ones.
pub open spec fn places(placed: Seq<PlacedSplit>, splits: Seq<LayoutSplit>) -> bool {
    &&& placed.len() == splits.len()
    &&& forall|i: int|
        0 <= i < splits.len() ==> split_path((#[trigger] splits[i]).id@) == Some(placed[i].path@)
            && placed[i].direction == axis(splits[i].direction) && placed[i].ratio_bits
            == splits[i].ratio_bits
}

/// Parses every split's path; one that does not parse fails all.
pub fn place_splits(splits: &Vec<LayoutSplit>) -> (r: Option<Vec<PlacedSplit>>)
    ensures
        match r {
            Some(placed) => paths_parse(splits@) && places(placed@, splits@),
            None => !paths_parse(splits@),
        },
{
    let mut out: Vec<PlacedSplit> = Vec::new();
    let mut i: usize = 0;
    while i < splits.len()
        invariant
            i <= splits@.len(),
            out@.len() == i,
            forall|j: int|
                0 <= j < i ==> split_path((#[trigger] splits@[j]).id@) == Some(out@[j].path@)
                    && out@[j].direction == axis(splits@[j].direction) && out@[j].ratio_bits
                    == splits@[j].ratio_bits,
        decreases splits@.len() - i,
    {
        match parse_split_path(splits[i].id.as_str()) {
            Some(path) => {
                let direction = match splits[i].direction {
                    SplitDirection::Right => Direction::Horizontal,
                    SplitDirection::Down => Direction::Vertical,
                };
                out.push(PlacedSplit { path, direction, ratio_bits: splits[i].ratio_bits });
            },
            None => {
                assert(split_path(splits@[i as int].id@) is None);
                return None;
            },
        }
        i = i + 1;
    }
    Some(out)
}

fn same_path(a: &Vec<bool>, b: &Vec<bool>) -> (r: bool)
    ensures
        r == (a@ == b@),
{
    if a.len() != b.len() {
        return false;
    }
    let mut i: usize = 0;
    while i < a.len()
        invariant
            a@.len() == b@.len(),
            i <= a@.len(),
            forall|j: int| 0 <= j < i ==> a@[j] == b@[j],
        decreases a@.len() - i,
    {
        if a[i] != b[i] {
            assert(a@[i as int] != b@[i as int]);
            return false;
        }
        i = i + 1;
    }
    assert(a@ =~= b@);
    true
}

proof fn split_at_from_end(splits: Seq<LayoutSplit>, path: Seq<bool>, i: int)
    requires
        0 <= i <= splits.len(),
        forall|j: int| i <= j < splits.len() ==> split_path((#[trigger] splits[j]).id@) != Some(path),
    ensures
        split_at(splits, path) == split_at(splits.take(i), path),
    decreases splits.len() - i,
{
    if i < splits.len() {
        split_at_from_end(splits, path, i + 1);
        let part = splits.take(i + 1);
        assert(part.last() == splits[i]);
        assert(part.drop_last() =~= splits.take(i));
    } else {
        assert(splits.take(i) =~= splits);
    }
}

/// Finds the split placed at a path.
fn placed_at(placed: &Vec<PlacedSplit>, path: &Vec<bool>, Ghost(splits): Ghost<Seq<LayoutSplit>>)
    -> (r: Option<(Direction, u32)>)
    requires
        places(placed@, splits),
    ensures
        r == split_at(splits, path@),
{
    let mut i: usize = placed.len();
    while i > 0
        invariant
            i <= placed@.len(),
            places(placed@, splits),
            forall|j: int|
                i <= j < splits.len() ==> split_path((#[trigger] splits[j]).id@) != Some(path@),
        decreases i,
    {
        if same_path(&placed[i - 1].path, path) {
            proof {
                split_at_from_end(splits, path@, i as int);
                let part = splits.take(i as int);
                assert(part.last() == splits[i - 1]);
                assert(split_path(splits[i - 1].id@) == Some(placed@[i - 1].path@));
            }
            return Some((placed[i - 1].direction, placed[i - 1].ratio_bits));
        }
        assert(split_path(splits[i - 1].id@) == Some(placed@[i - 1].path@));
        i = i - 1;
    }
    proof {
        split_at_from_end(splits, path@, 0);
    }
    None
}

/// The subtree at `path`, grown from the leaves in order, and the leaves it
/// did not use. Where no split stands, the next leaf does. The tree may not
/// be deeper than `budget`.
pub open spec fn grown(
    splits: Seq<LayoutSplit>,
    leaves: Seq<usize>,
    path: Seq<bool>,
    budget: nat,
) -> Option<(Node, Seq<usize>)>
    decreases budget,
{
    if budget == 0 {
        None
    } else {
        match split_at(splits, path) {
            Some((direction, ratio_bits)) => match grown(
                splits,
                leaves,
                path.push(false),
                (budget - 1) as nat,
            ) {
                Some((first, rest)) => match grown(
                    splits,
                    rest,
                    path.push(true),
                    (budget - 1) as nat,
                ) {
                    Some((second, rest)) => Some(
                        (
                            Node::Split {
                                direction,
                                ratio_bits,
                                first: Box::new(first),
                                second: Box::new(second),
                            },
                            rest,
                        ),
                    ),
                    None => None,
                },
                None => None,
            },
            None => if leaves.len() == 0 {
                None
            } else {
                Some((Node::Pane(leaves[0]), leaves.skip(1)))
            },
        }
    }
}

fn build_node(
    placed: &Vec<PlacedSplit>,
    leaves: &Vec<usize>,
    next: usize,
    path: Vec<bool>,
    budget: u128,
    Ghost(splits): Ghost<Seq<LayoutSplit>>,
) -> (r: Option<(Node, usize)>)
    requires
        places(placed@, splits),
        next <= leaves@.len(),
    ensures
        match r {
            Some((node, rest)) => rest <= leaves@.len() && grown(
                splits,
                leaves@.skip(next as int),
                path@,
                budget as nat,
            ) == Some((node, leaves@.skip(rest as int))),
            None => grown(splits, leaves@.skip(next as int), path@, budget as nat) is None,
        },
    decreases budget,
{
    if budget == 0 {
        return None;
    }
    match placed_at(placed, &path, Ghost(splits)) {
        Some((direction, ratio_bits)) => {
            let mut first_path: Vec<bool> = Vec::new();
            let mut i: usize = 0;
            while i < path.len()
                invariant
                    i <= path@.len(),
                    first_path@ == path@.take(i as int),
                decreases path@.len() - i,
            {
                first_path.push(path[i]);
                i = i + 1;
                assert(first_path@ =~= path@.take(i as int));
            }
            assert(path@.take(i as int) =~= path@);
            first_path.push(false);
            let mut second_path = path;
            second_path.push(true);
            match build_node(placed, leaves, next, first_path, budget - 1, Ghost(splits)) {
                Some((first, rest)) => match build_node(
                    placed,
                    leaves,
                    rest,
                    second_path,
                    budget - 1,
                    Ghost(splits),
                ) {
                    Some((second, rest)) => Some(
                        (
                            Node::Split {
                                direction,
                                ratio_bits,
                                first: Box::new(first),
                                second: Box::new(second),
                            },
                            rest,
                        ),
                    ),
                    None => None,
                },
                None => None,
            }
        },
        None => {
            if next < leaves.len() {
                assert(leaves@.skip(next as int).skip(1) =~= leaves@.skip(next + 1));
                Some((Node::Pane(leaves[next]), next + 1))
            } else {
                None
            }
        },
    }
}

/// The tree that splits and leaves describe, if they describe one that uses
/// every leaf.
pub open spec fn tree_of(splits: Seq<LayoutSplit>, leaves: Seq<usize>) -> Option<Node> {
    if !paths_parse(splits) {
        None
    } else {
        match grown(splits, leaves, Seq::empty(), splits.len() + 1) {
            Some((root, rest)) => if rest.len() == 0 {
                Some(root)
            } else {
                None
            },
            None => None,
        }
    }
}

/// Rebuilds the tree that splits and leaves describe.
pub fn rebuild_tree(splits: &Vec<LayoutSplit>, leaves: &Vec<usize>) -> (r: Option<Node>)
    ensures
        r == tree_of(splits@, leaves@),
{
    match place_splits(splits) {
        Some(placed) => {
            let path: Vec<bool> = Vec::new();
            assert(path@ =~= Seq::empty());
            assert(leaves@.skip(0) =~= leaves@);
            let budget: u128 = splits.len() as u128 + 1;
            match build_node(&placed, leaves, 0, path, budget, Ghost(splits@)) {
                Some((root, rest)) => {
                    if rest == leaves.len() {
                        Some(root)
                    } else {
                        None
                    }
                },
                None => None,
            }
        },
        None => None,
    }
}

/// The panes folded into nested even splits, first one first.
pub open spec fn nested(panes: Seq<usize>) -> Node
    decreases panes.len(),
{
    if panes.len() <= 1 {
        Node::Pane(panes[0])
    } else {
        Node::Split {
            direction: Direction::Horizontal,
            ratio_bits: EVEN_RATIO_BITS,
            first: Box::new(Node::Pane(panes[0])),
            second: Box::new(nested(panes.skip(1))),
        }
    }
}

/// Folds panes into nested even splits.
pub fn nest_panes(panes: &Vec<usize>) -> (r: Node)
    requires
        panes@.len() > 0,
    ensures
        r == nested(panes@),
{
    let mut i: usize = panes.len() - 1;
    let mut node = Node::Pane(panes[i]);
    assert(node == nested(panes@.skip(i as int)));
    while i > 0
        invariant
            i < panes@.len(),
            node == nested(panes@.skip(i as int)),
        decreases i,
    {
        i = i - 1;
        assert(panes@.skip(i as int).skip(1) =~= panes@.skip(i + 1));
        node = Node::Split {
            direction: Direction::Horizontal,
            ratio_bits: EVEN_RATIO_BITS,
            first: Box::new(Node::Pane(panes[i])),
            second: Box::new(node),
        };
    }
    assert(panes@.skip(0) =~= panes@);
    node
}

/// The leftmost leaf of a tree.
pub open spec fn leftmost(node: Node) -> usize
    decreases node,
{
    match node {
        Node::Pane(id) => id,
        Node::Split { first, .. } => leftmost(*first),
    }
}

/// The leftmost leaf of a tree.
pub fn leftmost_leaf(node: &Node) -> (r: usize)
    ensures
        r == leftmost(*node),
    decreases node,
{
    match node {
        Node::Pane(id) => *id,
        Node::Split { direction: _, ratio_bits: _, first, second: _ } => leftmost_leaf(first),
    }
}

/// The leaves of a tree in order.
pub open spec fn leaves_of(node: Node) -> Seq<usize>
    decreases node,
{
    match node {
        Node::Pane(id) => seq![id],
        Node::Split { first, second, .. } => leaves_of(*first) + leaves_of(*second),
    }
}

pub open spec fn height(node: Node) -> nat
    decreases node,
{
    match node {
        Node::Pane(_) => 0,
        Node::Split { first, second, .. } => 1 + if height(*first) > height(*second) {
            height(*first)
        } else {
            height(*second)
        },
    }
}

/// The subtree at a path.
pub open spec fn subtree(node: Node, path: Seq<bool>) -> Option<Node>
    decreases path.len(),
{
    if path.len() == 0 {
        Some(node)
    } else {
        match node {
            Node::Pane(_) => None,
            Node::Split { first, second, .. } => if path[0] {
                subtree(*second, path.drop_first())
            } else {
                subtree(*first, path.drop_first())
            },
        }
    }
}

/// The split of a tree at a path.
pub open spec fn split_of(node: Node, path: Seq<bool>) -> Option<(Direction, u32)> {
    match subtree(node, path) {
        Some(Node::Split { direction, ratio_bits, .. }) => Some((direction, ratio_bits)),
        _ => None,
    }
}

/// The exported splits under `base` are those of the tree, and no others.
pub open spec fn describes(splits: Seq<LayoutSplit>, node: Node, base: Seq<bool>) -> bool {
    forall|path: Seq<bool>|
        #![trigger split_of(node, path)]
        split_at(splits, base + path) == split_of(node, path)
}

/// A tree grown from leaves uses them in order, from the left.
pub proof fn grown_trees_take_leaves_in_order(
    splits: Seq<LayoutSplit>,
    leaves: Seq<usize>,
    path: Seq<bool>,
    budget: nat,
)
    ensures
        grown(splits, leaves, path, budget) matches Some((node, rest)) ==> leaves == leaves_of(node)
            + rest,
    decreases budget,
{
    if budget > 0 {
        match split_at(splits, path) {
            Some((direction, ratio_bits)) => {
                grown_trees_take_leaves_in_order(
                    splits,
                    leaves,
                    path.push(false),
                    (budget - 1) as nat,
                );
                if let Some((first, rest)) = grown(
                    splits,
                    leaves,
                    path.push(false),
                    (budget - 1) as nat,
                ) {
                    grown_trees_take_leaves_in_order(
                        splits,
                        rest,
                        path.push(true),
                        (budget - 1) as nat,
                    );
                    if let Some((second, last)) = grown(
                        splits,
                        rest,
                        path.push(true),
                        (budget - 1) as nat,
                    ) {
                        assert(leaves =~= leaves_of(first) + leaves_of(second) + last);
                    }
                }
            },
            None => {
                if leaves.len() > 0 {
                    assert(leaves =~= seq![leaves[0]] + leaves.skip(1));
                }
            },
        }
    }
}

/// A tree that was exported comes back exactly: from splits that describe it
/// and its leaves in order, the same tree is grown.
pub proof fn exported_trees_rebuild_exactly(
    splits: Seq<LayoutSplit>,
    tree: Node,
    base: Seq<bool>,
    after: Seq<usize>,
    budget: nat,
)
    requires
        describes(splits, tree, base),
        height(tree) < budget,
    ensures
        grown(splits, leaves_of(tree) + after, base, budget) == Some((tree, after)),
    decreases tree,
{
    let none = Seq::<bool>::empty();
    assert(base + none =~= base);
    assert(split_at(splits, base) == split_of(tree, none));
    match tree {
        Node::Pane(id) => {
            assert((leaves_of(tree) + after).skip(1) =~= after);
        },
        Node::Split { direction, ratio_bits, first, second } => {
            assert forall|path: Seq<bool>|
                #![trigger split_of(*first, path)]
                split_at(splits, base.push(false) + path) == split_of(*first, path) by {
                let long = seq![false] + path;
                assert(base.push(false) + path =~= base + long);
                assert(long.drop_first() =~= path);
                assert(split_of(tree, long) == split_of(*first, path));
            }
            assert forall|path: Seq<bool>|
                #![trigger split_of(*second, path)]
                split_at(splits, base.push(true) + path) == split_of(*second, path) by {
                let long = seq![true] + path;
                assert(base.push(true) + path =~= base + long);
                assert(long.drop_first() =~= path);
                assert(split_of(tree, long) == split_of(*second, path));
            }
            let more = leaves_of(*second) + after;
            exported_trees_rebuild_exactly(
                splits,
                *first,
                base.push(false),
                more,
                (budget - 1) as nat,
            );
            exported_trees_rebuild_exactly(
                splits,
                *second,
                base.push(true),
                after,
                (budget - 1) as nat,
            );
            assert(leaves_of(tree) + after =~= leaves_of(*first) + more);
        },
    }
}

/// Nested even splits keep every pane, in order.
pub proof fn nesting_keeps_every_pane(panes: Seq<usize>)
    requires
        panes.len() > 0,
    ensures
        leaves_of(nested(panes)) == panes,
        leftmost(nested(panes)) == panes[0],
    decreases panes.len(),
{
    if panes.len() == 1 {
        assert(leaves_of(nested(panes)) =~= panes);
    } else {
        nesting_keeps_every_pane(panes.skip(1));
        let first = Node::Pane(panes[0]);
        assert(leaves_of(first) =~= seq![panes[0]]);
        assert(leftmost(first) == panes[0]);
        assert(leaves_of(nested(panes)) =~= panes);
    }
}

} // verus!
