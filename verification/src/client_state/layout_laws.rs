//! What exported splits say, from their ids to the tree.
use crate::api::schema::{LayoutSplit, SplitDirection};
use crate::client_state::app_state::{Direction, Node};
use crate::client_state::layout::{
    grown, is_underscore, nested, paths_parse, split_at, split_path, tree_of,
};
use crate::seqs::first_index_is;
use vstd::prelude::*;

verus! {

/// A split's id is `split_`, a number, an underscore and the way to it: `root`
/// at the root, else a digit for each turn, where one is the second half.
pub proof fn split_ids_spell_their_path(number: Seq<char>, way: Seq<char>, path: Seq<bool>)
    requires
        forall|i: int| 0 <= i < number.len() ==> #[trigger] number[i] != '_',
    ensures
        split_path("split_"@ + number + "_"@ + "root"@) == Some(Seq::<bool>::empty()),
        way.len() == path.len() && (forall|i: int|
            0 <= i < way.len() ==> #[trigger] way[i] == if path[i] {
                '1'
            } else {
                '0'
            }) ==> split_path("split_"@ + number + "_"@ + way) == Some(path),
{
    reveal_strlit("split_");
    reveal_strlit("_");
    reveal_strlit("root");
    ways_are_found(number, "root"@);
    if way.len() == path.len() && (forall|i: int|
        0 <= i < way.len() ==> #[trigger] way[i] == if path[i] {
            '1'
        } else {
            '0'
        }) {
        ways_are_found(number, way);
        if way.len() > 0 {
            assert(way[0] == if path[0] {
                '1'
            } else {
                '0'
            });
        }
        assert(way != "root"@);
        assert forall|i: int| 0 <= i < way.len() implies #[trigger] way[i] == '0' || way[i]
            == '1' by {}
        assert(way.map_values(|c: char| c == '1') =~= path);
    }
}

proof fn ways_are_found(number: Seq<char>, way: Seq<char>)
    requires
        forall|i: int| 0 <= i < number.len() ==> #[trigger] number[i] != '_',
    ensures
        ({
            let id = "split_"@ + number + "_"@ + way;
            let rest = id.skip(6);
            &&& id.len() >= 6 && id.take(6) == "split_"@
            &&& crate::seqs::first_index(rest, is_underscore()) == number.len()
            &&& number.len() < rest.len()
            &&& rest.skip((number.len() + 1) as int) == way
        }),
{
    reveal_strlit("split_");
    reveal_strlit("_");
    let id = "split_"@ + number + "_"@ + way;
    let rest = id.skip(6);
    assert(id.take(6) =~= "split_"@);
    assert(rest =~= number + "_"@ + way);
    assert forall|i: int| 0 <= i < number.len() implies !is_underscore()(#[trigger] rest[i]) by {
        assert(rest[i] == number[i]);
    }
    first_index_is(rest, is_underscore(), number.len() as int);
    assert(rest.skip((number.len() + 1) as int) =~= way);
}

/// Anything else is no path.
pub proof fn other_ids_are_no_path(id: Seq<char>)
    ensures
        id.len() < 6 ==> split_path(id) is None,
        id.len() >= 6 && id.take(6) != "split_"@ ==> split_path(id) is None,
{
}

/// A split to the right lies side by side, a split downward one above the
/// other; its share is the one that was exported. Of several splits at one
/// place the last listed counts.
pub proof fn splits_lie_as_exported(
    splits: Seq<LayoutSplit>,
    last: LayoutSplit,
    path: Seq<bool>,
)
    ensures
        ({
            let r = split_at(splits.push(last), path);
            if split_path(last.id@) == Some(path) {
                r matches Some((direction, ratio)) && ratio == last.ratio_bits && (last.direction
                    == SplitDirection::Right ==> direction == Direction::Horizontal) && (
                last.direction == SplitDirection::Down ==> direction == Direction::Vertical)
            } else {
                r == split_at(splits, path)
            }
        }),
        split_at(Seq::empty(), path) is None,
{
    assert(splits.push(last).drop_last() =~= splits);
}

/// One split of two panes: the first pane is its first half, the second its
/// second.
pub proof fn one_split_holds_two_panes(split: LayoutSplit, a: usize, b: usize)
    requires
        split_path(split.id@) == Some(Seq::<bool>::empty()),
    ensures
        tree_of(seq![split], seq![a, b]) matches Some(Node::Split {
            direction,
            ratio_bits,
            first,
            second,
        }) && *first == Node::Pane(a) && *second == Node::Pane(b) && ratio_bits == split.ratio_bits
            && (split.direction == SplitDirection::Right ==> direction == Direction::Horizontal)
            && (split.direction == SplitDirection::Down ==> direction == Direction::Vertical),
{
    let splits = seq![split];
    let none = Seq::<bool>::empty();
    let leaves = seq![a, b];
    assert(splits.drop_last() =~= Seq::<LayoutSplit>::empty());
    assert(splits.last() == split);
    reveal_with_fuel(split_at, 3);
    assert(none.push(false).len() == 1);
    assert(none.push(true).len() == 1);
    assert(split_at(splits, none.push(false)) is None);
    assert(split_at(splits, none.push(true)) is None);
    assert(paths_parse(splits));
    assert(leaves.skip(1) =~= seq![b]);
    assert(leaves.skip(1).skip(1) =~= Seq::<usize>::empty());
    assert(splits.len() + 1 == 2);
    assert(grown(splits, leaves, none.push(false), 1) == Some((Node::Pane(a), leaves.skip(1))));
    assert(grown(splits, leaves.skip(1), none.push(true), 1) == Some(
        (Node::Pane(b), leaves.skip(1).skip(1)),
    ));
}

/// Panes without a tree are put side by side, each taking half of what is
/// left, in their order.
pub proof fn loose_panes_lie_side_by_side(panes: Seq<usize>)
    requires
        panes.len() > 1,
    ensures
        nested(panes) matches Node::Split { direction, ratio_bits, first, second } && direction
            == Direction::Horizontal && ratio_bits == 0x3F00_0000 && *first == Node::Pane(panes[0])
            && *second == nested(panes.skip(1)),
        nested(seq![panes[0]]) == Node::Pane(panes[0]),
{
}

} // verus!
