//! What holds of composed views as a whole.
use crate::client_state::app_state::{AppState, WorkspaceModel};
use crate::client_state::catalog::CatalogModel;
use crate::client_state::compose::{
    composed_publics, creation_target, fleet_composition, fleet_focus, fleet_owners, fleet_tags,
    fleet_terminals, fleet_workspaces, mirror_composition, owned, scoped, workspace_models,
    Composition,
};
use crate::client_state::compose_ids::{ComposeIds, PaneSlot};
use crate::client_state::fleet_view::{
    at_index, focus_is_in_view, RemoteDescriptor, SelectionModel,
};
use crate::client_state::mirror::MirrorModel;
use crate::seqs::{any, filter_props};
use vstd::prelude::*;

verus! {

/// Each workspace stands beside its owner: it is composed under the owner's
/// public id.
pub open spec fn stand_beside(
    spaces: Seq<WorkspaceModel>,
    owners: Seq<(usize, Seq<char>)>,
) -> bool {
    &&& spaces.len() == owners.len()
    &&& forall|i: int|
        0 <= i < spaces.len() ==> (#[trigger] spaces[i]).id == scoped(owners[i].0, owners[i].1)
}

proof fn catalogs_stand_beside(slots: Seq<PaneSlot>, remote: usize, c: CatalogModel, n: int)
    ensures
        stand_beside(workspace_models(slots, remote, c, n), owned(remote, composed_publics(c, n))),
    decreases n,
{
    if n > 0 {
        catalogs_stand_beside(slots, remote, c, n - 1);
        let spaces = workspace_models(slots, remote, c, n - 1);
        let owners = owned(remote, composed_publics(c, n - 1));
        let all = workspace_models(slots, remote, c, n);
        assert forall|i: int| 0 <= i < all.len() implies (#[trigger] all[i]).id == scoped(
            owned(remote, composed_publics(c, n))[i].0,
            owned(remote, composed_publics(c, n))[i].1,
        ) by {
            if i < spaces.len() {
                assert(all[i] == spaces[i]);
                assert(spaces[i].id == scoped(owners[i].0, owners[i].1));
            }
        }
    }
}

proof fn views_stand_beside(
    slots: Seq<PaneSlot>,
    mirrors: Map<usize, MirrorModel>,
    view: Seq<RemoteDescriptor>,
)
    ensures
        stand_beside(fleet_workspaces(slots, mirrors, view), fleet_owners(mirrors, view)),
        fleet_tags(mirrors, view).len() == fleet_owners(mirrors, view).len(),
    decreases view.len(),
{
    if view.len() > 0 {
        let d = view.last();
        let rest = view.drop_last();
        views_stand_beside(slots, mirrors, rest);
        if mirrors.contains_key(d.index) {
            let c = mirrors[d.index].catalog;
            let n = c.workspaces.len() as int;
            catalogs_stand_beside(slots, d.index, c, n);
            let before = fleet_workspaces(slots, mirrors, rest);
            let added = workspace_models(slots, d.index, c, n);
            let all = fleet_workspaces(slots, mirrors, view);
            let owners = fleet_owners(mirrors, view);
            assert forall|i: int| 0 <= i < all.len() implies (#[trigger] all[i]).id == scoped(
                owners[i].0,
                owners[i].1,
            ) by {
                if i < before.len() {
                    assert(all[i] == before[i]);
                } else {
                    assert(all[i] == added[i - before.len()]);
                }
            }
        }
    }
}

/// Every workspace of a fleet's view is composed under the public id of the
/// owner recorded beside it, so what is sent for it reaches that owner.
pub proof fn owners_stand_beside_their_workspaces(
    slots: Seq<PaneSlot>,
    mirrors: Map<usize, MirrorModel>,
    descriptors: Seq<RemoteDescriptor>,
    selection: SelectionModel,
)
    ensures
        stand_beside(
            fleet_composition(slots, mirrors, descriptors, selection).workspaces,
            fleet_owners(mirrors, selection.in_view(descriptors)),
        ),
        fleet_tags(mirrors, selection.in_view(descriptors)).len() == fleet_composition(
            slots,
            mirrors,
            descriptors,
            selection,
        ).workspaces.len(),
{
    views_stand_beside(slots, mirrors, selection.in_view(descriptors));
}

/// With one remote in view, a fleet's view is that remote's own composition,
/// but for what a toast names as its context.
pub proof fn one_remote_views_are_its_mirrors(
    slots: Seq<PaneSlot>,
    mirrors: Map<usize, MirrorModel>,
    descriptors: Seq<RemoteDescriptor>,
    selection: SelectionModel,
)
    requires
        selection.in_view(descriptors).len() == 1,
        mirrors.contains_key(selection.in_view(descriptors)[0].index),
    ensures
        ({
            let remote = selection.in_view(descriptors)[0].index;
            let c = mirrors[remote].catalog;
            let fleet = fleet_composition(slots, mirrors, descriptors, selection);
            &&& fleet == (Composition {
                context: fleet.context,
                ..mirror_composition(slots, remote, c, mirrors[remote].name)
            })
            &&& fleet_owners(mirrors, selection.in_view(descriptors)) == owned(
                remote,
                composed_publics(c, c.workspaces.len() as int),
            )
        }),
{
    let view = selection.in_view(descriptors);
    let remote = view[0].index;
    let c = mirrors[remote].catalog;
    filter_props(descriptors, selection.shown());
    let focus = selection.effective_focus(descriptors);
    if focus != remote {
        assert(any(descriptors, at_index(focus)));
        let k = choose|k: int|
            0 <= k < descriptors.len() && at_index(focus)(#[trigger] descriptors[k]);
        assert(descriptors.contains(descriptors[k]));
        assert(selection.shown()(descriptors[k]));
        assert(view.contains(descriptors[k]));
    }
    assert(view.drop_last() =~= Seq::<RemoteDescriptor>::empty());
    reveal_with_fuel(fleet_workspaces, 2);
    reveal_with_fuel(fleet_owners, 2);
    reveal_with_fuel(fleet_terminals, 2);
    reveal_with_fuel(fleet_focus, 2);
    assert(fleet_workspaces(slots, mirrors, view) =~= workspace_models(
        slots,
        remote,
        c,
        c.workspaces.len() as int,
    ));
    assert(fleet_owners(mirrors, view) =~= owned(
        remote,
        composed_publics(c, c.workspaces.len() as int),
    ));
}

proof fn owners_are_in_view(
    mirrors: Map<usize, MirrorModel>,
    view: Seq<RemoteDescriptor>,
    selection: SelectionModel,
)
    requires
        forall|i: int| 0 <= i < view.len() ==> selection.shown()(#[trigger] view[i]),
    ensures
        forall|i: int|
            0 <= i < fleet_owners(mirrors, view).len() ==> selection.shows(
                (#[trigger] fleet_owners(mirrors, view)[i]).0,
            ),
    decreases view.len(),
{
    if view.len() > 0 {
        let rest = view.drop_last();
        assert forall|i: int| 0 <= i < rest.len() implies selection.shown()(#[trigger] rest[i]) by {
            assert(rest[i] == view[i]);
        }
        owners_are_in_view(mirrors, rest, selection);
        assert(selection.shown()(view.last()));
        let before = fleet_owners(mirrors, rest);
        let all = fleet_owners(mirrors, view);
        assert forall|i: int| 0 <= i < all.len() implies selection.shows((#[trigger] all[i]).0) by {
            if i < before.len() {
                assert(all[i] == before[i]);
            }
        }
    }
}

/// Nothing is created on a remote that is filtered out: the owner of the
/// active workspace is in view, and so is the remote that stands in where no
/// workspace is active.
pub proof fn creation_stays_in_view(
    mirrors: Map<usize, MirrorModel>,
    descriptors: Seq<RemoteDescriptor>,
    selection: SelectionModel,
    app: AppState,
    ids: ComposeIds,
)
    requires
        selection.in_view(descriptors).len() > 0,
        ids.owners() == fleet_owners(mirrors, selection.in_view(descriptors)),
    ensures
        selection.shows(creation_target(app, ids, selection.effective_focus(descriptors))),
{
    filter_props(descriptors, selection.shown());
    owners_are_in_view(mirrors, selection.in_view(descriptors), selection);
    focus_is_in_view(selection, descriptors);
    if let Some(ws_idx) = app.active {
        if ws_idx < ids.owners().len() {
            assert(selection.shows(
                fleet_owners(mirrors, selection.in_view(descriptors))[ws_idx as int].0,
            ));
        }
    }
}

} // verus!
