//! What each binding and each click asks of which remote, from the key or the
//! click to the method.
use crate::api::method::{MethodModel, PaneDirection};
use crate::api::schema::{SplitDirection, TabInfo};
use crate::client_state::app_state::{AppState, Binding, KeyChord, Keybinds, PrefixAction};
use crate::client_state::catalog::CatalogModel;
use crate::client_state::compose_ids::ComposeIds;
use crate::client_state::compose::tab_within;
use crate::client_state::intent::{
    is_text, modal_target, mouse_intent, owned_before, prefix_intent, shown_tab, tab_ids,
    unscoped_method, workspace_ids, MouseAction,
};
use crate::client_state::mirror::MirrorModel;
use crate::input::{KeyCode, KeyEventKind, KeyModifiers, TerminalKey};
use crate::seqs::first_index_is;
use vstd::prelude::*;

verus! {

/// The binding that an action is bound by.
pub open spec fn bound(k: Keybinds, action: PrefixAction) -> Binding {
    match action {
        PrefixAction::NewWorkspace => k.new_workspace,
        PrefixAction::CloseWorkspace => k.close_workspace,
        PrefixAction::NextWorkspace => k.next_workspace,
        PrefixAction::PreviousWorkspace => k.previous_workspace,
        PrefixAction::NewTab => k.new_tab,
        PrefixAction::NextTab => k.next_tab,
        PrefixAction::PreviousTab => k.previous_tab,
        PrefixAction::CloseTab => k.close_tab,
        PrefixAction::SplitVertical => k.split_vertical,
        PrefixAction::SplitHorizontal => k.split_horizontal,
        PrefixAction::ClosePane => k.close_pane,
        PrefixAction::Zoom => k.zoom,
        PrefixAction::FocusLeft => k.focus_pane_left,
        PrefixAction::FocusDown => k.focus_pane_down,
        PrefixAction::FocusUp => k.focus_pane_up,
        PrefixAction::FocusRight => k.focus_pane_right,
    }
}

/// The actions, the one that wins a shared key first.
pub open spec fn by_precedence() -> Seq<PrefixAction> {
    seq![
        PrefixAction::NewWorkspace,
        PrefixAction::CloseWorkspace,
        PrefixAction::NextWorkspace,
        PrefixAction::PreviousWorkspace,
        PrefixAction::NewTab,
        PrefixAction::NextTab,
        PrefixAction::PreviousTab,
        PrefixAction::CloseTab,
        PrefixAction::SplitVertical,
        PrefixAction::SplitHorizontal,
        PrefixAction::ClosePane,
        PrefixAction::Zoom,
        PrefixAction::FocusLeft,
        PrefixAction::FocusDown,
        PrefixAction::FocusUp,
        PrefixAction::FocusRight,
    ]
}

/// A key stands for the action whose binding it hits; where it hits several,
/// for the first of them by precedence; where it hits none, for nothing.
pub proof fn keys_mean_their_bindings(k: Keybinds, key: TerminalKey, action: PrefixAction, n: int)
    requires
        0 <= n < by_precedence().len(),
        by_precedence()[n] == action,
    ensures
        (bound(k, action).hit_by(key) && forall|m: int|
            0 <= m < n ==> !bound(k, #[trigger] by_precedence()[m]).hit_by(key)) ==> k.action_of(
            key,
        ) == Some(action),
        k.action_of(key) == Some(action) ==> bound(k, action).hit_by(key),
        (forall|m: int|
            0 <= m < by_precedence().len() ==> !bound(
                k,
                #[trigger] by_precedence()[m],
            ).hit_by(key)) ==> k.action_of(key) is None,
{
    let order = by_precedence();
    assert(order[0] == PrefixAction::NewWorkspace);
    assert(order[1] == PrefixAction::CloseWorkspace);
    assert(order[2] == PrefixAction::NextWorkspace);
    assert(order[3] == PrefixAction::PreviousWorkspace);
    assert(order[4] == PrefixAction::NewTab);
    assert(order[5] == PrefixAction::NextTab);
    assert(order[6] == PrefixAction::PreviousTab);
    assert(order[7] == PrefixAction::CloseTab);
    assert(order[8] == PrefixAction::SplitVertical);
    assert(order[9] == PrefixAction::SplitHorizontal);
    assert(order[10] == PrefixAction::ClosePane);
    assert(order[11] == PrefixAction::Zoom);
    assert(order[12] == PrefixAction::FocusLeft);
    assert(order[13] == PrefixAction::FocusDown);
    assert(order[14] == PrefixAction::FocusUp);
    assert(order[15] == PrefixAction::FocusRight);
}

/// The key hits this action's binding and no other.
pub open spec fn hits_only(k: Keybinds, key: TerminalKey, action: PrefixAction) -> bool {
    &&& k.new_workspace.hit_by(key) <==> action == PrefixAction::NewWorkspace
    &&& k.close_workspace.hit_by(key) <==> action == PrefixAction::CloseWorkspace
    &&& k.next_workspace.hit_by(key) <==> action == PrefixAction::NextWorkspace
    &&& k.previous_workspace.hit_by(key) <==> action == PrefixAction::PreviousWorkspace
    &&& k.new_tab.hit_by(key) <==> action == PrefixAction::NewTab
    &&& k.next_tab.hit_by(key) <==> action == PrefixAction::NextTab
    &&& k.previous_tab.hit_by(key) <==> action == PrefixAction::PreviousTab
    &&& k.close_tab.hit_by(key) <==> action == PrefixAction::CloseTab
    &&& k.split_vertical.hit_by(key) <==> action == PrefixAction::SplitVertical
    &&& k.split_horizontal.hit_by(key) <==> action == PrefixAction::SplitHorizontal
    &&& k.close_pane.hit_by(key) <==> action == PrefixAction::ClosePane
    &&& k.zoom.hit_by(key) <==> action == PrefixAction::Zoom
    &&& k.focus_pane_left.hit_by(key) <==> action == PrefixAction::FocusLeft
    &&& k.focus_pane_down.hit_by(key) <==> action == PrefixAction::FocusDown
    &&& k.focus_pane_up.hit_by(key) <==> action == PrefixAction::FocusUp
    &&& k.focus_pane_right.hit_by(key) <==> action == PrefixAction::FocusRight
}

/// The active workspace is that remote's, under that public id.
pub open spec fn on_workspace(
    app: AppState,
    ids: ComposeIds,
    remote: usize,
    workspace: Seq<char>,
) -> bool {
    app.active matches Some(i) && i < ids.workspace_owners@.len()
        && ids.workspace_owners@[i as int].0 == remote && ids.workspace_owners@[i as int].1@
        == workspace
}

/// The focused pane of the active workspace is that remote's, under that
/// public id.
pub open spec fn on_pane(app: AppState, ids: ComposeIds, remote: usize, pane: Seq<char>) -> bool {
    app.active matches Some(i) && i < app.workspaces@.len() && ({
        let w = app.workspaces@[i as int];
        w.active_tab < w.tabs@.len() && ({
            let focus = w.tabs@[w.active_tab as int].layout.focus;
            focus < ids.slots@.len() && ids.slots@[focus as int].live
                && ids.slots@[focus as int].remote == remote && ids.slots@[focus as int].public@
                == pane
        })
    })
}

/// The binding for going left moves the focus left from the focused pane, on
/// the remote that owns it.
pub proof fn focus_left_goes_left(
    key: TerminalKey,
    mirrors: Map<usize, MirrorModel>,
    ids: ComposeIds,
    app: AppState,
    fallback: usize,
    remote: usize,
    workspace: Seq<char>,
    pane: Seq<char>,
)
    requires
        hits_only(app.keybinds, key, PrefixAction::FocusLeft),
        mirrors.contains_key(remote),
        on_workspace(app, ids, remote, workspace),
        on_pane(app, ids, remote, pane),
    ensures
        prefix_intent(key, mirrors, ids, app, fallback) == Some(
            (
                remote,
                MethodModel::PaneFocusDirection {
                    pane_id: Some(pane),
                    direction: PaneDirection::Left,
                },
            ),
        ),
{
    reveal(prefix_intent);
}

/// The binding for going down moves the focus down from the focused pane.
pub proof fn focus_down_goes_down(
    key: TerminalKey,
    mirrors: Map<usize, MirrorModel>,
    ids: ComposeIds,
    app: AppState,
    fallback: usize,
    remote: usize,
    workspace: Seq<char>,
    pane: Seq<char>,
)
    requires
        hits_only(app.keybinds, key, PrefixAction::FocusDown),
        mirrors.contains_key(remote),
        on_workspace(app, ids, remote, workspace),
        on_pane(app, ids, remote, pane),
    ensures
        prefix_intent(key, mirrors, ids, app, fallback) == Some(
            (
                remote,
                MethodModel::PaneFocusDirection {
                    pane_id: Some(pane),
                    direction: PaneDirection::Down,
                },
            ),
        ),
{
    reveal(prefix_intent);
}

/// The binding for going up moves the focus up from the focused pane.
pub proof fn focus_up_goes_up(
    key: TerminalKey,
    mirrors: Map<usize, MirrorModel>,
    ids: ComposeIds,
    app: AppState,
    fallback: usize,
    remote: usize,
    workspace: Seq<char>,
    pane: Seq<char>,
)
    requires
        hits_only(app.keybinds, key, PrefixAction::FocusUp),
        mirrors.contains_key(remote),
        on_workspace(app, ids, remote, workspace),
        on_pane(app, ids, remote, pane),
    ensures
        prefix_intent(key, mirrors, ids, app, fallback) == Some(
            (
                remote,
                MethodModel::PaneFocusDirection {
                    pane_id: Some(pane),
                    direction: PaneDirection::Up,
                },
            ),
        ),
{
    reveal(prefix_intent);
}

/// The binding for going right moves the focus right from the focused pane.
pub proof fn focus_right_goes_right(
    key: TerminalKey,
    mirrors: Map<usize, MirrorModel>,
    ids: ComposeIds,
    app: AppState,
    fallback: usize,
    remote: usize,
    workspace: Seq<char>,
    pane: Seq<char>,
)
    requires
        hits_only(app.keybinds, key, PrefixAction::FocusRight),
        mirrors.contains_key(remote),
        on_workspace(app, ids, remote, workspace),
        on_pane(app, ids, remote, pane),
    ensures
        prefix_intent(key, mirrors, ids, app, fallback) == Some(
            (
                remote,
                MethodModel::PaneFocusDirection {
                    pane_id: Some(pane),
                    direction: PaneDirection::Right,
                },
            ),
        ),
{
    reveal(prefix_intent);
}

/// A vertical split puts the new pane to the right of the focused one, a
/// horizontal one below it, and the focus goes along. Closing and zooming act
/// on the focused pane.
pub proof fn pane_bindings_act_on_the_focused_pane(
    key: TerminalKey,
    mirrors: Map<usize, MirrorModel>,
    ids: ComposeIds,
    app: AppState,
    fallback: usize,
    remote: usize,
    workspace: Seq<char>,
    pane: Seq<char>,
)
    requires
        mirrors.contains_key(remote),
        on_workspace(app, ids, remote, workspace),
        on_pane(app, ids, remote, pane),
    ensures
        hits_only(app.keybinds, key, PrefixAction::SplitVertical) ==> prefix_intent(
            key,
            mirrors,
            ids,
            app,
            fallback,
        ) == Some(
            (
                remote,
                MethodModel::PaneSplit {
                    target_pane_id: Some(pane),
                    direction: SplitDirection::Right,
                    focus: true,
                },
            ),
        ),
        hits_only(app.keybinds, key, PrefixAction::SplitHorizontal) ==> prefix_intent(
            key,
            mirrors,
            ids,
            app,
            fallback,
        ) == Some(
            (
                remote,
                MethodModel::PaneSplit {
                    target_pane_id: Some(pane),
                    direction: SplitDirection::Down,
                    focus: true,
                },
            ),
        ),
        hits_only(app.keybinds, key, PrefixAction::ClosePane) ==> prefix_intent(
            key,
            mirrors,
            ids,
            app,
            fallback,
        ) == Some((remote, MethodModel::PaneClose { pane_id: pane })),
        hits_only(app.keybinds, key, PrefixAction::Zoom) ==> prefix_intent(
            key,
            mirrors,
            ids,
            app,
            fallback,
        ) == Some((remote, MethodModel::PaneZoom { pane_id: Some(pane) })),
{
    reveal(prefix_intent);
}

/// New workspaces and tabs take the focus; a new tab goes into the focused
/// workspace, and closing closes that workspace or its active tab.
pub proof fn workspace_bindings_act_on_the_focused_workspace(
    key: TerminalKey,
    mirrors: Map<usize, MirrorModel>,
    ids: ComposeIds,
    app: AppState,
    fallback: usize,
    remote: usize,
    workspace: Seq<char>,
)
    requires
        mirrors.contains_key(remote),
        on_workspace(app, ids, remote, workspace),
    ensures
        hits_only(app.keybinds, key, PrefixAction::NewWorkspace) ==> prefix_intent(
            key,
            mirrors,
            ids,
            app,
            fallback,
        ) == Some((remote, MethodModel::WorkspaceCreate { focus: true })),
        hits_only(app.keybinds, key, PrefixAction::CloseWorkspace) ==> prefix_intent(
            key,
            mirrors,
            ids,
            app,
            fallback,
        ) == Some((remote, MethodModel::WorkspaceClose { workspace_id: workspace })),
        hits_only(app.keybinds, key, PrefixAction::NewTab) ==> prefix_intent(
            key,
            mirrors,
            ids,
            app,
            fallback,
        ) == Some((remote, MethodModel::TabCreate { workspace_id: Some(workspace), focus: true })),
        hits_only(app.keybinds, key, PrefixAction::CloseTab) ==> prefix_intent(
            key,
            mirrors,
            ids,
            app,
            fallback,
        ) == match mirrors[remote].catalog.workspace(workspace) {
            Some(w) => Some((remote, MethodModel::TabClose { tab_id: w.active_tab_id@ })),
            None => None,
        },
{
    reveal(prefix_intent);
}

/// Going to the next workspace goes one further in the remote's list, going
/// to the previous one goes one back, round the end both ways.
pub proof fn workspace_cycling_steps_by_one(
    key: TerminalKey,
    mirrors: Map<usize, MirrorModel>,
    ids: ComposeIds,
    app: AppState,
    fallback: usize,
    remote: usize,
    workspace: Seq<char>,
    at: int,
)
    requires
        mirrors.contains_key(remote),
        on_workspace(app, ids, remote, workspace),
        0 <= at < mirrors[remote].catalog.workspaces.len(),
        mirrors[remote].catalog.workspaces[at].workspace_id@ == workspace,
        forall|j: int|
            0 <= j < at ==> (#[trigger] mirrors[remote].catalog.workspaces[j]).workspace_id@
                != workspace,
    ensures
        ({
            let all = mirrors[remote].catalog.workspaces;
            let n = all.len() as int;
            &&& hits_only(app.keybinds, key, PrefixAction::NextWorkspace) ==> prefix_intent(
                key,
                mirrors,
                ids,
                app,
                fallback,
            ) == Some(
                (
                    remote,
                    MethodModel::WorkspaceFocus { workspace_id: all[(at + 1) % n].workspace_id@ },
                ),
            )
            &&& hits_only(app.keybinds, key, PrefixAction::PreviousWorkspace) ==> prefix_intent(
                key,
                mirrors,
                ids,
                app,
                fallback,
            ) == Some(
                (
                    remote,
                    MethodModel::WorkspaceFocus {
                        workspace_id: all[(at + n - 1) % n].workspace_id@,
                    },
                ),
            )
        }),
{
    reveal(prefix_intent);
    let all = mirrors[remote].catalog.workspaces;
    let list = workspace_ids(all);
    assert forall|j: int| 0 <= j < at implies !is_text(workspace)(#[trigger] list[j]) by {
        assert(list[j] == all[j].workspace_id@);
    }
    first_index_is(list, is_text(workspace), at);
    round_the_end(at, all.len() as int);
}

proof fn round_the_end(at: int, n: int)
    requires
        0 <= at < n,
    ensures
        (at + 1) % n == if at + 1 < n {
            at + 1
        } else {
            0
        },
        (at + n - 1) % n == if at == 0 {
            n - 1
        } else {
            at - 1
        },
{
    if at + 1 < n {
        vstd::arithmetic::div_mod::lemma_small_mod((at + 1) as nat, n as nat);
    } else {
        vstd::arithmetic::div_mod::lemma_mod_self_0(n);
    }
    if at == 0 {
        vstd::arithmetic::div_mod::lemma_small_mod((n - 1) as nat, n as nat);
    } else {
        vstd::arithmetic::div_mod::lemma_small_mod((at - 1) as nat, n as nat);
        vstd::arithmetic::div_mod::lemma_mod_add_multiples_vanish(at - 1, n);
    }
}

/// Going to the next tab goes one further among the workspace's own tabs,
/// from its active one; going to the previous one goes one back.
pub proof fn tab_cycling_steps_by_one(
    key: TerminalKey,
    mirrors: Map<usize, MirrorModel>,
    ids: ComposeIds,
    app: AppState,
    fallback: usize,
    remote: usize,
    workspace: Seq<char>,
    own: Seq<TabInfo>,
    at: int,
)
    requires
        mirrors.contains_key(remote),
        on_workspace(app, ids, remote, workspace),
        mirrors[remote].catalog.workspace(workspace) is Some,
        own == mirrors[remote].catalog.tabs.filter(|t: TabInfo| t.workspace_id@ == workspace),
        0 <= at < own.len(),
        own[at].tab_id@ == mirrors[remote].catalog.workspace(workspace)->Some_0.active_tab_id@,
        forall|j: int| 0 <= j < at ==> (#[trigger] own[j]).tab_id@ != own[at].tab_id@,
    ensures
        ({
            let n = own.len() as int;
            &&& hits_only(app.keybinds, key, PrefixAction::NextTab) ==> prefix_intent(
                key,
                mirrors,
                ids,
                app,
                fallback,
            ) == Some((remote, MethodModel::TabFocus { tab_id: own[(at + 1) % n].tab_id@ }))
            &&& hits_only(app.keybinds, key, PrefixAction::PreviousTab) ==> prefix_intent(
                key,
                mirrors,
                ids,
                app,
                fallback,
            ) == Some((remote, MethodModel::TabFocus { tab_id: own[(at + n - 1) % n].tab_id@ }))
        }),
{
    reveal(prefix_intent);
    assert(tab_within(workspace) =~= (|t: TabInfo| t.workspace_id@ == workspace));
    let list = tab_ids(own);
    let active = own[at].tab_id@;
    assert forall|j: int| 0 <= j < at implies !is_text(active)(#[trigger] list[j]) by {
        assert(list[j] == own[j].tab_id@);
    }
    first_index_is(list, is_text(active), at);
    round_the_end(at, own.len() as int);
}

/// A key that hits nothing asks for nothing, and nothing is asked of a remote
/// that has no mirror.
pub proof fn other_keys_ask_nothing(
    key: TerminalKey,
    mirrors: Map<usize, MirrorModel>,
    ids: ComposeIds,
    app: AppState,
    fallback: usize,
    remote: usize,
    workspace: Seq<char>,
)
    ensures
        (forall|action: PrefixAction| !(#[trigger] bound(app.keybinds, action)).hit_by(key))
            ==> prefix_intent(key, mirrors, ids, app, fallback) is None,
        on_workspace(app, ids, remote, workspace) && !mirrors.contains_key(remote)
            ==> prefix_intent(key, mirrors, ids, app, fallback) is None,
        app.active is None && !mirrors.contains_key(fallback) ==> prefix_intent(
            key,
            mirrors,
            ids,
            app,
            fallback,
        ) is None,
{
    reveal(prefix_intent);
    if forall|action: PrefixAction| !(#[trigger] bound(app.keybinds, action)).hit_by(key) {
        let k = app.keybinds;
        assert(!bound(k, PrefixAction::NewWorkspace).hit_by(key));
        assert(!bound(k, PrefixAction::CloseWorkspace).hit_by(key));
        assert(!bound(k, PrefixAction::NextWorkspace).hit_by(key));
        assert(!bound(k, PrefixAction::PreviousWorkspace).hit_by(key));
        assert(!bound(k, PrefixAction::NewTab).hit_by(key));
        assert(!bound(k, PrefixAction::NextTab).hit_by(key));
        assert(!bound(k, PrefixAction::PreviousTab).hit_by(key));
        assert(!bound(k, PrefixAction::CloseTab).hit_by(key));
        assert(!bound(k, PrefixAction::SplitVertical).hit_by(key));
        assert(!bound(k, PrefixAction::SplitHorizontal).hit_by(key));
        assert(!bound(k, PrefixAction::ClosePane).hit_by(key));
        assert(!bound(k, PrefixAction::Zoom).hit_by(key));
        assert(!bound(k, PrefixAction::FocusLeft).hit_by(key));
        assert(!bound(k, PrefixAction::FocusDown).hit_by(key));
        assert(!bound(k, PrefixAction::FocusUp).hit_by(key));
        assert(!bound(k, PrefixAction::FocusRight).hit_by(key));
    }
}

/// With nothing focused the fallback remote is asked, and only for what needs
/// no focus; a pane of another remote counts as no focus.
pub proof fn without_focus_the_fallback_is_asked(
    key: TerminalKey,
    mirrors: Map<usize, MirrorModel>,
    ids: ComposeIds,
    app: AppState,
    fallback: usize,
)
    requires
        app.active is None,
        mirrors.contains_key(fallback),
    ensures
        ({
            let r = prefix_intent(key, mirrors, ids, app, fallback);
            let only = |action: PrefixAction| hits_only(app.keybinds, key, action);
            &&& only(PrefixAction::NewWorkspace) ==> r == Some(
                (fallback, MethodModel::WorkspaceCreate { focus: true }),
            )
            &&& only(PrefixAction::NewTab) ==> r == Some(
                (fallback, MethodModel::TabCreate { workspace_id: None, focus: true }),
            )
            &&& only(PrefixAction::SplitVertical) ==> r == Some(
                (
                    fallback,
                    MethodModel::PaneSplit {
                        target_pane_id: None,
                        direction: SplitDirection::Right,
                        focus: true,
                    },
                ),
            )
            &&& only(PrefixAction::SplitHorizontal) ==> r == Some(
                (
                    fallback,
                    MethodModel::PaneSplit {
                        target_pane_id: None,
                        direction: SplitDirection::Down,
                        focus: true,
                    },
                ),
            )
            &&& only(PrefixAction::Zoom) ==> r == Some(
                (fallback, MethodModel::PaneZoom { pane_id: None }),
            )
            &&& only(PrefixAction::FocusUp) ==> r == Some(
                (
                    fallback,
                    MethodModel::PaneFocusDirection {
                        pane_id: None,
                        direction: PaneDirection::Up,
                    },
                ),
            )
            &&& only(PrefixAction::FocusDown) ==> r == Some(
                (
                    fallback,
                    MethodModel::PaneFocusDirection {
                        pane_id: None,
                        direction: PaneDirection::Down,
                    },
                ),
            )
            &&& only(PrefixAction::FocusLeft) ==> r == Some(
                (
                    fallback,
                    MethodModel::PaneFocusDirection {
                        pane_id: None,
                        direction: PaneDirection::Left,
                    },
                ),
            )
            &&& only(PrefixAction::FocusRight) ==> r == Some(
                (
                    fallback,
                    MethodModel::PaneFocusDirection {
                        pane_id: None,
                        direction: PaneDirection::Right,
                    },
                ),
            )
            &&& only(PrefixAction::CloseWorkspace) ==> r is None
            &&& only(PrefixAction::CloseTab) ==> r is None
            &&& only(PrefixAction::ClosePane) ==> r is None
            &&& only(PrefixAction::NextWorkspace) ==> r is None
            &&& only(PrefixAction::PreviousWorkspace) ==> r is None
            &&& only(PrefixAction::NextTab) ==> r is None
            &&& only(PrefixAction::PreviousTab) ==> r is None
        }),
{
    reveal(prefix_intent);
}

/// A chord is hit by its own code and modifiers and by nothing else, except
/// that a capital letter and shift with the small one are the same key. What
/// happened to the key does not count.
pub proof fn chords_are_hit_by_their_keys(chord: KeyChord, key: TerminalKey, kind: KeyEventKind)
    ensures
        chord.code == key.code && chord.modifiers == key.modifiers ==> chord.hit_by(key),
        ({
            let capital = |code: KeyCode| code matches KeyCode::Char(c) && 'A' <= c && c <= 'Z';
            !capital(chord.code) && !capital(key.code) ==> (chord.hit_by(key) <==> chord.code
                == key.code && chord.modifiers == key.modifiers)
        }),
        chord.hit_by(key) <==> chord.hit_by(TerminalKey { kind, ..key }),
        chord.hit_by(key) ==> chord.modifiers.control == key.modifiers.control
            && chord.modifiers.alt == key.modifiers.alt && chord.modifiers.extra
            == key.modifiers.extra,
{
}

/// A capital letter is the small letter with shift held.
pub proof fn capitals_are_shifted(
    upper: char,
    small: char,
    modifiers: KeyModifiers,
    key: TerminalKey,
)
    requires
        'A' <= upper && upper <= 'Z',
        small as u32 == upper as u32 + 32,
        key.code == KeyCode::Char(small),
        key.modifiers == (KeyModifiers { shift: true, ..modifiers }),
    ensures
        (KeyChord { code: KeyCode::Char(upper), modifiers }).hit_by(key),
        !(KeyChord { code: KeyCode::Char(upper), modifiers }).hit_by(
            TerminalKey { modifiers: (KeyModifiers { shift: false, ..modifiers }), ..key },
        ),
{
    assert(((upper as u8) + 32) as u8 as u32 == small as u32);
    assert(((upper as u8) + 32) as u8 as char == small);
}

/// A binding is hit through any of its chords, and through nothing else.
pub proof fn bindings_are_hit_through_their_chords(b: Binding, key: TerminalKey, i: int)
    ensures
        0 <= i < b.chords@.len() && b.chords@[i].hit_by(key) ==> b.hit_by(key),
        b.hit_by(key) ==> exists|j: int|
            0 <= j < b.chords@.len() && (#[trigger] b.chords@[j]).hit_by(key),
        b.chords@.len() == 0 ==> !b.hit_by(key),
{
}

/// A click on a workspace or a pane focuses exactly that, on its owner; a
/// click on what nobody owns asks for nothing.
pub proof fn clicks_focus_what_was_clicked(
    mirrors: Map<usize, MirrorModel>,
    ids: ComposeIds,
    app: AppState,
    fallback: usize,
    at: usize,
)
    ensures
        mouse_intent(MouseAction::FocusWorkspace { ws_idx: at }, mirrors, ids, app, fallback)
            == if at < ids.workspace_owners@.len() {
            Some(
                (
                    ids.workspace_owners@[at as int].0,
                    MethodModel::WorkspaceFocus {
                        workspace_id: ids.workspace_owners@[at as int].1@,
                    },
                ),
            )
        } else {
            None
        },
        mouse_intent(MouseAction::FocusPane { pane_id: at }, mirrors, ids, app, fallback) == if at
            < ids.slots@.len() && ids.slots@[at as int].live {
            Some(
                (
                    ids.slots@[at as int].remote,
                    MethodModel::PaneFocus { pane_id: ids.slots@[at as int].public@ },
                ),
            )
        } else {
            None
        },
        mouse_intent(MouseAction::Other, mirrors, ids, app, fallback) is None,
{
}

/// A click on a tab focuses the tab shown there, a drag moves that tab to the
/// position it was dropped on; both on the workspace's owner.
pub proof fn tab_clicks_name_the_shown_tab(
    mirrors: Map<usize, MirrorModel>,
    ids: ComposeIds,
    app: AppState,
    fallback: usize,
    ws_idx: usize,
    tab_idx: usize,
    insert_idx: usize,
    remote: usize,
    workspace: Seq<char>,
)
    requires
        ws_idx < ids.workspace_owners@.len(),
        ids.workspace_owners@[ws_idx as int].0 == remote,
        ids.workspace_owners@[ws_idx as int].1@ == workspace,
        mirrors.contains_key(remote),
    ensures
        ({
            let c = mirrors[remote].catalog;
            let shown = c.tabs.filter(with_a_pane(c, workspace));
            &&& app.active == Some(ws_idx) ==> mouse_intent(
                MouseAction::FocusTab { tab_idx },
                mirrors,
                ids,
                app,
                fallback,
            ) == if tab_idx < shown.len() {
                Some((remote, MethodModel::TabFocus { tab_id: shown[tab_idx as int].tab_id@ }))
            } else {
                None
            }
            &&& mouse_intent(
                MouseAction::MoveTab { ws_idx, source_tab_idx: tab_idx, insert_idx },
                mirrors,
                ids,
                app,
                fallback,
            ) == if tab_idx < shown.len() {
                Some(
                    (
                        remote,
                        MethodModel::TabMove {
                            tab_id: shown[tab_idx as int].tab_id@,
                            insert_index: insert_idx,
                        },
                    ),
                )
            } else {
                None
            }
        }),
{
    let c = mirrors[remote].catalog;
    shown_tabs_have_panes(c, workspace);
}

/// A tab of the workspace that some pane is on.
pub open spec fn with_a_pane(c: CatalogModel, workspace: Seq<char>) -> spec_fn(TabInfo) -> bool {
    |t: TabInfo|
        t.workspace_id@ == workspace && exists|k: int|
            0 <= k < c.panes.len() && (#[trigger] c.panes[k]).tab_id@ == t.tab_id@
}

pub proof fn shown_tabs_have_panes(c: CatalogModel, workspace: Seq<char>)
    ensures
        shown_tab(c, workspace) == with_a_pane(c, workspace),
{
    let p = with_a_pane(c, workspace);
    assert forall|t: TabInfo| #[trigger] shown_tab(c, workspace)(t) == p(t) by {
        let on = crate::client_state::compose_ids::on_tab(t.tab_id@);
        if p(t) {
            let k = choose|k: int|
                0 <= k < c.panes.len() && (#[trigger] c.panes[k]).tab_id@ == t.tab_id@;
            assert(on(c.panes[k]));
        }
        if shown_tab(c, workspace)(t) {
            let k = choose|k: int| 0 <= k < c.panes.len() && on(#[trigger] c.panes[k]);
            assert(c.panes[k].tab_id@ == t.tab_id@);
        }
    }
    assert(shown_tab(c, workspace) =~= p);
}

/// Creation and split ratios go to the owner of the active workspace, with
/// what was asked for; without one, to the fallback.
pub proof fn creation_clicks_go_to_the_focus(
    mirrors: Map<usize, MirrorModel>,
    ids: ComposeIds,
    app: AppState,
    fallback: usize,
    remote: usize,
    workspace: Seq<char>,
    path: Vec<bool>,
    ratio: String,
)
    requires
        on_workspace(app, ids, remote, workspace) || (app.active is None && remote == fallback),
    ensures
        mouse_intent(MouseAction::NewWorkspace, mirrors, ids, app, fallback) == Some(
            (remote, MethodModel::WorkspaceCreate { focus: true }),
        ),
        mouse_intent(MouseAction::SetSplitRatio { path, ratio }, mirrors, ids, app, fallback)
            == Some((remote, MethodModel::LayoutSetSplitRatio { path: path@, ratio: ratio@ })),
{
}

/// A workspace that is dragged asks its owner to insert it behind those of
/// the owner's workspaces that are shown before the place it was dropped on.
pub proof fn dragged_workspaces_keep_to_their_remote(
    mirrors: Map<usize, MirrorModel>,
    ids: ComposeIds,
    app: AppState,
    fallback: usize,
    source_ws_idx: usize,
    insert_idx: usize,
)
    requires
        source_ws_idx < ids.workspace_owners@.len(),
        app.workspaces@.len() == ids.workspace_owners@.len(),
    ensures
        ({
            let remote = ids.workspace_owners@[source_ws_idx as int].0;
            let own = |o: (usize, String)| o.0 == remote;
            let n = if insert_idx < app.workspaces@.len() {
                insert_idx as int
            } else {
                app.workspaces@.len() as int
            };
            mouse_intent(
                MouseAction::MoveWorkspace { source_ws_idx, insert_idx },
                mirrors,
                ids,
                app,
                fallback,
            ) == Some(
                (
                    remote,
                    MethodModel::WorkspaceMove {
                        workspace_id: ids.workspace_owners@[source_ws_idx as int].1@,
                        insert_index: ids.workspace_owners@.take(n).filter(own).len() as usize,
                    },
                ),
            )
        }),
{
    let remote = ids.workspace_owners@[source_ws_idx as int].0;
    let n = if insert_idx < app.workspaces@.len() {
        insert_idx as int
    } else {
        app.workspaces@.len() as int
    };
    owned_are_counted(ids, remote, n);
}

proof fn owned_are_counted(ids: ComposeIds, remote: usize, n: int)
    requires
        0 <= n <= ids.workspace_owners@.len(),
    ensures
        owned_before(ids, remote, n) == ids.workspace_owners@.take(n).filter(
            |o: (usize, String)| o.0 == remote,
        ).len(),
    decreases n,
{
    let own = |o: (usize, String)| o.0 == remote;
    reveal(Seq::filter);
    let all = ids.workspace_owners@;
    if n > 0 {
        owned_are_counted(ids, remote, n - 1);
        assert(all.take(n) =~= all.take(n - 1).push(all[n - 1]));
        all.take(n - 1).lemma_filter_push(all[n - 1], own);
        assert(all.len() == ids.workspace_owners.len());
        assert((n - 1) as usize == n - 1);
    }
}

/// Modal methods go to the owner of the selected workspace, and name the
/// workspace composed under an id by its owner's public id. Everything else
/// of a method stays.
pub proof fn modals_reach_the_owner(
    app: AppState,
    ids: ComposeIds,
    fallback: usize,
    at: int,
    label: Seq<char>,
    tab_id: Seq<char>,
)
    requires
        0 <= at < app.workspaces@.len(),
        app.workspaces@.len() == ids.workspace_owners@.len(),
        forall|j: int| 0 <= j < at ==> (#[trigger] app.workspaces@[j]).id@ != app.workspaces@[at].id@,
    ensures
        app.selected == at ==> modal_target(app, ids, fallback) == ids.workspace_owners@[at].0,
        app.selected >= ids.workspace_owners@.len() ==> modal_target(app, ids, fallback)
            == fallback,
        ({
            let id = app.workspaces@[at].id@;
            let public = ids.workspace_owners@[at].1@;
            &&& unscoped_method(
                app,
                ids,
                MethodModel::WorkspaceRename { workspace_id: id, label },
            ) == (MethodModel::WorkspaceRename { workspace_id: public, label })
            &&& unscoped_method(app, ids, MethodModel::WorkspaceClose { workspace_id: id }) == (
            MethodModel::WorkspaceClose { workspace_id: public })
            &&& unscoped_method(app, ids, MethodModel::WorkspaceFocus { workspace_id: id }) == (
            MethodModel::WorkspaceFocus { workspace_id: public })
            &&& unscoped_method(app, ids, MethodModel::TabClose { tab_id }) == (
            MethodModel::TabClose { tab_id })
        }),
{
    let spaces = crate::client_state::compose::models(app.workspaces@);
    let p = crate::client_state::compose::workspace_with_id(app.workspaces@[at].id@);
    assert(app.workspaces@.len() == app.workspaces.len());
    assert(at as usize == at);
    assert(spaces[at] == app.workspaces@[at]@);
    assert forall|j: int| 0 <= j < at implies !p(#[trigger] spaces[j]) by {
        assert(spaces[j] == app.workspaces@[j]@);
    }
    first_index_is(spaces, p, at);
}

} // verus!
