//! API methods and their wire form.
use crate::api::schema::SplitDirection;
use crate::json::{
    items_view, members_view, no_members, object3, with_member, Json, JsonView,
};
use crate::text::opt_view;
use vstd::prelude::*;

verus! {

/// A direction in which pane focus moves.
#[derive(Clone, Copy, PartialEq, Eq, Structural, Debug)]
pub enum PaneDirection {
    Left,
    Down,
    Up,
    Right,
}

/// A method of the session API. A ratio is kept as the text of its number.
#[derive(Debug, PartialEq, Eq)]
pub enum Method {
    WorkspaceCreate { focus: bool },
    WorkspaceClose { workspace_id: String },
    WorkspaceFocus { workspace_id: String },
    WorkspaceRename { workspace_id: String, label: String },
    WorkspaceMove { workspace_id: String, insert_index: usize },
    TabCreate { workspace_id: Option<String>, focus: bool },
    TabFocus { tab_id: String },
    TabClose { tab_id: String },
    TabMove { tab_id: String, insert_index: usize },
    PaneSplit { target_pane_id: Option<String>, direction: SplitDirection, focus: bool },
    PaneClose { pane_id: String },
    PaneFocus { pane_id: String },
    PaneRename { pane_id: String, label: Option<String> },
    PaneZoom { pane_id: Option<String> },
    PaneFocusDirection { pane_id: Option<String>, direction: PaneDirection },
    LayoutSetSplitRatio { path: Vec<bool>, ratio: String },
}

/// The mathematical value of a method.
pub enum MethodModel {
    WorkspaceCreate { focus: bool },
    WorkspaceClose { workspace_id: Seq<char> },
    WorkspaceFocus { workspace_id: Seq<char> },
    WorkspaceRename { workspace_id: Seq<char>, label: Seq<char> },
    WorkspaceMove { workspace_id: Seq<char>, insert_index: usize },
    TabCreate { workspace_id: Option<Seq<char>>, focus: bool },
    TabFocus { tab_id: Seq<char> },
    TabClose { tab_id: Seq<char> },
    TabMove { tab_id: Seq<char>, insert_index: usize },
    PaneSplit { target_pane_id: Option<Seq<char>>, direction: SplitDirection, focus: bool },
    PaneClose { pane_id: Seq<char> },
    PaneFocus { pane_id: Seq<char> },
    PaneRename { pane_id: Seq<char>, label: Option<Seq<char>> },
    PaneZoom { pane_id: Option<Seq<char>> },
    PaneFocusDirection { pane_id: Option<Seq<char>>, direction: PaneDirection },
    LayoutSetSplitRatio { path: Seq<bool>, ratio: Seq<char> },
}

impl View for Method {
    type V = MethodModel;

    open spec fn view(&self) -> MethodModel {
        match *self {
            Method::WorkspaceCreate { focus } => MethodModel::WorkspaceCreate { focus },
            Method::WorkspaceClose { workspace_id } => MethodModel::WorkspaceClose {
                workspace_id: workspace_id@,
            },
            Method::WorkspaceFocus { workspace_id } => MethodModel::WorkspaceFocus {
                workspace_id: workspace_id@,
            },
            Method::WorkspaceRename { workspace_id, label } => MethodModel::WorkspaceRename {
                workspace_id: workspace_id@,
                label: label@,
            },
            Method::WorkspaceMove { workspace_id, insert_index } => MethodModel::WorkspaceMove {
                workspace_id: workspace_id@,
                insert_index,
            },
            Method::TabCreate { workspace_id, focus } => MethodModel::TabCreate {
                workspace_id: opt_view(workspace_id),
                focus,
            },
            Method::TabFocus { tab_id } => MethodModel::TabFocus { tab_id: tab_id@ },
            Method::TabClose { tab_id } => MethodModel::TabClose { tab_id: tab_id@ },
            Method::TabMove { tab_id, insert_index } => MethodModel::TabMove {
                tab_id: tab_id@,
                insert_index,
            },
            Method::PaneSplit { target_pane_id, direction, focus } => MethodModel::PaneSplit {
                target_pane_id: opt_view(target_pane_id),
                direction,
                focus,
            },
            Method::PaneClose { pane_id } => MethodModel::PaneClose { pane_id: pane_id@ },
            Method::PaneFocus { pane_id } => MethodModel::PaneFocus { pane_id: pane_id@ },
            Method::PaneRename { pane_id, label } => MethodModel::PaneRename {
                pane_id: pane_id@,
                label: opt_view(label),
            },
            Method::PaneZoom { pane_id } => MethodModel::PaneZoom { pane_id: opt_view(pane_id) },
            Method::PaneFocusDirection { pane_id, direction } => MethodModel::PaneFocusDirection {
                pane_id: opt_view(pane_id),
                direction,
            },
            Method::LayoutSetSplitRatio { path, ratio } => MethodModel::LayoutSetSplitRatio {
                path: path@,
                ratio: ratio@,
            },
        }
    }
}

/// A member that is there only with a value.
pub open spec fn maybe(key: Seq<char>, value: Option<Seq<char>>) -> Seq<(Seq<char>, JsonView)> {
    match value {
        Some(v) => seq![(key, JsonView::Text(v))],
        None => Seq::empty(),
    }
}

pub open spec fn side_text(d: SplitDirection) -> Seq<char> {
    match d {
        SplitDirection::Right => "right"@,
        SplitDirection::Down => "down"@,
    }
}

pub open spec fn direction_text(d: PaneDirection) -> Seq<char> {
    match d {
        PaneDirection::Left => "left"@,
        PaneDirection::Down => "down"@,
        PaneDirection::Up => "up"@,
        PaneDirection::Right => "right"@,
    }
}

impl MethodModel {
    /// The method's name on the wire.
    pub open spec fn name(self) -> Seq<char> {
        match self {
            MethodModel::WorkspaceCreate { .. } => "workspace.create"@,
            MethodModel::WorkspaceClose { .. } => "workspace.close"@,
            MethodModel::WorkspaceFocus { .. } => "workspace.focus"@,
            MethodModel::WorkspaceRename { .. } => "workspace.rename"@,
            MethodModel::WorkspaceMove { .. } => "workspace.move"@,
            MethodModel::TabCreate { .. } => "tab.create"@,
            MethodModel::TabFocus { .. } => "tab.focus"@,
            MethodModel::TabClose { .. } => "tab.close"@,
            MethodModel::TabMove { .. } => "tab.move"@,
            MethodModel::PaneSplit { .. } => "pane.split"@,
            MethodModel::PaneClose { .. } => "pane.close"@,
            MethodModel::PaneFocus { .. } => "pane.focus"@,
            MethodModel::PaneRename { .. } => "pane.rename"@,
            MethodModel::PaneZoom { .. } => "pane.zoom"@,
            MethodModel::PaneFocusDirection { .. } => "pane.focus_direction"@,
            MethodModel::LayoutSetSplitRatio { .. } => "layout.set_split_ratio"@,
        }
    }

    /// The method's parameters on the wire.
    pub open spec fn params(self) -> Seq<(Seq<char>, JsonView)> {
        match self {
            MethodModel::WorkspaceCreate { focus } => seq![("focus"@, JsonView::Bool(focus))],
            MethodModel::WorkspaceClose { workspace_id } => seq![
                ("workspace_id"@, JsonView::Text(workspace_id)),
            ],
            MethodModel::WorkspaceFocus { workspace_id } => seq![
                ("workspace_id"@, JsonView::Text(workspace_id)),
            ],
            MethodModel::WorkspaceRename { workspace_id, label } => seq![
                ("workspace_id"@, JsonView::Text(workspace_id)),
                ("label"@, JsonView::Text(label)),
            ],
            MethodModel::WorkspaceMove { workspace_id, insert_index } => seq![
                ("workspace_id"@, JsonView::Text(workspace_id)),
                ("insert_index"@, JsonView::Unsigned(insert_index as u64)),
            ],
            MethodModel::TabCreate { workspace_id, focus } => maybe("workspace_id"@, workspace_id)
                + seq![("focus"@, JsonView::Bool(focus))],
            MethodModel::TabFocus { tab_id } => seq![("tab_id"@, JsonView::Text(tab_id))],
            MethodModel::TabClose { tab_id } => seq![("tab_id"@, JsonView::Text(tab_id))],
            MethodModel::TabMove { tab_id, insert_index } => seq![
                ("tab_id"@, JsonView::Text(tab_id)),
                ("insert_index"@, JsonView::Unsigned(insert_index as u64)),
            ],
            MethodModel::PaneSplit { target_pane_id, direction, focus } => maybe(
                "target_pane_id"@,
                target_pane_id,
            ) + seq![
                ("direction"@, JsonView::Text(side_text(direction))),
                ("focus"@, JsonView::Bool(focus)),
            ],
            MethodModel::PaneClose { pane_id } => seq![("pane_id"@, JsonView::Text(pane_id))],
            MethodModel::PaneFocus { pane_id } => seq![("pane_id"@, JsonView::Text(pane_id))],
            MethodModel::PaneRename { pane_id, label } => seq![
                ("pane_id"@, JsonView::Text(pane_id)),
            ] + maybe("label"@, label),
            MethodModel::PaneZoom { pane_id } => maybe("pane_id"@, pane_id),
            MethodModel::PaneFocusDirection { pane_id, direction } => maybe("pane_id"@, pane_id)
                + seq![("direction"@, JsonView::Text(direction_text(direction)))],
            MethodModel::LayoutSetSplitRatio { path, ratio } => seq![
                ("path"@, JsonView::Array(path.map_values(|b: bool| JsonView::Bool(b)))),
                ("ratio"@, JsonView::Float(ratio)),
            ],
        }
    }

    /// A request for the method.
    pub open spec fn request(self, id: Seq<char>) -> JsonView {
        JsonView::Object(
            seq![
                ("id"@, JsonView::Text(id)),
                ("method"@, JsonView::Text(self.name())),
                ("params"@, JsonView::Object(self.params())),
            ],
        )
    }
}

fn with_text(members: Vec<(String, Json)>, key: &str, value: &str) -> (r: Vec<(String, Json)>)
    ensures
        members_view(r@) == members_view(members@).push((key@, JsonView::Text(value@))),
{
    with_member(members, key, Json::from_text(value))
}

fn with_maybe(members: Vec<(String, Json)>, key: &str, value: &Option<String>) -> (r: Vec<
    (String, Json),
>)
    ensures
        members_view(r@) == members_view(members@) + maybe(key@, opt_view(*value)),
{
    match value {
        Some(v) => {
            let r = with_text(members, key, v.as_str());
            assert(members_view(r@) =~= members_view(members@) + maybe(key@, opt_view(*value)));
            r
        },
        None => {
            assert(members_view(members@) =~= members_view(members@) + maybe(
                key@,
                opt_view(*value),
            ));
            members
        },
    }
}

fn path_json(path: &Vec<bool>) -> (r: Json)
    ensures
        r@ == JsonView::Array(path@.map_values(|b: bool| JsonView::Bool(b))),
{
    let mut items: Vec<Json> = Vec::new();
    let mut i: usize = 0;
    while i < path.len()
        invariant
            i <= path@.len(),
            items@.len() == i,
            forall|k: int| 0 <= k < i ==> (#[trigger] items@[k])@ == JsonView::Bool(path@[k]),
        decreases path@.len() - i,
    {
        items.push(Json::Bool(path[i]));
        i = i + 1;
    }
    assert(items_view(items@) =~= path@.map_values(|b: bool| JsonView::Bool(b)));
    Json::array(items)
}

impl Method {
    fn wire_name(&self) -> (r: &'static str)
        ensures
            r@ == self@.name(),
    {
        match self {
            Method::WorkspaceCreate { .. } => "workspace.create",
            Method::WorkspaceClose { .. } => "workspace.close",
            Method::WorkspaceFocus { .. } => "workspace.focus",
            Method::WorkspaceRename { .. } => "workspace.rename",
            Method::WorkspaceMove { .. } => "workspace.move",
            Method::TabCreate { .. } => "tab.create",
            Method::TabFocus { .. } => "tab.focus",
            Method::TabClose { .. } => "tab.close",
            Method::TabMove { .. } => "tab.move",
            Method::PaneSplit { .. } => "pane.split",
            Method::PaneClose { .. } => "pane.close",
            Method::PaneFocus { .. } => "pane.focus",
            Method::PaneRename { .. } => "pane.rename",
            Method::PaneZoom { .. } => "pane.zoom",
            Method::PaneFocusDirection { .. } => "pane.focus_direction",
            Method::LayoutSetSplitRatio { .. } => "layout.set_split_ratio",
        }
    }

    fn wire_params(&self) -> (r: Vec<(String, Json)>)
        ensures
            members_view(r@) == self@.params(),
    {
        let none = no_members();
        let r = match self {
            Method::WorkspaceCreate { focus } => with_member(none, "focus", Json::Bool(*focus)),
            Method::WorkspaceClose { workspace_id } => with_text(
                none,
                "workspace_id",
                workspace_id.as_str(),
            ),
            Method::WorkspaceFocus { workspace_id } => with_text(
                none,
                "workspace_id",
                workspace_id.as_str(),
            ),
            Method::WorkspaceRename { workspace_id, label } => with_text(
                with_text(none, "workspace_id", workspace_id.as_str()),
                "label",
                label.as_str(),
            ),
            Method::WorkspaceMove { workspace_id, insert_index } => with_member(
                with_text(none, "workspace_id", workspace_id.as_str()),
                "insert_index",
                Json::Unsigned(*insert_index as u64),
            ),
            Method::TabCreate { workspace_id, focus } => with_member(
                with_maybe(none, "workspace_id", workspace_id),
                "focus",
                Json::Bool(*focus),
            ),
            Method::TabFocus { tab_id } => with_text(none, "tab_id", tab_id.as_str()),
            Method::TabClose { tab_id } => with_text(none, "tab_id", tab_id.as_str()),
            Method::TabMove { tab_id, insert_index } => with_member(
                with_text(none, "tab_id", tab_id.as_str()),
                "insert_index",
                Json::Unsigned(*insert_index as u64),
            ),
            Method::PaneSplit { target_pane_id, direction, focus } => {
                let side = match direction {
                    SplitDirection::Right => "right",
                    SplitDirection::Down => "down",
                };
                with_member(
                    with_text(with_maybe(none, "target_pane_id", target_pane_id), "direction", side),
                    "focus",
                    Json::Bool(*focus),
                )
            },
            Method::PaneClose { pane_id } => with_text(none, "pane_id", pane_id.as_str()),
            Method::PaneFocus { pane_id } => with_text(none, "pane_id", pane_id.as_str()),
            Method::PaneRename { pane_id, label } => with_maybe(
                with_text(none, "pane_id", pane_id.as_str()),
                "label",
                label,
            ),
            Method::PaneZoom { pane_id } => with_maybe(none, "pane_id", pane_id),
            Method::PaneFocusDirection { pane_id, direction } => {
                let toward = match direction {
                    PaneDirection::Left => "left",
                    PaneDirection::Down => "down",
                    PaneDirection::Up => "up",
                    PaneDirection::Right => "right",
                };
                with_text(with_maybe(none, "pane_id", pane_id), "direction", toward)
            },
            Method::LayoutSetSplitRatio { path, ratio } => with_member(
                with_member(none, "path", path_json(path)),
                "ratio",
                Json::Float(ratio.clone()),
            ),
        };
        assert(members_view(r@) =~= self@.params());
        r
    }

    /// A request for the method.
    pub fn to_request(&self, id: &str) -> (r: Json)
        ensures
            r@ == self@.request(id@),
    {
        object3(
            "id",
            Json::from_text(id),
            "method",
            Json::from_text(self.wire_name()),
            "params",
            Json::object(self.wire_params()),
        )
    }
}

} // verus!
