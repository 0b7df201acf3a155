//! The `remote` command: listing, resetting and upgrading fleet remotes.
use crate::fleet::config::{entry_named, position, RemoteEntry};
use crate::json::{
    items_view, members_view, no_members, object2, object3, with_member, Json, JsonView,
};
use crate::seqs::first_match;
use crate::text::{decimal, decimal_text, opt_view, same};
use vstd::prelude::*;
use vstd::string::*;

verus! {

/// How the upgrade command is called.
pub const UPGRADE_USAGE: &'static str =
    "usage: herdr remote upgrade <name-or-target> | --all [--yes] [--json]";

/// What a `remote` command line asks for.
#[derive(Clone, Copy, PartialEq, Eq, Structural, Debug)]
pub enum RemoteCommand {
    List,
    Reset,
    Reload,
    Upgrade,
    /// Help that was asked for.
    Help,
    /// Help for a command line that asks for nothing known.
    Usage,
}

pub open spec fn command_named(word: Option<Seq<char>>) -> RemoteCommand {
    if word == Some("list"@) {
        RemoteCommand::List
    } else if word == Some("reset"@) {
        RemoteCommand::Reset
    } else if word == Some("reload"@) {
        RemoteCommand::Reload
    } else if word == Some("upgrade"@) {
        RemoteCommand::Upgrade
    } else if word == Some("help"@) || word == Some("--help"@) || word == Some("-h"@) {
        RemoteCommand::Help
    } else {
        RemoteCommand::Usage
    }
}

pub open spec fn first_word(args: Seq<String>) -> Option<Seq<char>> {
    if args.len() > 0 {
        Some(args[0]@)
    } else {
        None
    }
}

/// Resolves the first word of a `remote` command line.
pub fn resolve_remote_command(args: &[String]) -> (r: RemoteCommand)
    ensures
        r == command_named(first_word(args@)),
{
    if args.len() == 0 {
        return RemoteCommand::Usage;
    }
    let word = args[0].as_str();
    if same(word, "list") {
        RemoteCommand::List
    } else if same(word, "reset") {
        RemoteCommand::Reset
    } else if same(word, "reload") {
        RemoteCommand::Reload
    } else if same(word, "upgrade") {
        RemoteCommand::Upgrade
    } else if same(word, "help") || same(word, "--help") || same(word, "-h") {
        RemoteCommand::Help
    } else {
        RemoteCommand::Usage
    }
}

/// The exit code that help ends with: asked for, it is a success.
pub fn help_exit_code(command: RemoteCommand) -> (r: i32)
    ensures
        r == if command == RemoteCommand::Help {
            0i32
        } else {
            2
        },
{
    if command == RemoteCommand::Help {
        0
    } else {
        2
    }
}

/// What arguments say that may hold `--json` and nothing else: whether they
/// do, or nothing where they hold more.
pub open spec fn json_only(args: Seq<String>) -> Option<bool> {
    if args.len() == 0 {
        Some(false)
    } else if args.len() == 1 && args[0]@ == "--json"@ {
        Some(true)
    } else {
        None
    }
}

/// Reads arguments that may hold `--json` and nothing else.
pub fn parse_json_only(args: &[String]) -> (r: Option<bool>)
    ensures
        r == json_only(args@),
{
    if args.len() == 0 {
        Some(false)
    } else if args.len() == 1 && same(args[0].as_str(), "--json") {
        Some(true)
    } else {
        None
    }
}

/// Reads a name, and after it `--json` or nothing.
pub fn parse_name_and_json(args: &[String]) -> (r: Option<(String, bool)>)
    ensures
        match r {
            Some((name, json)) => args@.len() > 0 && name@ == args@[0]@ && json_only(args@.skip(1))
                == Some(json),
            None => args@.len() == 0 || json_only(args@.skip(1)) is None,
        },
{
    if args.len() == 0 {
        None
    } else if args.len() == 1 {
        Some((args[0].clone(), false))
    } else if args.len() == 2 && same(args[1].as_str(), "--json") {
        Some((args[0].clone(), true))
    } else {
        None
    }
}

/// Parsed upgrade arguments.
#[derive(Clone, PartialEq, Eq, Debug)]
pub struct RemoteUpgradeArgs {
    /// Roll the whole fleet forward.
    pub all: bool,
    /// A configured name, or a bare ssh target.
    pub target: Option<String>,
    pub yes: bool,
    pub json: bool,
}

pub struct UpgradeModel {
    pub all: bool,
    pub target: Option<Seq<char>>,
    pub yes: bool,
    pub json: bool,
}

impl View for RemoteUpgradeArgs {
    type V = UpgradeModel;

    open spec fn view(&self) -> UpgradeModel {
        UpgradeModel {
            all: self.all,
            target: opt_view(self.target),
            yes: self.yes,
            json: self.json,
        }
    }
}

/// One argument after what was parsed before it.
pub open spec fn with_argument(p: UpgradeModel, arg: Seq<char>) -> Result<UpgradeModel, Seq<char>> {
    if arg == "--all"@ {
        Ok(UpgradeModel { all: true, ..p })
    } else if arg == "--yes"@ || arg == "-y"@ {
        Ok(UpgradeModel { yes: true, ..p })
    } else if arg == "--json"@ {
        Ok(UpgradeModel { json: true, ..p })
    } else if arg == "--help"@ || arg == "-h"@ {
        Err(UPGRADE_USAGE@)
    } else if arg.len() > 0 && arg[0] == '-' {
        Err("unknown option: "@ + arg + "\n"@ + UPGRADE_USAGE@)
    } else if p.target is Some {
        Err("unexpected argument: "@ + arg + "\n"@ + UPGRADE_USAGE@)
    } else {
        Ok(UpgradeModel { target: Some(arg), ..p })
    }
}

/// The first `n` arguments, up to the first that is refused.
pub open spec fn arguments(args: Seq<String>, n: int) -> Result<UpgradeModel, Seq<char>>
    decreases n,
{
    if n <= 0 {
        Ok(UpgradeModel { all: false, target: None, yes: false, json: false })
    } else {
        match arguments(args, n - 1) {
            Ok(p) => with_argument(p, args[n - 1]@),
            Err(e) => Err(e),
        }
    }
}

/// What upgrade arguments come to: one name or the whole fleet, never both
/// and never neither.
pub open spec fn upgrade_arguments(args: Seq<String>) -> Result<UpgradeModel, Seq<char>> {
    match arguments(args, args.len() as int) {
        Err(e) => Err(e),
        Ok(p) => if p.all && p.target is Some {
            Err("--all takes no remote name\n"@ + UPGRADE_USAGE@)
        } else if !p.all && p.target is None {
            Err(UPGRADE_USAGE@)
        } else {
            Ok(p)
        },
    }
}

proof fn arguments_stop(args: Seq<String>, k: int, n: int)
    requires
        0 <= k <= n,
        arguments(args, k) is Err,
    ensures
        arguments(args, n) == arguments(args, k),
    decreases n - k,
{
    if k < n {
        arguments_stop(args, k, n - 1);
    }
}

fn starts_with_dash(t: &str) -> (r: bool)
    ensures
        r == (t@.len() > 0 && t@[0] == '-'),
{
    !t.is_empty() && t.get_char(0) == '-'
}

/// Parses upgrade arguments.
pub fn parse_remote_upgrade_args(args: &[String]) -> (r: Result<RemoteUpgradeArgs, String>)
    ensures
        match r {
            Ok(p) => upgrade_arguments(args@) == Ok::<UpgradeModel, Seq<char>>(p@),
            Err(e) => upgrade_arguments(args@) == Err::<UpgradeModel, Seq<char>>(e@),
        },
{
    let mut p = RemoteUpgradeArgs { all: false, target: None, yes: false, json: false };
    let mut i: usize = 0;
    while i < args.len()
        invariant
            i <= args@.len(),
            arguments(args@, i as int) == Ok::<UpgradeModel, Seq<char>>(p@),
        decreases args@.len() - i,
    {
        let arg = args[i].as_str();
        if same(arg, "--all") {
            p.all = true;
        } else if same(arg, "--yes") || same(arg, "-y") {
            p.yes = true;
        } else if same(arg, "--json") {
            p.json = true;
        } else {
            let refusal: Option<String> = if same(arg, "--help") || same(arg, "-h") {
                Some(UPGRADE_USAGE.to_owned())
            } else if starts_with_dash(arg) {
                Some(
                    "unknown option: ".to_owned().concat(arg).concat("\n").concat(UPGRADE_USAGE),
                )
            } else if p.target.is_some() {
                Some(
                    "unexpected argument: ".to_owned().concat(arg).concat("\n").concat(
                        UPGRADE_USAGE,
                    ),
                )
            } else {
                None
            };
            if let Some(e) = refusal {
                proof {
                    arguments_stop(args@, i + 1, args@.len() as int);
                }
                return Err(e);
            }
            p.target = Some(arg.to_owned());
        }
        i = i + 1;
    }
    if p.all && p.target.is_some() {
        return Err("--all takes no remote name\n".to_owned().concat(UPGRADE_USAGE));
    }
    if !p.all && p.target.is_none() {
        return Err(UPGRADE_USAGE.to_owned());
    }
    Ok(p)
}

/// Accepted upgrade arguments name one remote or the whole fleet.
pub proof fn upgrades_name_one_or_all(args: Seq<String>)
    ensures
        upgrade_arguments(args) matches Ok(p) ==> (p.all <==> p.target is None),
{
}

/// Whether an upgrade may run: unattended, it has to say so.
pub fn upgrade_is_confirmed(parsed: &RemoteUpgradeArgs, interactive: bool) -> (r: bool)
    ensures
        r == (parsed.yes || interactive),
{
    parsed.yes || interactive
}

/// The upgrades of a list: every entry that is reached over ssh, disabled
/// ones included.
pub open spec fn all_targets(entries: Seq<RemoteEntry>) -> Seq<(Seq<char>, Seq<char>)>
    decreases entries.len(),
{
    if entries.len() == 0 {
        Seq::empty()
    } else {
        match entries.last().target {
            Some(t) => all_targets(entries.drop_last()).push((entries.last().name@, t@)),
            None => all_targets(entries.drop_last()),
        }
    }
}

/// The remotes an upgrade touches, as names and ssh targets. A name that is
/// not configured is a bare ssh target; a local runtime has none.
pub open spec fn targets_of(p: UpgradeModel, entries: Seq<RemoteEntry>) -> Seq<
    (Seq<char>, Seq<char>),
> {
    if p.all {
        all_targets(entries)
    } else {
        match p.target {
            None => Seq::empty(),
            Some(requested) => match first_match(entries, entry_named(requested)) {
                Some(e) => match e.target {
                    Some(t) => seq![(e.name@, t@)],
                    None => Seq::empty(),
                },
                None => seq![(requested, requested)],
            },
        }
    }
}

/// Pairs of texts as their characters.
pub open spec fn pairs(s: Seq<(String, String)>) -> Seq<(Seq<char>, Seq<char>)> {
    s.map_values(|p: (String, String)| (p.0@, p.1@))
}

/// The remotes an upgrade touches.
pub fn upgrade_targets(parsed: &RemoteUpgradeArgs, entries: &[RemoteEntry]) -> (r: Vec<
    (String, String),
>)
    ensures
        pairs(r@) == targets_of(parsed@, entries@),
{
    let mut out: Vec<(String, String)> = Vec::new();
    assert(pairs(out@) =~= Seq::empty());
    if parsed.all {
        let mut i: usize = 0;
        assert(entries@.take(0) =~= Seq::empty());
        while i < entries.len()
            invariant
                i <= entries@.len(),
                pairs(out@) == all_targets(entries@.take(i as int)),
            decreases entries@.len() - i,
        {
            let ghost was = out@;
            proof {
                assert(entries@.take(i + 1).drop_last() =~= entries@.take(i as int));
                assert(entries@.take(i + 1).last() == entries@[i as int]);
            }
            if let Some(t) = &entries[i].target {
                out.push((entries[i].name.clone(), t.clone()));
                assert(pairs(out@) =~= pairs(was).push((entries@[i as int].name@, t@)));
            }
            i = i + 1;
        }
        assert(entries@.take(i as int) =~= entries@);
        return out;
    }
    if let Some(requested) = &parsed.target {
        let i: usize = position(entries, requested.as_str());
        if i < entries.len() {
            if let Some(t) = &entries[i].target {
                out.push((entries[i].name.clone(), t.clone()));
                assert(pairs(out@) =~= seq![(entries@[i as int].name@, t@)]);
            }
        } else {
            out.push((requested.clone(), requested.clone()));
            assert(pairs(out@) =~= seq![(requested@, requested@)]);
        }
    }
    out
}

/// How the upgrade of one remote ended.
#[derive(Debug)]
pub enum UpgradeOutcome {
    Upgraded { action: String, from: String, to: String },
    /// Nothing was changed.
    Kept { action: String },
    Failed { error: String },
}

/// The record of one remote's upgrade.
pub open spec fn row_view(name: Seq<char>, target: Seq<char>, outcome: UpgradeOutcome) -> JsonView {
    let action = match outcome {
        UpgradeOutcome::Upgraded { action, .. } => action@,
        UpgradeOutcome::Kept { action } => action@,
        UpgradeOutcome::Failed { .. } => "failed"@,
    };
    JsonView::Object(
        seq![
            ("name"@, JsonView::Text(name)),
            ("target"@, JsonView::Text(target)),
            ("action"@, JsonView::Text(action)),
        ] + match outcome {
            UpgradeOutcome::Upgraded { from, to, .. } => seq![
                ("from"@, JsonView::Text(from@)),
                ("to"@, JsonView::Text(to@)),
            ],
            UpgradeOutcome::Kept { .. } => Seq::empty(),
            UpgradeOutcome::Failed { error } => seq![("error"@, JsonView::Text(error@))],
        },
    )
}

/// Records one remote's upgrade.
pub fn upgrade_row(name: &str, target: &str, outcome: &UpgradeOutcome) -> (r: Json)
    ensures
        r@ == row_view(name@, target@, *outcome),
{
    let action = match outcome {
        UpgradeOutcome::Upgraded { action, from: _, to: _ } => action.as_str(),
        UpgradeOutcome::Kept { action } => action.as_str(),
        UpgradeOutcome::Failed { error: _ } => "failed",
    };
    let m = with_member(no_members(), "name", Json::from_text(name));
    let m = with_member(m, "target", Json::from_text(target));
    let m = with_member(m, "action", Json::from_text(action));
    let ghost head = members_view(m@);
    let m = match outcome {
        UpgradeOutcome::Upgraded { action: _, from, to } => with_member(
            with_member(m, "from", Json::from_text(from.as_str())),
            "to",
            Json::from_text(to.as_str()),
        ),
        UpgradeOutcome::Kept { action: _ } => m,
        UpgradeOutcome::Failed { error } => with_member(
            m,
            "error",
            Json::from_text(error.as_str()),
        ),
    };
    proof {
        let expected = row_view(name@, target@, *outcome)->Object_0;
        assert(members_view(m@) =~= expected);
    }
    Json::object(m)
}

/// The exit code of an upgrade run: a failure never stops the others, but is
/// reported in the end.
pub fn upgrade_exit_code(failures: usize) -> (r: i32)
    ensures
        r == if failures > 0 {
            1i32
        } else {
            0
        },
{
    if failures > 0 {
        1
    } else {
        0
    }
}

/// The report of an upgrade run.
pub open spec fn report_view(version: Seq<char>, rows: Seq<JsonView>) -> JsonView {
    JsonView::Object(
        seq![
            ("id"@, JsonView::Text("cli:remote:upgrade"@)),
            (
                "result"@,
                JsonView::Object(
                    seq![
                        ("type"@, JsonView::Text("remote_upgrade"@)),
                        ("target_version"@, JsonView::Text(version)),
                        ("remotes"@, JsonView::Array(rows)),
                    ],
                ),
            ),
        ],
    )
}

/// The report of an upgrade run.
pub fn upgrade_report(version: &str, rows: Vec<Json>) -> (r: Json)
    ensures
        r@ == report_view(version@, items_view(rows@)),
{
    object2(
        "id",
        Json::from_text("cli:remote:upgrade"),
        "result",
        object3(
            "type",
            Json::from_text("remote_upgrade"),
            "target_version",
            Json::from_text(version),
            "remotes",
            Json::array(rows),
        ),
    )
}

/// So many spaces.
pub open spec fn spaces(n: nat) -> Seq<char> {
    Seq::new(n, |i: int| ' ')
}

/// A text filled up with spaces to a width.
pub open spec fn padded(t: Seq<char>, width: nat) -> Seq<char> {
    if t.len() < width {
        t + spaces((width - t.len()) as nat)
    } else {
        t
    }
}

fn pad(t: &str, width: usize) -> (r: String)
    ensures
        r@ == padded(t@, width as nat),
{
    let n: usize = t.unicode_len();
    let mut out = t.to_owned();
    let mut i: usize = n;
    while i < width
        invariant
            n == t@.len(),
            n <= i,
            n >= width ==> i == n,
            n < width ==> i <= width,
            out@ == t@ + spaces((i - n) as nat),
        decreases width - i,
    {
        let ghost was = out@;
        out.push(' ');
        i = i + 1;
        assert(out@ =~= t@ + spaces((i - n) as nat));
    }
    assert(n >= width ==> out@ =~= t@);
    out
}

/// The detail column: when the next retry is, and the last error.
pub open spec fn detail_of(v: JsonView) -> Seq<char> {
    let retry = match v.unsigned_field("retry_in_ms"@) {
        Some(ms) => "retry in "@ + decimal(((ms + 999) / 1000) as nat) + "s"@,
        None => Seq::empty(),
    };
    match v.text_field("last_error"@) {
        Some(e) => if retry.len() > 0 {
            retry + ": "@ + e
        } else {
            e
        },
        None => retry,
    }
}

fn detail_text(v: &Json) -> (r: String)
    ensures
        r@ == detail_of(v@),
{
    let retry = match v.unsigned_of("retry_in_ms") {
        Some(ms) => {
            let seconds: u64 = ((ms as u128 + 999) / 1000) as u64;
            "retry in ".to_owned().concat(decimal_text(seconds).as_str()).concat("s")
        },
        None => String::new(),
    };
    proof {
        reveal_strlit("retry in ");
        if v@.unsigned_field("retry_in_ms"@) is None {
            assert(retry@ =~= Seq::empty());
        }
    }
    match v.text_of("last_error") {
        Some(e) => {
            if retry.as_str().is_empty() {
                e.to_owned()
            } else {
                retry.concat(": ").concat(e)
            }
        },
        None => retry,
    }
}

pub open spec fn text_or(v: JsonView, key: Seq<char>, other: Seq<char>) -> Seq<char> {
    match v.text_field(key) {
        Some(t) => t,
        None => other,
    }
}

/// One line of the table. Missing texts show as a mark, a missing number as
/// zero, a missing flag as no.
pub open spec fn table_row(v: JsonView) -> Seq<char> {
    padded(
        decimal(
            match v.unsigned_field("index"@) {
                Some(n) => n as nat,
                None => 0,
            },
        ),
        4,
    ) + " "@ + padded(text_or(v, "name"@, "?"@), 20) + " "@ + padded(
        text_or(v, "state"@, "?"@),
        12,
    ) + " "@ + padded(text_or(v, "target"@, "-"@), 28) + " "@ + padded(
        text_or(v, "session"@, "-"@),
        16,
    ) + " "@ + padded(
        if v.field("enabled"@) matches Some(b) && b.boolean() == Some(true) {
            "yes"@
        } else {
            "no"@
        },
        8,
    ) + " "@ + detail_of(v)
}

fn text_field_or<'a>(v: &'a Json, key: &str, other: &'a str) -> (r: &'a str)
    ensures
        r@ == text_or(v@, key@, other@),
{
    match v.text_of(key) {
        Some(t) => t,
        None => other,
    }
}

/// One line of the table.
pub fn remote_table_row(v: &Json) -> (r: String)
    ensures
        r@ == table_row(v@),
{
    let index: u64 = match v.unsigned_of("index") {
        Some(n) => n,
        None => 0,
    };
    let enabled: bool = match v.get("enabled") {
        Some(b) => match b.as_bool() {
            Some(on) => on,
            None => false,
        },
        None => false,
    };
    let enabled_word = if enabled {
        "yes"
    } else {
        "no"
    };
    let number = decimal_text(index);
    pad(number.as_str(), 4).concat(" ").concat(
        pad(text_field_or(v, "name", "?"), 20).as_str(),
    ).concat(" ").concat(pad(text_field_or(v, "state", "?"), 12).as_str()).concat(" ").concat(
        pad(text_field_or(v, "target", "-"), 28).as_str(),
    ).concat(" ").concat(pad(text_field_or(v, "session", "-"), 16).as_str()).concat(" ").concat(
        pad(enabled_word, 8).as_str(),
    ).concat(" ").concat(detail_text(v).as_str())
}

/// The heading of the table.
pub fn remote_table_heading() -> (r: String)
    ensures
        r@ == padded("#"@, 4) + " "@ + padded("name"@, 20) + " "@ + padded("state"@, 12) + " "@
            + padded("target"@, 28) + " "@ + padded("session"@, 16) + " "@ + padded("enabled"@, 8)
            + " "@ + "detail"@,
{
    pad("#", 4).concat(" ").concat(pad("name", 20).as_str()).concat(" ").concat(
        pad("state", 12).as_str(),
    ).concat(" ").concat(pad("target", 28).as_str()).concat(" ").concat(
        pad("session", 16).as_str(),
    ).concat(" ").concat(pad("enabled", 8).as_str()).concat(" ").concat("detail")
}

/// The remotes of a list answer; none where there are none.
pub open spec fn listed(v: JsonView) -> Seq<JsonView> {
    match v.field("result"@) {
        Some(r) => match r.field("remotes"@) {
            Some(JsonView::Array(items)) => items,
            _ => Seq::empty(),
        },
        None => Seq::empty(),
    }
}

/// The lines of the table under its heading; an error answer has none.
pub fn remote_table(response: &Json) -> (r: Option<Vec<String>>)
    ensures
        match r {
            Some(lines) => response@.field("error"@) is None && crate::text::texts(lines@)
                == listed(response@).map_values(|v: JsonView| table_row(v)),
            None => response@.field("error"@) is Some,
        },
{
    if response.get("error").is_some() {
        return None;
    }
    let mut lines: Vec<String> = Vec::new();
    if let Some(result) = response.get("result") {
        if let Some(Json::Array(items)) = result.get("remotes") {
            proof {
                crate::json::array_view(*items);
            }
            let mut i: usize = 0;
            while i < items.len()
                invariant
                    i <= items@.len(),
                    lines@.len() == i,
                    forall|j: int|
                        0 <= j < i ==> (#[trigger] lines@[j])@ == table_row(items@[j]@),
                decreases items@.len() - i,
            {
                lines.push(remote_table_row(&items[i]));
                i = i + 1;
            }
            assert(crate::text::texts(lines@) =~= items_view(items@).map_values(
                |v: JsonView| table_row(v),
            ));
            return Some(lines);
        }
    }
    assert(crate::text::texts(lines@) =~= listed(response@).map_values(|v: JsonView| table_row(v)));
    Some(lines)
}

} // verus!
