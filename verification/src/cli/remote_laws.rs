//! What the remote commands make of their words, and what they print.
use crate::cli::remote::{
    all_targets, arguments, command_named, detail_of, json_only, listed, padded, report_view,
    row_view, table_row, targets_of, upgrade_arguments, with_argument, UpgradeModel, UpgradeOutcome,
};
use crate::fleet::config::{entry_named, RemoteEntry};
use crate::json::JsonView;
use crate::protocol::wire_shapes::{named_from, named_is_found};
use crate::seqs::first_index_is;
use crate::text::decimal;
use vstd::prelude::*;

verus! {

/// Each command has its word; help has three; anything else shows the usage.
pub proof fn words_are_commands(word: Seq<char>)
    ensures
        command_named(Some(word)) is List <==> word == "list"@,
        command_named(Some(word)) is Reset <==> word == "reset"@,
        command_named(Some(word)) is Reload <==> word == "reload"@,
        command_named(Some(word)) is Upgrade <==> word == "upgrade"@,
        command_named(Some(word)) is Help <==> word == "help"@ || word == "--help"@ || word == "-h"@,
        command_named(None) is Usage,
{
    reveal_strlit("list");
    reveal_strlit("reset");
    reveal_strlit("reload");
    reveal_strlit("upgrade");
    reveal_strlit("help");
    reveal_strlit("--help");
    reveal_strlit("-h");
    assert("list"@.len() == 4);
    assert("reset"@.len() == 5);
    assert("reload"@.len() == 6);
    assert("upgrade"@.len() == 7);
    assert("help"@.len() == 4);
    assert("--help"@.len() == 6);
    assert("-h"@.len() == 2);
    assert("list"@[0] != "help"@[0]);
    assert("reload"@[0] != "--help"@[0]);
}

/// Each option of an upgrade sets its own flag and nothing else; a word that
/// is no option is the target, once.
pub proof fn options_set_their_flag(p: UpgradeModel, word: Seq<char>)
    ensures
        with_argument(p, "--all"@) == Ok::<UpgradeModel, Seq<char>>(UpgradeModel { all: true, ..p }),
        with_argument(p, "--yes"@) == Ok::<UpgradeModel, Seq<char>>(UpgradeModel { yes: true, ..p }),
        with_argument(p, "-y"@) == Ok::<UpgradeModel, Seq<char>>(UpgradeModel { yes: true, ..p }),
        with_argument(p, "--json"@) == Ok::<UpgradeModel, Seq<char>>(
            UpgradeModel { json: true, ..p },
        ),
        with_argument(p, "--help"@) is Err && with_argument(p, "-h"@) is Err,
        (word.len() == 0 || word[0] != '-') && p.target is None ==> with_argument(p, word) == Ok::<
            UpgradeModel,
            Seq<char>,
        >(UpgradeModel { target: Some(word), ..p }),
        (word.len() == 0 || word[0] != '-') && p.target is Some ==> (with_argument(
            p,
            word,
        ) matches Err(e) && e == "unexpected argument: "@ + word + "\n"@
            + "usage: herdr remote upgrade <name-or-target> | --all [--yes] [--json]"@),
        word.len() > 0 && word[0] == '-' && word != "--all"@ && word != "--yes"@ && word != "-y"@
            && word != "--json"@ && word != "--help"@ && word != "-h"@ ==> (with_argument(
            p,
            word,
        ) matches Err(e) && e == "unknown option: "@ + word + "\n"@
            + "usage: herdr remote upgrade <name-or-target> | --all [--yes] [--json]"@),
{
    reveal_strlit("--all");
    reveal_strlit("--yes");
    reveal_strlit("-y");
    reveal_strlit("--json");
    reveal_strlit("--help");
    reveal_strlit("-h");
    assert("--all"@.len() == 5);
    assert("--yes"@.len() == 5);
    assert("-y"@.len() == 2);
    assert("--json"@.len() == 6);
    assert("--help"@.len() == 6);
    assert("-h"@.len() == 2);
    assert("--all"@[2] != "--yes"@[2]);
    assert("-y"@[1] != "-h"@[1]);
    assert("--json"@[2] != "--help"@[2]);
}

/// Arguments are taken one after the other, from nothing set; a run names one
/// remote or all of them.
pub proof fn arguments_are_taken_in_turn(args: Seq<String>, n: int)
    ensures
        arguments(args, 0) == Ok::<UpgradeModel, Seq<char>>(
            UpgradeModel { all: false, target: None, yes: false, json: false },
        ),
        0 < n <= args.len() && arguments(args, n - 1) is Ok ==> arguments(args, n) == with_argument(
            arguments(args, n - 1)->Ok_0,
            args[n - 1]@,
        ),
        upgrade_arguments(args) matches Ok(p) ==> (p.all <==> p.target is None) && arguments(
            args,
            args.len() as int,
        ) == Ok::<UpgradeModel, Seq<char>>(p),
        (arguments(args, args.len() as int) matches Ok(p) && p.all && p.target is Some) ==> (
        upgrade_arguments(args) matches Err(e) && e == "--all takes no remote name\n"@
            + "usage: herdr remote upgrade <name-or-target> | --all [--yes] [--json]"@),
        (arguments(args, args.len() as int) matches Ok(p) && !p.all && p.target is None) ==> (
        upgrade_arguments(args) matches Err(e) && e
            == "usage: herdr remote upgrade <name-or-target> | --all [--yes] [--json]"@),
{
}

/// `--json` alone, nothing, or too much.
pub proof fn json_may_stand_alone(args: Seq<String>)
    ensures
        json_only(args) == Some(true) <==> args.len() == 1 && args[0]@ == "--json"@,
        json_only(args) == Some(false) <==> args.len() == 0,
{
}

/// An upgrade of all touches exactly the entries that have a target, each
/// under its name.
pub proof fn all_remotes_are_upgraded(entries: Seq<RemoteEntry>, last: RemoteEntry)
    ensures
        ({
            let r = all_targets(entries.push(last));
            &&& last.target matches Some(t) ==> r == all_targets(entries).push((last.name@, t@))
            &&& last.target is None ==> r == all_targets(entries)
        }),
        all_targets(Seq::empty()).len() == 0,
        targets_of(
            UpgradeModel { all: true, target: None, yes: true, json: false },
            entries,
        ) == all_targets(entries),
{
    assert(entries.push(last).drop_last() =~= entries);
}

/// An upgrade of one touches the configured remote of that name at its own
/// target; a name that is not configured is itself the target.
pub proof fn one_remote_is_upgraded(
    p: UpgradeModel,
    entries: Seq<RemoteEntry>,
    name: Seq<char>,
    at: int,
)
    requires
        !p.all,
        p.target == Some(name),
    ensures
        0 <= at < entries.len() && entries[at].name@ == name && (forall|j: int|
            0 <= j < at ==> (#[trigger] entries[j]).name@ != name) ==> {
            &&& entries[at].target matches Some(t) ==> targets_of(p, entries).len() == 1
                && targets_of(p, entries)[0] == (name, t@)
            &&& entries[at].target is None ==> targets_of(p, entries).len() == 0
        },
        (forall|j: int| 0 <= j < entries.len() ==> (#[trigger] entries[j]).name@ != name)
            ==> targets_of(p, entries).len() == 1 && targets_of(p, entries)[0] == (name, name),
{
    if 0 <= at < entries.len() && entries[at].name@ == name && (forall|j: int|
        0 <= j < at ==> (#[trigger] entries[j]).name@ != name) {
        first_index_is(entries, entry_named(name), at);
    }
    if forall|j: int| 0 <= j < entries.len() ==> (#[trigger] entries[j]).name@ != name {
        first_index_is(entries, entry_named(name), entries.len() as int);
    }
}

/// The record of an upgrade names the remote and what was done, from which
/// version to which, or the error.
pub proof fn upgrades_are_recorded(name: Seq<char>, target: Seq<char>, outcome: UpgradeOutcome)
    ensures
        ({
            let r = row_view(name, target, outcome);
            &&& r.field("name"@) == Some(JsonView::Text(name))
            &&& r.field("target"@) == Some(JsonView::Text(target))
            &&& outcome matches UpgradeOutcome::Upgraded { action, from, to } ==> r.field(
                "action"@,
            ) == Some(JsonView::Text(action@)) && r.field("from"@) == Some(JsonView::Text(from@))
                && r.field("to"@) == Some(JsonView::Text(to@)) && r.field("error"@) is None
            &&& outcome matches UpgradeOutcome::Kept { action } ==> r.field("action"@) == Some(
                JsonView::Text(action@),
            ) && r.field("from"@) is None && r.field("error"@) is None
            &&& outcome matches UpgradeOutcome::Failed { error } ==> r.field("action"@) == Some(
                JsonView::Text("failed"@),
            ) && r.field("error"@) == Some(JsonView::Text(error@)) && r.field("to"@) is None
        }),
{
    let members = row_view(name, target, outcome)->Object_0;
    reveal_with_fuel(named_from, 7);
    reveal_strlit("name");
    reveal_strlit("target");
    reveal_strlit("action");
    reveal_strlit("from");
    reveal_strlit("to");
    reveal_strlit("error");
    assert("name"@.len() == 4);
    assert("target"@.len() == 6);
    assert("action"@.len() == 6);
    assert("from"@.len() == 4);
    assert("to"@.len() == 2);
    assert("error"@.len() == 5);
    assert("name"@[0] != "from"@[0]);
    assert("target"@[0] != "action"@[0]);
    named_is_found(members, 0, "name"@);
    named_is_found(members, 0, "target"@);
    named_is_found(members, 0, "action"@);
    named_is_found(members, 0, "from"@);
    named_is_found(members, 0, "to"@);
    named_is_found(members, 0, "error"@);
}

/// The report of a run names the version it upgraded to and lists every
/// record.
pub proof fn runs_are_reported(version: Seq<char>, rows: Seq<JsonView>)
    ensures
        ({
            let r = report_view(version, rows);
            &&& r.field("id"@) == Some(JsonView::Text("cli:remote:upgrade"@))
            &&& r.field("result"@) matches Some(v) && v.field("type"@) == Some(
                JsonView::Text("remote_upgrade"@),
            ) && v.field("target_version"@) == Some(JsonView::Text(version)) && v.field("remotes"@)
                == Some(JsonView::Array(rows))
        }),
{
    let members = report_view(version, rows)->Object_0;
    let result = members[1].1->Object_0;
    reveal_with_fuel(named_from, 5);
    reveal_strlit("id");
    reveal_strlit("result");
    reveal_strlit("type");
    reveal_strlit("target_version");
    reveal_strlit("remotes");
    assert("id"@.len() == 2);
    assert("result"@.len() == 6);
    assert("type"@.len() == 4);
    assert("target_version"@.len() == 14);
    assert("remotes"@.len() == 7);
    named_is_found(members, 0, "id"@);
    named_is_found(members, 0, "result"@);
    named_is_found(result, 0, "type"@);
    named_is_found(result, 0, "target_version"@);
    named_is_found(result, 0, "remotes"@);
}

/// A cell is its text, filled up with blanks behind it to the width.
pub proof fn cells_are_filled_up(t: Seq<char>, width: nat, i: int)
    ensures
        padded(t, width).len() == if t.len() < width {
            width
        } else {
            t.len()
        },
        padded(t, width).take(t.len() as int) == t,
        t.len() <= i < padded(t, width).len() ==> padded(t, width)[i] == ' ',
{
    assert(padded(t, width).take(t.len() as int) =~= t);
}

/// The detail column says how long until the next retry, in seconds rounded
/// up, and the last error behind it.
pub proof fn details_say_retry_and_error(v: JsonView, ms: u64, error: Seq<char>)
    requires
        ms <= u64::MAX - 999,
    ensures
        v.field("retry_in_ms"@) is None && v.field("last_error"@) is None ==> detail_of(v).len()
            == 0,
        v.field("retry_in_ms"@) is None && v.field("last_error"@) == Some(JsonView::Text(error))
            ==> detail_of(v) == error,
        v.field("retry_in_ms"@) == Some(JsonView::Unsigned(ms)) && v.field("last_error"@) is None
            ==> detail_of(v) == "retry in "@ + decimal(((ms + 999) / 1000) as nat) + "s"@,
        v.field("retry_in_ms"@) == Some(JsonView::Unsigned(ms)) && v.field("last_error"@) == Some(
            JsonView::Text(error),
        ) ==> detail_of(v) == "retry in "@ + decimal(((ms + 999) / 1000) as nat) + "s"@ + ": "@
            + error,
{
    reveal_strlit("retry in ");
}

/// A line of the table: number, name, state, target, session and whether it
/// is enabled, each in its column, then the detail.
pub proof fn lines_show_their_remote(
    v: JsonView,
    index: u64,
    name: Seq<char>,
    state: Seq<char>,
    target: Seq<char>,
    session: Seq<char>,
    enabled: bool,
)
    requires
        v.field("index"@) == Some(JsonView::Unsigned(index)),
        v.field("name"@) == Some(JsonView::Text(name)),
        v.field("state"@) == Some(JsonView::Text(state)),
        v.field("target"@) == Some(JsonView::Text(target)),
        v.field("session"@) == Some(JsonView::Text(session)),
        v.field("enabled"@) == Some(JsonView::Bool(enabled)),
    ensures
        table_row(v) == padded(decimal(index as nat), 4) + " "@ + padded(name, 20) + " "@ + padded(
            state,
            12,
        ) + " "@ + padded(target, 28) + " "@ + padded(session, 16) + " "@ + padded(
            if enabled {
                "yes"@
            } else {
                "no"@
            },
            8,
        ) + " "@ + detail_of(v),
{
}

/// A list answer lists what stands under its result's remotes.
pub proof fn answers_list_their_remotes(v: JsonView, r: JsonView, items: Seq<JsonView>)
    requires
        v.field("result"@) == Some(r),
        r.field("remotes"@) == Some(JsonView::Array(items)),
    ensures
        listed(v) == items,
{
}

} // verus!
