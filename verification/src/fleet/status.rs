//! Status lines of remotes that are not connected.
use crate::protocol::framed::{HelloRemedy, SERVER_STOPPING_REASON_EMPTY};
use crate::text::same;
use vstd::prelude::*;
use vstd::string::*;

verus! {

/// The program's name.
pub const BRAND: &'static str = "herdr";

/// The line for a remote that has no running server.
pub open spec fn stopped_line(name: Seq<char>) -> Seq<char> {
    name + ": no server running; start it with `herdr remote start "@ + name + "`"@
}

/// The line for a remote that has no running server.
pub fn stopped_status_line(name: &str) -> (r: String)
    ensures
        r@ == stopped_line(name@),
{
    name.to_owned().concat(": no server running; start it with `herdr remote start ").concat(
        name,
    ).concat("`")
}

/// The line for a server that announced its stop. A reason that is not known
/// counts as a requested stop.
pub open spec fn announced_line(name: Seq<char>, reason: Seq<char>) -> Seq<char> {
    if reason == SERVER_STOPPING_REASON_EMPTY@ {
        name + ": server stopped, no panes left"@
    } else {
        name + ": server stopped by request"@
    }
}

/// The line for a server that announced its stop.
pub fn announced_stop_status_line(name: &str, reason: &str) -> (r: String)
    ensures
        r@ == announced_line(name@, reason@),
{
    if same(reason, SERVER_STOPPING_REASON_EMPTY) {
        name.to_owned().concat(": server stopped, no panes left")
    } else {
        name.to_owned().concat(": server stopped by request")
    }
}

/// The line for a remote whose version window does not overlap ours: it names
/// the remote, the server's own words and the exact fix.
pub open spec fn incompatible_line(
    name: Seq<char>,
    is_local: bool,
    remedy: HelloRemedy,
    message: Seq<char>,
) -> Seq<char> {
    name + ": "@ + message + match remedy {
        HelloRemedy::UpgradeClient => "; upgrade this herdr client"@,
        HelloRemedy::UpgradeServer => if is_local {
            "; restart the local herdr server"@
        } else {
            "; run `herdr remote upgrade "@ + name + "`"@
        },
    }
}

/// The line for a remote whose version window does not overlap ours.
pub fn incompatible_status_line(name: &str, is_local: bool, remedy: HelloRemedy, message: &str)
    -> (r: String)
    ensures
        r@ == incompatible_line(name@, is_local, remedy, message@),
{
    let head = name.to_owned().concat(": ").concat(message);
    match remedy {
        HelloRemedy::UpgradeClient => head.concat("; upgrade this herdr client"),
        HelloRemedy::UpgradeServer => {
            if is_local {
                head.concat("; restart the local herdr server")
            } else {
                let fix = "; run `herdr remote upgrade ".to_owned().concat(name).concat("`");
                head.concat(fix.as_str())
            }
        },
    }
}

} // verus!
