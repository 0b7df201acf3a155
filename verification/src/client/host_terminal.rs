//! What a client writes to take the host terminal over, and to hand it back
//! as it found it.
use vstd::prelude::*;
use vstd::string::*;
use vstd::utf8::encode_utf8;

verus! {

/// Turns reports of the host's colour scheme on.
pub const HOST_COLOR_SCHEME_REPORT_ENABLE_SEQUENCE: &'static str = "\x1b[?2031h";

/// Turns reports of the host's colour scheme off.
pub const HOST_COLOR_SCHEME_REPORT_DISABLE_SEQUENCE: &'static str = "\x1b[?2031l";

/// Asks the host for its foreground and background colours.
pub const HOST_TERMINAL_THEME_QUERY: &'static str = "\x1b]10;?\x1b\\\x1b]11;?\x1b\\";

/// Shows the cursor in the terminal's default shape.
pub const CURSOR_RESTORE_SEQUENCE: &'static str = "\x1b[?25h\x1b[0 q";

/// Resets the reporting of modified keys.
pub const MODIFY_OTHER_KEYS_RESET_SEQUENCE: &'static str = "\x1b[>4;0m";

/// Turns the console's own key records on.
pub const WIN32_INPUT_ENABLE_SEQUENCE: &'static str = "\x1b[?9001h";

/// Turns the console's own key records off.
pub const WIN32_INPUT_DISABLE_SEQUENCE: &'static str = "\x1b[?9001l";

/// The console mode bit for virtual terminal input.
pub const VIRTUAL_TERMINAL_INPUT_BIT: u32 = 0x0200;

/// A text on the wire.
pub open spec fn wire(t: Seq<char>) -> Seq<u8> {
    encode_utf8(t)
}

fn write_text(out: &mut Vec<u8>, t: &str)
    ensures
        final(out)@ == old(out)@ + wire(t@),
{
    let ghost before = out@;
    out.extend_from_slice(t.as_bytes());
    assert(out@ =~= before + wire(t@));
}

/// The host theme is not queried on Windows.
pub fn should_query_host_terminal_theme(windows: bool) -> (r: bool)
    ensures
        r == !windows,
{
    !windows
}

/// Colour scheme reports are for full clients on hosts that answer queries.
pub fn should_enable_host_color_scheme_reports(enable_client_protocols: bool, windows: bool) -> (r:
    bool)
    ensures
        r == (enable_client_protocols && !windows),
{
    enable_client_protocols && should_query_host_terminal_theme(windows)
}

/// Writes the query for the host theme.
pub fn write_host_terminal_theme_query(out: &mut Vec<u8>)
    ensures
        final(out)@ == old(out)@ + wire(HOST_TERMINAL_THEME_QUERY@),
{
    write_text(out, HOST_TERMINAL_THEME_QUERY);
}

/// Writes the switch for colour scheme reports.
pub fn write_host_color_scheme_report_mode(out: &mut Vec<u8>, enabled: bool)
    ensures
        final(out)@ == old(out)@ + wire(
            if enabled {
                HOST_COLOR_SCHEME_REPORT_ENABLE_SEQUENCE@
            } else {
                HOST_COLOR_SCHEME_REPORT_DISABLE_SEQUENCE@
            },
        ),
{
    if enabled {
        write_text(out, HOST_COLOR_SCHEME_REPORT_ENABLE_SEQUENCE);
    } else {
        write_text(out, HOST_COLOR_SCHEME_REPORT_DISABLE_SEQUENCE);
    }
}

/// Writes what ends a restore: reports off if they were on, then a visible
/// cursor in its default shape.
pub fn write_terminal_restore_postlude(out: &mut Vec<u8>, reset_host_color_scheme_reports: bool)
    ensures
        final(out)@ == old(out)@ + (if reset_host_color_scheme_reports {
            wire(HOST_COLOR_SCHEME_REPORT_DISABLE_SEQUENCE@)
        } else {
            Seq::empty()
        }) + wire(CURSOR_RESTORE_SEQUENCE@),
{
    let ghost before = out@;
    if reset_host_color_scheme_reports {
        write_text(out, HOST_COLOR_SCHEME_REPORT_DISABLE_SEQUENCE);
    }
    write_text(out, CURSOR_RESTORE_SEQUENCE);
    assert(out@ =~= before + (if reset_host_color_scheme_reports {
        wire(HOST_COLOR_SCHEME_REPORT_DISABLE_SEQUENCE@)
    } else {
        Seq::empty()
    }) + wire(CURSOR_RESTORE_SEQUENCE@));
}

/// Writes the switch for the console's own key records.
pub fn write_win32_input_mode(out: &mut Vec<u8>, enabled: bool)
    ensures
        final(out)@ == old(out)@ + wire(
            if enabled {
                WIN32_INPUT_ENABLE_SEQUENCE@
            } else {
                WIN32_INPUT_DISABLE_SEQUENCE@
            },
        ),
{
    if enabled {
        write_text(out, WIN32_INPUT_ENABLE_SEQUENCE);
    } else {
        write_text(out, WIN32_INPUT_DISABLE_SEQUENCE);
    }
}

/// A console mode with virtual terminal input, and all else as it was.
pub fn windows_virtual_terminal_input_mode(mode: u32) -> (r: u32)
    ensures
        r == mode | VIRTUAL_TERMINAL_INPUT_BIT,
        r & VIRTUAL_TERMINAL_INPUT_BIT == VIRTUAL_TERMINAL_INPUT_BIT,
        r & !VIRTUAL_TERMINAL_INPUT_BIT == mode & !VIRTUAL_TERMINAL_INPUT_BIT,
{
    let r: u32 = mode | 0x0200;
    assert(r & 0x0200 == 0x0200 && r & !0x0200u32 == mode & !0x0200u32) by (bit_vector)
        requires
            r == mode | 0x0200,
    ;
    r
}

/// One step of taking the host terminal over, or of handing it back.
#[derive(Clone, Copy, PartialEq, Eq, Structural, Debug)]
pub enum TerminalStep {
    /// Raw mode and the alternate screen.
    Screen(bool),
    ClearMouseReporting,
    /// Images that were drawn.
    ClearGraphics,
    MouseCapture(bool),
    /// Bracketed paste and focus reports.
    PasteAndFocus(bool),
    ColorSchemeReports(bool),
    KeyboardFlags(bool),
    /// Reports of modified keys, where the host wants them.
    ModifyOtherKeys(bool),
    LineWrap(bool),
    /// A visible cursor in its default shape.
    Cursor,
}

/// The steps that take the terminal over. A full client gets every protocol;
/// a direct attach gets the mouse, and turns colour scheme reports off.
pub open spec fn setup_steps(
    full_client: bool,
    mouse: bool,
    modify_other_keys: bool,
    windows: bool,
) -> Seq<TerminalStep> {
    seq![TerminalStep::Screen(true), TerminalStep::ClearMouseReporting] + (if full_client {
        seq![
            TerminalStep::ClearMouseReporting,
            TerminalStep::MouseCapture(mouse),
            TerminalStep::PasteAndFocus(true),
        ] + (if windows {
            seq![]
        } else {
            seq![TerminalStep::ColorSchemeReports(true)]
        }) + seq![TerminalStep::KeyboardFlags(true)] + (if modify_other_keys {
            seq![TerminalStep::ModifyOtherKeys(true)]
        } else {
            seq![]
        })
    } else {
        (if windows {
            seq![]
        } else {
            seq![TerminalStep::ColorSchemeReports(false)]
        }) + seq![TerminalStep::ClearMouseReporting, TerminalStep::MouseCapture(mouse)]
    }) + seq![TerminalStep::LineWrap(false)]
}

/// Plans taking the terminal over.
pub fn plan_terminal_setup(
    full_client: bool,
    mouse_capture: bool,
    modify_other_keys: bool,
    windows: bool,
) -> (r: Vec<TerminalStep>)
    ensures
        r@ == setup_steps(full_client, mouse_capture, modify_other_keys, windows),
{
    let mut steps: Vec<TerminalStep> = Vec::new();
    steps.push(TerminalStep::Screen(true));
    steps.push(TerminalStep::ClearMouseReporting);
    if full_client {
        steps.push(TerminalStep::ClearMouseReporting);
        steps.push(TerminalStep::MouseCapture(mouse_capture));
        steps.push(TerminalStep::PasteAndFocus(true));
        if should_enable_host_color_scheme_reports(full_client, windows) {
            steps.push(TerminalStep::ColorSchemeReports(true));
        }
        steps.push(TerminalStep::KeyboardFlags(true));
        if modify_other_keys {
            steps.push(TerminalStep::ModifyOtherKeys(true));
        }
    } else {
        if should_query_host_terminal_theme(windows) {
            steps.push(TerminalStep::ColorSchemeReports(false));
        }
        steps.push(TerminalStep::ClearMouseReporting);
        steps.push(TerminalStep::MouseCapture(mouse_capture));
    }
    steps.push(TerminalStep::LineWrap(false));
    assert(steps@ =~= setup_steps(full_client, mouse_capture, modify_other_keys, windows));
    steps
}

/// The steps that hand the terminal back.
pub open spec fn restore_steps(reset_modify_other_keys: bool, reset_reports: bool) -> Seq<
    TerminalStep,
> {
    seq![TerminalStep::ClearGraphics] + (if reset_modify_other_keys {
        seq![TerminalStep::ModifyOtherKeys(false)]
    } else {
        seq![]
    }) + seq![
        TerminalStep::KeyboardFlags(false),
        TerminalStep::LineWrap(true),
        TerminalStep::PasteAndFocus(false),
        TerminalStep::MouseCapture(false),
        TerminalStep::ClearMouseReporting,
        TerminalStep::Screen(false),
    ] + (if reset_reports {
        seq![TerminalStep::ColorSchemeReports(false)]
    } else {
        seq![]
    }) + seq![TerminalStep::Cursor]
}

/// Plans handing the terminal back.
pub fn plan_terminal_restore(reset_modify_other_keys: bool, reset_host_color_scheme_reports: bool)
    -> (r: Vec<TerminalStep>)
    ensures
        r@ == restore_steps(reset_modify_other_keys, reset_host_color_scheme_reports),
{
    let mut steps: Vec<TerminalStep> = Vec::new();
    steps.push(TerminalStep::ClearGraphics);
    if reset_modify_other_keys {
        steps.push(TerminalStep::ModifyOtherKeys(false));
    }
    steps.push(TerminalStep::KeyboardFlags(false));
    steps.push(TerminalStep::LineWrap(true));
    steps.push(TerminalStep::PasteAndFocus(false));
    steps.push(TerminalStep::MouseCapture(false));
    steps.push(TerminalStep::ClearMouseReporting);
    steps.push(TerminalStep::Screen(false));
    if reset_host_color_scheme_reports {
        steps.push(TerminalStep::ColorSchemeReports(false));
    }
    steps.push(TerminalStep::Cursor);
    assert(steps@ =~= restore_steps(reset_modify_other_keys, reset_host_color_scheme_reports));
    steps
}

/// The step that undoes a step, where it needs undoing.
pub open spec fn undoing(step: TerminalStep) -> Option<TerminalStep> {
    match step {
        TerminalStep::Screen(true) => Some(TerminalStep::Screen(false)),
        TerminalStep::MouseCapture(true) => Some(TerminalStep::MouseCapture(false)),
        TerminalStep::PasteAndFocus(true) => Some(TerminalStep::PasteAndFocus(false)),
        TerminalStep::ColorSchemeReports(true) => Some(TerminalStep::ColorSchemeReports(false)),
        TerminalStep::KeyboardFlags(true) => Some(TerminalStep::KeyboardFlags(false)),
        TerminalStep::ModifyOtherKeys(true) => Some(TerminalStep::ModifyOtherKeys(false)),
        TerminalStep::LineWrap(false) => Some(TerminalStep::LineWrap(true)),
        _ => None,
    }
}

/// Whatever setup turned on, restore turns off.
pub proof fn restore_undoes_setup(
    full_client: bool,
    mouse: bool,
    modify_other_keys: bool,
    windows: bool,
    i: int,
)
    requires
        0 <= i < setup_steps(full_client, mouse, modify_other_keys, windows).len(),
    ensures
        undoing(setup_steps(full_client, mouse, modify_other_keys, windows)[i]) matches Some(u)
            ==> restore_steps(
            full_client && modify_other_keys,
            full_client && !windows,
        ).contains(u),
{
    let back = restore_steps(full_client && modify_other_keys, full_client && !windows);
    let k: int = if full_client && modify_other_keys {
        2
    } else {
        1
    };
    if k == 2 {
        assert(back[1] == TerminalStep::ModifyOtherKeys(false));
    }
    assert(back[k] == TerminalStep::KeyboardFlags(false));
    assert(back[k + 1] == TerminalStep::LineWrap(true));
    assert(back[k + 2] == TerminalStep::PasteAndFocus(false));
    assert(back[k + 3] == TerminalStep::MouseCapture(false));
    assert(back[k + 5] == TerminalStep::Screen(false));
    if full_client && !windows {
        assert(back[k + 6] == TerminalStep::ColorSchemeReports(false));
    }
}

} // verus!
