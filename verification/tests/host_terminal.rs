use herdr_fleet::client::host_terminal::{
    plan_terminal_restore, plan_terminal_setup, should_enable_host_color_scheme_reports,
    should_query_host_terminal_theme, windows_virtual_terminal_input_mode,
    write_host_color_scheme_report_mode, write_host_terminal_theme_query,
    write_terminal_restore_postlude, write_win32_input_mode, TerminalStep,
    HOST_COLOR_SCHEME_REPORT_DISABLE_SEQUENCE, HOST_COLOR_SCHEME_REPORT_ENABLE_SEQUENCE,
    HOST_TERMINAL_THEME_QUERY,
};

#[test]
fn write_host_terminal_theme_query_emits_osc_queries() {
    let mut output = Vec::new();
    write_host_terminal_theme_query(&mut output);
    assert_eq!(output, HOST_TERMINAL_THEME_QUERY.as_bytes());
}

#[test]
fn write_host_color_scheme_report_mode_emits_mode_sequences() {
    let mut output = Vec::new();
    write_host_color_scheme_report_mode(&mut output, true);
    write_host_color_scheme_report_mode(&mut output, false);

    let mut expected = Vec::new();
    expected.extend_from_slice(HOST_COLOR_SCHEME_REPORT_ENABLE_SEQUENCE.as_bytes());
    expected.extend_from_slice(HOST_COLOR_SCHEME_REPORT_DISABLE_SEQUENCE.as_bytes());
    assert_eq!(output, expected);
    assert_eq!(output, b"\x1b[?2031h\x1b[?2031l");
}

#[test]
fn host_terminal_theme_query_is_disabled_on_windows() {
    for windows in [false, true] {
        assert_eq!(should_query_host_terminal_theme(windows), !windows);
    }
}

#[test]
fn color_scheme_reports_are_enabled_only_for_full_clients() {
    for windows in [false, true] {
        assert_eq!(
            should_enable_host_color_scheme_reports(true, windows),
            !windows
        );
        assert!(!should_enable_host_color_scheme_reports(false, windows));
    }
}

#[test]
fn terminal_restore_postlude_restores_visible_default_cursor() {
    let mut output = Vec::new();
    write_terminal_restore_postlude(&mut output, false);
    assert_eq!(output, b"\x1b[?25h\x1b[0 q");
}

#[test]
fn terminal_restore_postlude_disables_color_scheme_reports_when_enabled() {
    let mut output = Vec::new();
    write_terminal_restore_postlude(&mut output, true);

    let mut expected = Vec::new();
    expected.extend_from_slice(HOST_COLOR_SCHEME_REPORT_DISABLE_SEQUENCE.as_bytes());
    expected.extend_from_slice(b"\x1b[?25h\x1b[0 q");
    assert_eq!(output, expected);
}

#[test]
fn windows_virtual_terminal_input_mode_sets_only_vti_bit() {
    assert_eq!(windows_virtual_terminal_input_mode(0x01f0), 0x03f0);
    assert_eq!(windows_virtual_terminal_input_mode(0x03f0), 0x03f0);
}

#[test]
fn win32_input_mode_is_switched_by_its_own_sequences() {
    let mut output = Vec::new();
    write_win32_input_mode(&mut output, true);
    write_win32_input_mode(&mut output, false);
    assert_eq!(output, b"\x1b[?9001h\x1b[?9001l");
}

#[test]
fn a_full_client_takes_every_protocol_and_gives_it_back() {
    let setup = plan_terminal_setup(true, true, true, false);
    assert_eq!(
        setup,
        vec![
            TerminalStep::Screen(true),
            TerminalStep::ClearMouseReporting,
            TerminalStep::ClearMouseReporting,
            TerminalStep::MouseCapture(true),
            TerminalStep::PasteAndFocus(true),
            TerminalStep::ColorSchemeReports(true),
            TerminalStep::KeyboardFlags(true),
            TerminalStep::ModifyOtherKeys(true),
            TerminalStep::LineWrap(false),
        ]
    );
    let restore = plan_terminal_restore(true, true);
    assert_eq!(
        restore[..2],
        [TerminalStep::ClearGraphics, TerminalStep::ModifyOtherKeys(false)]
    );
    assert!(restore.contains(&TerminalStep::KeyboardFlags(false)));
    assert!(restore.contains(&TerminalStep::ColorSchemeReports(false)));
    assert_eq!(restore.last(), Some(&TerminalStep::Cursor));
}

#[test]
fn a_direct_attach_takes_the_mouse_and_no_reports() {
    let setup = plan_terminal_setup(false, true, true, false);
    assert_eq!(
        setup,
        vec![
            TerminalStep::Screen(true),
            TerminalStep::ClearMouseReporting,
            TerminalStep::ColorSchemeReports(false),
            TerminalStep::ClearMouseReporting,
            TerminalStep::MouseCapture(true),
            TerminalStep::LineWrap(false),
        ]
    );
    assert!(!plan_terminal_restore(false, false).contains(&TerminalStep::ColorSchemeReports(false)));
}
