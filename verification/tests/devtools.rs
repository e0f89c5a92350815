use hermes_shell::devtools::{toggle_debug_panel, PanelAction};

#[test]
fn toggle_without_debug_tools_fails_with_message() {
    for is_open in [false, true] {
        let outcome = toggle_debug_panel(false, is_open);
        assert_eq!(
            outcome,
            Err("DevTools are disabled in this build. Rebuild with --features debug-tools."
                .to_string())
        );
    }
}

#[test]
fn disabled_message_says_disabled() {
    let message = toggle_debug_panel(false, false).unwrap_err();
    assert!(message.contains("disabled in this build"));
}

#[test]
fn toggle_opens_a_closed_panel() {
    assert_eq!(toggle_debug_panel(true, false), Ok(PanelAction::Open));
}

#[test]
fn toggle_closes_an_open_panel() {
    assert_eq!(toggle_debug_panel(true, true), Ok(PanelAction::Close));
}

#[test]
fn toggle_twice_restores_the_panel() {
    for start in [false, true] {
        let mut is_open = start;
        for _ in 0..2 {
            is_open = match toggle_debug_panel(true, is_open) {
                Ok(PanelAction::Open) => true,
                Ok(PanelAction::Close) => false,
                Err(message) => panic!("{}", message),
            };
        }
        assert_eq!(is_open, start);
    }
}
