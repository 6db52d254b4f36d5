use wasi_runtime::tty::{DefaultTty, TtyBridge, WasiTtyState};

#[test]
fn fresh_bridge_is_cleared() {
    let tty = DefaultTty::new();
    let s = tty.tty_get();
    assert_eq!(s, WasiTtyState { echo: false, line_buffered: false, line_feeds: false });
}

#[test]
fn default_state_is_cleared() {
    let s = WasiTtyState::default();
    assert!(!s.echo);
    assert!(!s.line_buffered);
    assert!(!s.line_feeds);
}

#[test]
fn set_then_get_round_trips() {
    let tty = DefaultTty::new();
    let written = WasiTtyState { echo: true, line_buffered: false, line_feeds: true };
    tty.tty_set(written);
    assert_eq!(tty.tty_get(), written);

    let written = WasiTtyState { echo: false, line_buffered: true, line_feeds: false };
    tty.tty_set(written);
    assert_eq!(tty.tty_get(), written);
}

#[test]
fn reset_clears_regardless_of_prior_state() {
    let tty = DefaultTty::new();
    tty.tty_set(WasiTtyState { echo: true, line_buffered: true, line_feeds: true });
    tty.reset();
    assert_eq!(
        tty.tty_get(),
        WasiTtyState { echo: false, line_buffered: false, line_feeds: false }
    );

    // Idempotent: resetting again changes nothing.
    tty.reset();
    assert_eq!(
        tty.tty_get(),
        WasiTtyState { echo: false, line_buffered: false, line_feeds: false }
    );
}

#[test]
fn bridges_are_independent() {
    let a = DefaultTty::new();
    let b = DefaultTty::new();
    a.tty_set(WasiTtyState { echo: true, line_buffered: true, line_feeds: false });
    assert_eq!(b.tty_get(), WasiTtyState { echo: false, line_buffered: false, line_feeds: false });
}
