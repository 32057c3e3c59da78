use libtorrent_rasterbar::flags::{AUTO_MANAGED, GRACEFUL_PAUSE};
use libtorrent_rasterbar::handle::{pause_commands, resume_commands, HandleCommand};

/// The flag word after the flag writes of a plan, as libtorrent documents
/// `set_flags` and `unset_flags`.
fn apply(flags: u64, plan: &[HandleCommand]) -> u64 {
    let mut f = flags;
    for c in plan {
        match c {
            HandleCommand::SetFlags(s) => f |= s,
            HandleCommand::UnsetFlags(u) => f &= !u,
            HandleCommand::Pause(_) => {}
        }
    }
    f
}

#[test]
fn flag_values_match_libtorrent() {
    assert_eq!(AUTO_MANAGED, 1u64 << 5);
    assert_eq!(GRACEFUL_PAUSE, 1u8);
}

#[test]
fn pause_on_valid_handle_unmanages_then_pauses_gracefully() {
    let plan = pause_commands(true);
    assert_eq!(plan, vec![HandleCommand::UnsetFlags(0x20), HandleCommand::Pause(1)]);
}

#[test]
fn pause_on_invalid_handle_does_nothing() {
    assert!(pause_commands(false).is_empty());
}

#[test]
fn resume_on_valid_handle_makes_it_auto_managed() {
    assert_eq!(resume_commands(true), vec![HandleCommand::SetFlags(0x20)]);
}

#[test]
fn resume_on_invalid_handle_does_nothing() {
    assert!(resume_commands(false).is_empty());
}

#[test]
fn pause_clears_only_auto_managed() {
    let flags: u64 = 0x20 | 0x10 | 0x200;
    let after = apply(flags, &pause_commands(true));
    assert_eq!(after, 0x10 | 0x200);
}

#[test]
fn resume_after_pause_restores_an_auto_managed_torrent() {
    let flags: u64 = 0x20 | 0x1;
    let paused = apply(flags, &pause_commands(true));
    assert_eq!(apply(paused, &resume_commands(true)), flags);
}

#[test]
fn resume_after_pause_of_unmanaged_torrent_adds_auto_managed() {
    let flags: u64 = 0x200;
    let paused = apply(flags, &pause_commands(true));
    assert_eq!(apply(paused, &resume_commands(true)), 0x220);
}
