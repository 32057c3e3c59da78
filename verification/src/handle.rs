//! The decisions of the torrent-handle operations that do more than forward
//! one call: pausing and resuming a torrent.

use vstd::prelude::*;
use crate::flags::{AUTO_MANAGED, GRACEFUL_PAUSE};

verus! {

/// A call that a torrent-handle operation makes on the backend handle.
#[derive(Debug, Clone, Copy, PartialEq, Eq, Structural)]
pub enum HandleCommand {
    /// `set_flags(flags)`: sets the given torrent flags
    SetFlags(u64),
    /// `unset_flags(flags)`: clears the given torrent flags
    UnsetFlags(u64),
    /// `pause(pause_flags)`
    Pause(u8),
}

/// The calls that pausing makes: nothing on an invalid handle; otherwise the
/// torrent stops being auto-managed (so the queue logic will not resume it),
/// then it is paused gracefully.
pub open spec fn pause_plan(is_valid: bool) -> Seq<HandleCommand> {
    if is_valid {
        seq![HandleCommand::UnsetFlags(AUTO_MANAGED), HandleCommand::Pause(GRACEFUL_PAUSE)]
    } else {
        Seq::empty()
    }
}

/// The calls that resuming makes: nothing on an invalid handle; otherwise
/// the torrent becomes auto-managed again, which hands it back to the
/// session's queue logic.
pub open spec fn resume_plan(is_valid: bool) -> Seq<HandleCommand> {
    if is_valid {
        seq![HandleCommand::SetFlags(AUTO_MANAGED)]
    } else {
        Seq::empty()
    }
}

/// The torrent flags after the flag writes of `plan`, as libtorrent documents
/// them: `set_flags` sets the given flags and leaves the others unchanged,
/// `unset_flags` clears the given flags and leaves the others unchanged. A
/// `Pause` writes no flag through this interface; what the backend records
/// of the pause itself is not part of this model.
pub open spec fn flags_after_writes(flags: u64, plan: Seq<HandleCommand>) -> u64
    decreases plan.len(),
{
    if plan.len() == 0 {
        flags
    } else {
        let next = match plan[0] {
            HandleCommand::SetFlags(s) => flags | s,
            HandleCommand::UnsetFlags(u) => flags & !u,
            HandleCommand::Pause(_) => flags,
        };
        flags_after_writes(next, plan.drop_first())
    }
}

/// The calls to make to pause a torrent, given whether its handle is valid.
pub fn pause_commands(is_valid: bool) -> (plan: Vec<HandleCommand>)
    ensures
        plan@ == pause_plan(is_valid),
{
    let mut plan: Vec<HandleCommand> = Vec::new();
    if is_valid {
        plan.push(HandleCommand::UnsetFlags(AUTO_MANAGED));
        plan.push(HandleCommand::Pause(GRACEFUL_PAUSE));
    }
    plan
}

/// The calls to make to resume a torrent, given whether its handle is valid.
pub fn resume_commands(is_valid: bool) -> (plan: Vec<HandleCommand>)
    ensures
        plan@ == resume_plan(is_valid),
{
    let mut plan: Vec<HandleCommand> = Vec::new();
    if is_valid {
        plan.push(HandleCommand::SetFlags(AUTO_MANAGED));
    }
    plan
}

/// Pausing a valid torrent leaves it not auto-managed, and every other
/// torrent flag as it was.
pub proof fn lemma_pause_clears_auto_managed(flags: u64)
    ensures
        flags_after_writes(flags, pause_plan(true)) & AUTO_MANAGED == 0,
        flags_after_writes(flags, pause_plan(true)) & !AUTO_MANAGED == flags & !AUTO_MANAGED,
{
    let plan = pause_plan(true);
    let cleared = flags & !AUTO_MANAGED;
    assert(plan.drop_first() =~= seq![HandleCommand::Pause(GRACEFUL_PAUSE)]);
    assert(plan.drop_first().drop_first() =~= Seq::<HandleCommand>::empty());
    assert(flags_after_writes(flags, plan) == cleared) by {
        reveal_with_fuel(flags_after_writes, 3);
    }
    assert(cleared & 0x20u64 == 0 && cleared & !0x20u64 == flags & !0x20u64) by (bit_vector)
        requires
            cleared == flags & !0x20u64,
    ;
}

/// Resuming a valid torrent makes it auto-managed, and leaves every other
/// torrent flag as it was.
pub proof fn lemma_resume_sets_auto_managed(flags: u64)
    ensures
        flags_after_writes(flags, resume_plan(true)) & AUTO_MANAGED == AUTO_MANAGED,
        flags_after_writes(flags, resume_plan(true)) & !AUTO_MANAGED == flags & !AUTO_MANAGED,
{
    let plan = resume_plan(true);
    let set = flags | AUTO_MANAGED;
    assert(plan.drop_first() =~= Seq::<HandleCommand>::empty());
    assert(flags_after_writes(flags, plan) == set) by {
        reveal_with_fuel(flags_after_writes, 2);
    }
    assert(set & 0x20u64 == 0x20u64 && set & !0x20u64 == flags & !0x20u64) by (bit_vector)
        requires
            set == flags | 0x20u64,
    ;
}

/// On an invalid handle, pausing and resuming make no call, so no flag
/// changes.
pub proof fn lemma_invalid_handle_untouched(flags: u64)
    ensures
        pause_plan(false).len() == 0,
        resume_plan(false).len() == 0,
        flags_after_writes(flags, pause_plan(false)) == flags,
        flags_after_writes(flags, resume_plan(false)) == flags,
{
}

/// Resuming after pausing gives back the flags of an auto-managed torrent
/// exactly; in general it gives back the flags with auto-management on.
pub proof fn lemma_resume_undoes_pause(flags: u64)
    ensures
        flags_after_writes(flags_after_writes(flags, pause_plan(true)), resume_plan(true))
            == flags | AUTO_MANAGED,
        flags & AUTO_MANAGED == AUTO_MANAGED ==> flags_after_writes(
            flags_after_writes(flags, pause_plan(true)),
            resume_plan(true),
        ) == flags,
{
    let paused = flags_after_writes(flags, pause_plan(true));
    lemma_pause_clears_auto_managed(flags);
    lemma_resume_sets_auto_managed(paused);
    let resumed = flags_after_writes(paused, resume_plan(true));
    assert(resumed == flags | 0x20u64 && (flags & 0x20u64 == 0x20u64 ==> resumed == flags))
        by (bit_vector)
        requires
            resumed & 0x20u64 == 0x20u64,
            resumed & !0x20u64 == paused & !0x20u64,
            paused & !0x20u64 == flags & !0x20u64,
    ;
}

} // verus!
