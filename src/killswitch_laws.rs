use vstd::prelude::*;

use crate::killswitch::{
    cooldown_active, spec_initialize, spec_pause, spec_schedule_unpause, spec_transfer_admin,
    spec_unpause, Error, GuardModel,
};

verus! {

/// Only the authority may pause or unpause: any other caller is refused with
/// `Unauthorized`, while the authority always succeeds at pausing, and at
/// unpausing whenever no cooldown is pending.
pub proof fn lemma_only_authority_toggles(m: GuardModel, a: Seq<u8>, b: Seq<u8>, now: u64)
    requires
        m.authority == Some(a),
        b != a,
    ensures
        spec_pause(m, b) == Err::<GuardModel, Error>(Error::Unauthorized),
        spec_unpause(m, b, now) == Err::<GuardModel, Error>(Error::Unauthorized),
        spec_pause(m, a) is Ok,
        !cooldown_active(m, now) ==> spec_unpause(m, a, now) is Ok,
{
}

/// A successful pause leaves the guard paused, and a successful unpause
/// leaves it unpaused.
pub proof fn lemma_pause_then_unpause(m: GuardModel, a: Seq<u8>, now: u64)
    ensures
        spec_pause(m, a) is Ok ==> spec_pause(m, a)->Ok_0.paused,
        spec_pause(m, a) is Ok && spec_unpause(spec_pause(m, a)->Ok_0, a, now) is Ok
            ==> !spec_unpause(spec_pause(m, a)->Ok_0, a, now)->Ok_0.paused,
{
}

/// The authority's cooldown request is refused with `InvalidSchedule` exactly
/// when it does not lie strictly after the current ledger time; otherwise it
/// is recorded.
pub proof fn lemma_schedule_must_be_future(m: GuardModel, a: Seq<u8>, t: u64, now: u64)
    requires
        m.authority == Some(a),
    ensures
        t <= now ==> spec_schedule_unpause(m, a, t, now) == Err::<GuardModel, Error>(
            Error::InvalidSchedule,
        ),
        now < t ==> spec_schedule_unpause(m, a, t, now) == Ok::<GuardModel, Error>(
            GuardModel { cooldown: Some(t), ..m },
        ),
{
}

/// After the authority schedules a cooldown ending at `t`, unpausing before
/// `t` fails with `ContractPaused`, and unpausing at or after `t` succeeds
/// and clears the cooldown.
pub proof fn lemma_cooldown_enforced(m: GuardModel, a: Seq<u8>, t: u64, scheduled_at: u64, now: u64)
    requires
        m.authority == Some(a),
        scheduled_at < t,
    ensures
        spec_schedule_unpause(m, a, t, scheduled_at) is Ok,
        now < t ==> spec_unpause(spec_schedule_unpause(m, a, t, scheduled_at)->Ok_0, a, now)
            == Err::<GuardModel, Error>(Error::ContractPaused),
        t <= now ==> spec_unpause(spec_schedule_unpause(m, a, t, scheduled_at)->Ok_0, a, now) is Ok,
        t <= now ==> spec_unpause(
            spec_schedule_unpause(m, a, t, scheduled_at)->Ok_0,
            a,
            now,
        )->Ok_0.cooldown is None,
{
}

/// After the authority hands over to `b`, `b` can pause, and the former
/// authority is then refused with `Unauthorized`.
pub proof fn lemma_transfer_moves_authority(m: GuardModel, a: Seq<u8>, b: Seq<u8>)
    requires
        m.authority == Some(a),
        b != a,
    ensures
        spec_transfer_admin(m, a, b) is Ok,
        spec_pause(spec_transfer_admin(m, a, b)->Ok_0, b) is Ok,
        spec_pause(spec_pause(spec_transfer_admin(m, a, b)->Ok_0, b)->Ok_0, a) == Err::<
            GuardModel,
            Error,
        >(Error::Unauthorized),
{
}

/// Pausing and unpausing leave what the read-only queries report about the
/// authority unchanged; pausing leaves the scheduled cooldown unchanged too.
pub proof fn lemma_queries_stable_across_pause(m: GuardModel, c: Seq<u8>, now: u64)
    ensures
        spec_pause(m, c) is Ok ==> spec_pause(m, c)->Ok_0.authority == m.authority,
        spec_pause(m, c) is Ok ==> spec_pause(m, c)->Ok_0.cooldown == m.cooldown,
        spec_unpause(m, c, now) is Ok ==> spec_unpause(m, c, now)->Ok_0.authority == m.authority,
{
}

/// Before initialization every administrative operation fails with
/// `NotInitialized`; once initialized, a second initialization fails with
/// `AlreadyInitialized`.
pub proof fn lemma_initialize_first(
    m: GuardModel,
    c: Seq<u8>,
    d: Seq<u8>,
    at: u64,
    now: u64,
)
    requires
        m.authority is None,
    ensures
        spec_pause(m, c) == Err::<GuardModel, Error>(Error::NotInitialized),
        spec_unpause(m, c, now) == Err::<GuardModel, Error>(Error::NotInitialized),
        spec_schedule_unpause(m, c, at, now) == Err::<GuardModel, Error>(Error::NotInitialized),
        spec_transfer_admin(m, c, d) == Err::<GuardModel, Error>(Error::NotInitialized),
        spec_initialize(m, c) is Ok,
        spec_initialize(spec_initialize(m, c)->Ok_0, d) == Err::<GuardModel, Error>(
            Error::AlreadyInitialized,
        ),
{
}

/// Once an authority is set, no operation removes it.
pub proof fn lemma_authority_persists(
    m: GuardModel,
    c: Seq<u8>,
    d: Seq<u8>,
    at: u64,
    now: u64,
)
    requires
        m.authority is Some,
    ensures
        spec_pause(m, c) is Ok ==> spec_pause(m, c)->Ok_0.authority is Some,
        spec_unpause(m, c, now) is Ok ==> spec_unpause(m, c, now)->Ok_0.authority is Some,
        spec_schedule_unpause(m, c, at, now) is Ok ==> spec_schedule_unpause(
            m,
            c,
            at,
            now,
        )->Ok_0.authority is Some,
        spec_transfer_admin(m, c, d) is Ok ==> spec_transfer_admin(m, c, d)->Ok_0.authority is Some,
{
}

} // verus!
