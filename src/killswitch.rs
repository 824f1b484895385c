use vstd::prelude::*;

use crate::address::Address;

verus! {

/// The conditions under which a guard operation is refused.
#[derive(Clone, Copy, Debug, PartialEq, Eq, Structural, PartialOrd, Ord)]
pub enum Error {
    /// `initialize` was never called.
    NotInitialized,
    /// `initialize` has already been called.
    AlreadyInitialized,
    /// The caller is not the current authority.
    Unauthorized,
    /// The contract is paused, or a scheduled cooldown has not yet elapsed.
    ContractPaused,
    /// A scheduled-unpause timestamp must lie in the future.
    InvalidSchedule,
}

/// The number under which each error condition is surfaced to callers.
pub open spec fn error_code(e: Error) -> u32 {
    match e {
        Error::NotInitialized => 1,
        Error::AlreadyInitialized => 2,
        Error::Unauthorized => 3,
        Error::ContractPaused => 4,
        Error::InvalidSchedule => 5,
    }
}

impl Error {
    pub fn code(&self) -> (r: u32)
        ensures
            r == error_code(*self),
    {
        match self {
            Error::NotInitialized => 1,
            Error::AlreadyInitialized => 2,
            Error::Unauthorized => 3,
            Error::ContractPaused => 4,
            Error::InvalidSchedule => 5,
        }
    }
}

/// What a successful guard operation announces to observers.
#[derive(Clone, Copy, Debug, PartialEq, Eq, Structural)]
pub enum Notification {
    Paused,
    Unpaused,
    AdminTransferred,
}

/// The tag that every guard notification carries before its action tag.
pub const EVENT_NAMESPACE: &'static str = "killswtch";

/// The action tag of each notification.
pub open spec fn action_text(n: Notification) -> Seq<char> {
    match n {
        Notification::Paused => "paused"@,
        Notification::Unpaused => "unpaused"@,
        Notification::AdminTransferred => "adm_xfr"@,
    }
}

impl Notification {
    pub fn action(&self) -> (r: &'static str)
        ensures
            r@ == action_text(*self),
    {
        match self {
            Notification::Paused => "paused",
            Notification::Unpaused => "unpaused",
            Notification::AdminTransferred => "adm_xfr",
        }
    }
}

/// The abstract state of the guard: who holds authority (absent until
/// initialization), whether mutating operations are paused, and the
/// timestamp before which unpausing is refused, if one is scheduled.
pub ghost struct GuardModel {
    pub authority: Option<Seq<u8>>,
    pub paused: bool,
    pub cooldown: Option<u64>,
}

/// The state before initialization.
pub open spec fn uninitialized() -> GuardModel {
    GuardModel { authority: None, paused: false, cooldown: None }
}

/// Whether `caller` may perform an administrative operation.
pub open spec fn spec_authorize(m: GuardModel, caller: Seq<u8>) -> Result<(), Error> {
    match m.authority {
        None => Err(Error::NotInitialized),
        Some(a) => if a == caller {
            Ok(())
        } else {
            Err(Error::Unauthorized)
        },
    }
}

/// Whether a scheduled cooldown still forbids unpausing at time `now`.
pub open spec fn cooldown_active(m: GuardModel, now: u64) -> bool {
    match m.cooldown {
        Some(at) => now < at,
        None => false,
    }
}

// Each transition below yields the state after the operation succeeds, or
// the error that refuses it; a refused operation changes nothing.

pub open spec fn spec_initialize(m: GuardModel, admin: Seq<u8>) -> Result<GuardModel, Error> {
    if m.authority is Some {
        Err(Error::AlreadyInitialized)
    } else {
        Ok(GuardModel { authority: Some(admin), paused: false, ..m })
    }
}

pub open spec fn spec_pause(m: GuardModel, caller: Seq<u8>) -> Result<GuardModel, Error> {
    match spec_authorize(m, caller) {
        Err(e) => Err(e),
        Ok(_) => Ok(GuardModel { paused: true, ..m }),
    }
}

pub open spec fn spec_unpause(m: GuardModel, caller: Seq<u8>, now: u64) -> Result<
    GuardModel,
    Error,
> {
    match spec_authorize(m, caller) {
        Err(e) => Err(e),
        Ok(_) => if cooldown_active(m, now) {
            Err(Error::ContractPaused)
        } else {
            Ok(GuardModel { paused: false, cooldown: None, ..m })
        },
    }
}

pub open spec fn spec_schedule_unpause(
    m: GuardModel,
    caller: Seq<u8>,
    at: u64,
    now: u64,
) -> Result<GuardModel, Error> {
    match spec_authorize(m, caller) {
        Err(e) => Err(e),
        Ok(_) => if at <= now {
            Err(Error::InvalidSchedule)
        } else {
            Ok(GuardModel { cooldown: Some(at), ..m })
        },
    }
}

pub open spec fn spec_transfer_admin(m: GuardModel, caller: Seq<u8>, new_admin: Seq<u8>) -> Result<
    GuardModel,
    Error,
> {
    match spec_authorize(m, caller) {
        Err(e) => Err(e),
        Ok(_) => Ok(GuardModel { authority: Some(new_admin), ..m }),
    }
}

/// The check every guarded operation makes before acting.
pub open spec fn spec_assert_not_paused(m: GuardModel) -> Result<(), Error> {
    if m.paused {
        Err(Error::ContractPaused)
    } else {
        Ok(())
    }
}

/// The checks a guarded operation makes after the host has authenticated
/// `caller`: the caller must be the principal the operation requires (the
/// authority, or the owner of a record), and the guard must not be paused.
pub open spec fn spec_check_operation(m: GuardModel, caller: Seq<u8>, required: Seq<u8>) -> Result<
    (),
    Error,
> {
    if caller != required {
        Err(Error::Unauthorized)
    } else {
        spec_assert_not_paused(m)
    }
}

/// The guard's state record. A deployed contract holds exactly one and
/// threads it through every entry point; callers hand in the identity the
/// host has already authenticated and the current ledger time.
pub struct EmergencyKillswitch {
    pub admin: Option<Address>,
    pub paused: bool,
    pub unpause_at: Option<u64>,
}

pub open spec fn address_view(a: Option<Address>) -> Option<Seq<u8>> {
    match a {
        Some(x) => Some(x@),
        None => None,
    }
}

impl View for EmergencyKillswitch {
    type V = GuardModel;

    open spec fn view(&self) -> GuardModel {
        GuardModel {
            authority: address_view(self.admin),
            paused: self.paused,
            cooldown: self.unpause_at,
        }
    }
}

impl EmergencyKillswitch {
    /// A guard that has not been initialized.
    pub fn new() -> (r: EmergencyKillswitch)
        ensures
            r@ == uninitialized(),
    {
        EmergencyKillswitch { admin: None, paused: false, unpause_at: None }
    }

    /// One-shot setup: `admin` becomes the authority and the guard starts
    /// unpaused. Whoever calls this first becomes the authority.
    pub fn initialize(&mut self, admin: Address) -> (r: Result<(), Error>)
        ensures
            match spec_initialize(old(self)@, admin@) {
                Ok(m) => r == Ok::<(), Error>(()) && final(self)@ == m,
                Err(e) => r == Err::<(), Error>(e) && final(self)@ == old(self)@,
            },
    {
        if self.admin.is_some() {
            return Err(Error::AlreadyInitialized);
        }
        self.admin = Some(admin);
        self.paused = false;
        Ok(())
    }

    fn check_admin(&self, caller: &Address) -> (r: Result<(), Error>)
        ensures
            r == spec_authorize(self@, caller@),
    {
        match &self.admin {
            None => Err(Error::NotInitialized),
            Some(a) => if a.same_as(caller) {
                Ok(())
            } else {
                Err(Error::Unauthorized)
            },
        }
    }

    /// Fails with `ContractPaused` while paused; otherwise does nothing.
    pub fn assert_not_paused(&self) -> (r: Result<(), Error>)
        ensures
            r == spec_assert_not_paused(self@),
    {
        if self.paused {
            Err(Error::ContractPaused)
        } else {
            Ok(())
        }
    }

    /// Authorizes and pause-checks a guarded operation, in that order; on
    /// success the operation may perform its effect and announce it.
    pub fn check_operation(&self, caller: &Address, required: &Address) -> (r: Result<(), Error>)
        ensures
            r == spec_check_operation(self@, caller@, required@),
    {
        if !caller.same_as(required) {
            return Err(Error::Unauthorized);
        }
        self.assert_not_paused()
    }

    /// Pauses the guard. Only the authority may do so; pausing an already
    /// paused guard succeeds and is announced again.
    pub fn pause(&mut self, caller: &Address) -> (r: Result<Notification, Error>)
        ensures
            match spec_pause(old(self)@, caller@) {
                Ok(m) => r == Ok::<Notification, Error>(Notification::Paused) && final(self)@ == m,
                Err(e) => r == Err::<Notification, Error>(e) && final(self)@ == old(self)@,
            },
    {
        match self.check_admin(caller) {
            Err(e) => Err(e),
            Ok(()) => {
                self.paused = true;
                Ok(Notification::Paused)
            },
        }
    }

    /// Unpauses the guard at ledger time `now`. Only the authority may do so,
    /// and not before a scheduled cooldown has elapsed; success clears it.
    pub fn unpause(&mut self, caller: &Address, now: u64) -> (r: Result<Notification, Error>)
        ensures
            match spec_unpause(old(self)@, caller@, now) {
                Ok(m) => r == Ok::<Notification, Error>(Notification::Unpaused) && final(self)@
                    == m,
                Err(e) => r == Err::<Notification, Error>(e) && final(self)@ == old(self)@,
            },
    {
        match self.check_admin(caller) {
            Err(e) => Err(e),
            Ok(()) => {
                if let Some(at) = self.unpause_at {
                    if now < at {
                        return Err(Error::ContractPaused);
                    }
                }
                self.unpause_at = None;
                self.paused = false;
                Ok(Notification::Unpaused)
            },
        }
    }

    /// Sets, at ledger time `now`, a timestamp before which `unpause` is
    /// refused. It must lie strictly in the future; it may be set before any
    /// pause.
    pub fn schedule_unpause(&mut self, caller: &Address, at_timestamp: u64, now: u64) -> (r: Result<
        (),
        Error,
    >)
        ensures
            match spec_schedule_unpause(old(self)@, caller@, at_timestamp, now) {
                Ok(m) => r == Ok::<(), Error>(()) && final(self)@ == m,
                Err(e) => r == Err::<(), Error>(e) && final(self)@ == old(self)@,
            },
    {
        match self.check_admin(caller) {
            Err(e) => Err(e),
            Ok(()) => {
                if at_timestamp <= now {
                    return Err(Error::InvalidSchedule);
                }
                self.unpause_at = Some(at_timestamp);
                Ok(())
            },
        }
    }

    /// Hands authority to `new_admin`, effective for the very next call.
    pub fn transfer_admin(&mut self, caller: &Address, new_admin: Address) -> (r: Result<
        Notification,
        Error,
    >)
        ensures
            match spec_transfer_admin(old(self)@, caller@, new_admin@) {
                Ok(m) => r == Ok::<Notification, Error>(Notification::AdminTransferred)
                    && final(self)@ == m,
                Err(e) => r == Err::<Notification, Error>(e) && final(self)@ == old(self)@,
            },
    {
        match self.check_admin(caller) {
            Err(e) => Err(e),
            Ok(()) => {
                self.admin = Some(new_admin);
                Ok(Notification::AdminTransferred)
            },
        }
    }

    /// A representative guarded transfer: refused while paused.
    pub fn do_transfer(&self, caller: &Address, amount: i128) -> (r: Result<(), Error>)
        ensures
            r == spec_assert_not_paused(self@),
    {
        self.assert_not_paused()
    }

    /// A representative guarded mint: refused while paused.
    pub fn do_mint(&self, caller: &Address, amount: i128) -> (r: Result<(), Error>)
        ensures
            r == spec_assert_not_paused(self@),
    {
        self.assert_not_paused()
    }

    /// Whether the guard is paused; false before initialization.
    pub fn is_paused(&self) -> (r: bool)
        ensures
            r == self@.paused,
    {
        self.paused
    }

    /// The current authority, or `None` before initialization.
    pub fn get_admin(&self) -> (r: Option<Address>)
        ensures
            address_view(r) == self@.authority,
    {
        match &self.admin {
            Some(a) => Some(a.clone()),
            None => None,
        }
    }

    /// The scheduled-unpause timestamp, if one is set.
    pub fn get_scheduled_unpause(&self) -> (r: Option<u64>)
        ensures
            r == self@.cooldown,
    {
        self.unpause_at
    }
}

} // verus!
