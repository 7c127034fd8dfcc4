//! Admin-transfer target: the two-step admin hand-over of the router (pool and
//! emergency admin) and of the pool configurator.  The target keeps its own
//! record of who is admin and who is pending; this module decides, from that
//! record, which call an operation makes, which calls must be refused, and how
//! the record changes with each outcome.  Addresses are numbered.
use vstd::prelude::*;

pub use crate::targets::views::{MockReflector, PriceData};

verus! {

/// Longest single time advance, about one year in seconds
pub const MAX_ADVANCE_SECONDS: u64 = 31_536_000;

/// Which contract to target
#[derive(Clone, Copy, Debug, PartialEq, Eq, Structural)]
pub enum TargetContract {
    KineticRouter,
    PoolConfigurator,
}

/// Which admin role to transfer
#[derive(Clone, Copy, Debug, PartialEq, Eq, Structural)]
pub enum AdminType {
    PoolAdmin,
    EmergencyAdmin,
}

/// Who is performing the action
#[derive(Clone, Copy, Debug, PartialEq, Eq, Structural)]
pub enum Actor {
    CurrentAdmin,
    PendingAdmin,
    OtherUser,
    /// An address that was proposed but replaced
    ReplacedPending,
}

/// Admin transfer operations
#[derive(Clone, Copy, Debug, PartialEq, Eq, Structural)]
pub enum TransferOperation {
    /// Propose a new admin; the pending address is `pending_index % 4` of the
    /// address pool
    ProposeAdmin {
        target: TargetContract,
        admin_type: AdminType,
        proposer: Actor,
        pending_index: u8,
    },
    /// Accept admin role
    AcceptAdmin { target: TargetContract, admin_type: AdminType, accepter: Actor },
    /// Cancel pending proposal
    CancelProposal { target: TargetContract, admin_type: AdminType, canceller: Actor },
    /// Check pending admin state
    CheckPendingAdmin { target: TargetContract, admin_type: AdminType },
    /// Check current admin
    CheckCurrentAdmin { target: TargetContract, admin_type: AdminType },
    /// Advance time
    AdvanceTime { seconds: u32 },
}

/// Fuzz input for admin transfer testing
#[derive(Clone, Copy, Debug)]
pub struct AdminTransferInput {
    /// Sequence of transfer operations
    pub operations: [Option<TransferOperation>; 16],
}

/// The role an operation addresses: the router's pool admin, the router's
/// emergency admin, or the configurator's admin (whatever admin type is
/// named).
#[derive(Clone, Copy, Debug, PartialEq, Eq, Structural)]
pub enum Role {
    RouterPool,
    RouterEmergency,
    Configurator,
}

/// The contract call an operation makes.
#[derive(Clone, Copy, Debug, PartialEq, Eq, Structural)]
pub enum TransferCall {
    /// `propose_admin` / `propose_emergency_admin` on the role's contract
    Propose { role: Role, caller: u64, pending: u64 },
    /// `accept_admin` / `accept_emergency_admin`
    Accept { role: Role, caller: u64 },
    /// `cancel_admin_proposal` / `cancel_emergency_admin_proposal`
    Cancel { role: Role, caller: u64 },
    /// `get_pending_admin` / `get_pending_emergency_admin`
    GetPending { role: Role },
    /// `get_admin` of the router or of the configurator
    GetAdmin { target: TargetContract },
    /// Move the ledger clock forward by `advance` seconds (nothing when 0)
    AdvanceTime { advance: u64 },
}

/// The target's record of the admins, with the addresses it uses.
#[derive(Clone, Copy, Debug)]
pub struct TransferState {
    pub router_pool_admin: u64,
    pub router_emergency_admin: u64,
    pub configurator_admin: u64,
    pub router_pending_pool_admin: Option<u64>,
    pub router_pending_emergency_admin: Option<u64>,
    pub configurator_pending_admin: Option<u64>,
    /// Previously proposed address (for the `ReplacedPending` actor)
    pub replaced_pending: Option<u64>,
    /// Other user (never becomes admin)
    pub other_user: u64,
    /// Pool of potential pending addresses
    pub address_pool: [u64; 4],
}

/// The role a target and admin type address.
pub open spec fn role_of(target: TargetContract, admin_type: AdminType) -> Role {
    match target {
        TargetContract::PoolConfigurator => Role::Configurator,
        TargetContract::KineticRouter => match admin_type {
            AdminType::PoolAdmin => Role::RouterPool,
            AdminType::EmergencyAdmin => Role::RouterEmergency,
        },
    }
}

/// The role an operation addresses.
pub fn role_for(target: TargetContract, admin_type: AdminType) -> (r: Role)
    ensures
        r == role_of(target, admin_type),
{
    match target {
        TargetContract::PoolConfigurator => Role::Configurator,
        TargetContract::KineticRouter => match admin_type {
            AdminType::PoolAdmin => Role::RouterPool,
            AdminType::EmergencyAdmin => Role::RouterEmergency,
        },
    }
}

impl TransferState {
    /// The current admin of a role.
    pub open spec fn admin_of(self, role: Role) -> u64 {
        match role {
            Role::RouterPool => self.router_pool_admin,
            Role::RouterEmergency => self.router_emergency_admin,
            Role::Configurator => self.configurator_admin,
        }
    }

    /// The pending admin of a role.
    pub open spec fn pending_of(self, role: Role) -> Option<u64> {
        match role {
            Role::RouterPool => self.router_pending_pool_admin,
            Role::RouterEmergency => self.router_pending_emergency_admin,
            Role::Configurator => self.configurator_pending_admin,
        }
    }

    /// The state with a role's admin and pending admin replaced.
    pub open spec fn with_role(self, role: Role, admin: u64, pending: Option<u64>) -> Self {
        match role {
            Role::RouterPool => TransferState {
                router_pool_admin: admin,
                router_pending_pool_admin: pending,
                ..self
            },
            Role::RouterEmergency => TransferState {
                router_emergency_admin: admin,
                router_pending_emergency_admin: pending,
                ..self
            },
            Role::Configurator => TransferState {
                configurator_admin: admin,
                configurator_pending_admin: pending,
                ..self
            },
        }
    }

    /// The address an actor stands for: a missing pending or replaced
    /// address falls back to the other user.
    pub open spec fn actor_addr(self, actor: Actor, role: Role) -> u64 {
        match actor {
            Actor::CurrentAdmin => self.admin_of(role),
            Actor::PendingAdmin => match self.pending_of(role) {
                Some(p) => p,
                None => self.other_user,
            },
            Actor::OtherUser => self.other_user,
            Actor::ReplacedPending => match self.replaced_pending {
                Some(p) => p,
                None => self.other_user,
            },
        }
    }

    /// The pool address a proposal names.
    pub open spec fn pool_addr(self, pending_index: u8) -> u64 {
        self.address_pool@[(pending_index % 4) as int]
    }

    /// The call an operation makes from this state.
    pub open spec fn call_for(self, op: TransferOperation) -> TransferCall {
        match op {
            TransferOperation::ProposeAdmin { target, admin_type, proposer, pending_index } => {
                let role = role_of(target, admin_type);
                TransferCall::Propose {
                    role,
                    caller: self.actor_addr(proposer, role),
                    pending: self.pool_addr(pending_index),
                }
            },
            TransferOperation::AcceptAdmin { target, admin_type, accepter } => {
                let role = role_of(target, admin_type);
                TransferCall::Accept { role, caller: self.actor_addr(accepter, role) }
            },
            TransferOperation::CancelProposal { target, admin_type, canceller } => {
                let role = role_of(target, admin_type);
                TransferCall::Cancel { role, caller: self.actor_addr(canceller, role) }
            },
            TransferOperation::CheckPendingAdmin { target, admin_type } => {
                TransferCall::GetPending { role: role_of(target, admin_type) }
            },
            TransferOperation::CheckCurrentAdmin { target, admin_type } => {
                TransferCall::GetAdmin { target }
            },
            TransferOperation::AdvanceTime { seconds } => TransferCall::AdvanceTime {
                advance: (seconds as u64) % MAX_ADVANCE_SECONDS,
            },
        }
    }

    /// Whether the contract must refuse the call an operation makes: a
    /// proposal or cancellation by someone other than the pool or
    /// configurator admin, a cancellation with nothing pending, an
    /// acceptance by anyone but the pending admin.  Emergency-admin
    /// proposals and cancellations are not judged.
    pub open spec fn must_fail(self, op: TransferOperation) -> bool {
        match op {
            TransferOperation::ProposeAdmin { target, admin_type, proposer, pending_index } => {
                let role = role_of(target, admin_type);
                role != Role::RouterEmergency && self.actor_addr(proposer, role) != self.admin_of(
                    role,
                )
            },
            TransferOperation::AcceptAdmin { target, admin_type, accepter } => {
                let role = role_of(target, admin_type);
                match self.pending_of(role) {
                    Some(p) => self.actor_addr(accepter, role) != p,
                    None => true,
                }
            },
            TransferOperation::CancelProposal { target, admin_type, canceller } => {
                let role = role_of(target, admin_type);
                role != Role::RouterEmergency && (self.actor_addr(canceller, role)
                    != self.admin_of(role) || self.pending_of(role) is None)
            },
            _ => false,
        }
    }

    /// The record after an operation and the outcome of its call.
    pub open spec fn after(self, op: TransferOperation, succeeded: bool) -> Self {
        match op {
            TransferOperation::ProposeAdmin { target, admin_type, proposer, pending_index } => {
                let role = role_of(target, admin_type);
                let caller = self.actor_addr(proposer, role);
                let new_pending = self.pool_addr(pending_index);
                let allowed = if role == Role::RouterEmergency {
                    proposer == Actor::CurrentAdmin
                } else {
                    true
                };
                if allowed && caller == self.admin_of(role) && succeeded {
                    let replaced = match self.pending_of(role) {
                        Some(old) => if old != new_pending {
                            Some(old)
                        } else {
                            self.replaced_pending
                        },
                        None => self.replaced_pending,
                    };
                    TransferState {
                        replaced_pending: replaced,
                        ..self.with_role(role, self.admin_of(role), Some(new_pending))
                    }
                } else {
                    self
                }
            },
            TransferOperation::AcceptAdmin { target, admin_type, accepter } => {
                let role = role_of(target, admin_type);
                let caller = self.actor_addr(accepter, role);
                if self.pending_of(role) == Some(caller) && succeeded {
                    self.with_role(role, caller, None)
                } else {
                    self
                }
            },
            TransferOperation::CancelProposal { target, admin_type, canceller } => {
                let role = role_of(target, admin_type);
                let caller = self.actor_addr(canceller, role);
                let allowed = if role == Role::RouterEmergency {
                    canceller == Actor::CurrentAdmin
                } else {
                    true
                };
                if allowed && caller == self.admin_of(role) && self.pending_of(role) is Some
                    && succeeded {
                    self.with_role(role, self.admin_of(role), None)
                } else {
                    self
                }
            },
            _ => self,
        }
    }

    /// The initial record: the pool admin administers both the router and
    /// the configurator; nothing is pending or replaced.
    pub fn new(
        initial_pool_admin: u64,
        initial_emergency_admin: u64,
        other_user: u64,
        address_pool: [u64; 4],
    ) -> (s: Self)
        ensures
            s.router_pool_admin == initial_pool_admin,
            s.router_emergency_admin == initial_emergency_admin,
            s.configurator_admin == initial_pool_admin,
            s.router_pending_pool_admin is None,
            s.router_pending_emergency_admin is None,
            s.configurator_pending_admin is None,
            s.replaced_pending is None,
            s.other_user == other_user,
            s.address_pool == address_pool,
    {
        TransferState {
            router_pool_admin: initial_pool_admin,
            router_emergency_admin: initial_emergency_admin,
            configurator_admin: initial_pool_admin,
            router_pending_pool_admin: None,
            router_pending_emergency_admin: None,
            configurator_pending_admin: None,
            replaced_pending: None,
            other_user,
            address_pool,
        }
    }

    fn admin(&self, role: Role) -> (a: u64)
        ensures
            a == self.admin_of(role),
    {
        match role {
            Role::RouterPool => self.router_pool_admin,
            Role::RouterEmergency => self.router_emergency_admin,
            Role::Configurator => self.configurator_admin,
        }
    }

    fn pending(&self, role: Role) -> (p: Option<u64>)
        ensures
            p == self.pending_of(role),
    {
        match role {
            Role::RouterPool => self.router_pending_pool_admin,
            Role::RouterEmergency => self.router_pending_emergency_admin,
            Role::Configurator => self.configurator_pending_admin,
        }
    }

    fn set_role(&mut self, role: Role, admin: u64, pending: Option<u64>)
        ensures
            *final(self) == old(self).with_role(role, admin, pending),
    {
        match role {
            Role::RouterPool => {
                self.router_pool_admin = admin;
                self.router_pending_pool_admin = pending;
            },
            Role::RouterEmergency => {
                self.router_emergency_admin = admin;
                self.router_pending_emergency_admin = pending;
            },
            Role::Configurator => {
                self.configurator_admin = admin;
                self.configurator_pending_admin = pending;
            },
        }
    }

    /// The address an actor stands for under a role.
    pub fn get_actor_address(&self, actor: Actor, target: TargetContract, admin_type: AdminType) -> (a: u64)
        ensures
            a == self.actor_addr(actor, role_of(target, admin_type)),
    {
        let role = role_for(target, admin_type);
        match actor {
            Actor::CurrentAdmin => self.admin(role),
            Actor::PendingAdmin => match self.pending(role) {
                Some(p) => p,
                None => self.other_user,
            },
            Actor::OtherUser => self.other_user,
            Actor::ReplacedPending => match self.replaced_pending {
                Some(p) => p,
                None => self.other_user,
            },
        }
    }

    /// The call an operation makes, and whether the contract must refuse it.
    pub fn plan(&self, op: &TransferOperation) -> (r: (TransferCall, bool))
        ensures
            r.0 == self.call_for(*op),
            r.1 == self.must_fail(*op),
    {
        match op {
            TransferOperation::ProposeAdmin { target, admin_type, proposer, pending_index } => {
                let role = role_for(*target, *admin_type);
                let caller = self.get_actor_address(*proposer, *target, *admin_type);
                let pending = self.address_pool[(*pending_index % 4) as usize];
                let must_fail = match role {
                    Role::RouterEmergency => false,
                    _ => caller != self.admin(role),
                };
                (TransferCall::Propose { role, caller, pending }, must_fail)
            },
            TransferOperation::AcceptAdmin { target, admin_type, accepter } => {
                let role = role_for(*target, *admin_type);
                let caller = self.get_actor_address(*accepter, *target, *admin_type);
                let must_fail = match self.pending(role) {
                    Some(p) => caller != p,
                    None => true,
                };
                (TransferCall::Accept { role, caller }, must_fail)
            },
            TransferOperation::CancelProposal { target, admin_type, canceller } => {
                let role = role_for(*target, *admin_type);
                let caller = self.get_actor_address(*canceller, *target, *admin_type);
                let must_fail = match role {
                    Role::RouterEmergency => false,
                    _ => caller != self.admin(role) || self.pending(role).is_none(),
                };
                (TransferCall::Cancel { role, caller }, must_fail)
            },
            TransferOperation::CheckPendingAdmin { target, admin_type } => {
                (TransferCall::GetPending { role: role_for(*target, *admin_type) }, false)
            },
            TransferOperation::CheckCurrentAdmin { target, admin_type: _ } => {
                (TransferCall::GetAdmin { target: *target }, false)
            },
            TransferOperation::AdvanceTime { seconds } => {
                (TransferCall::AdvanceTime { advance: (*seconds as u64) % MAX_ADVANCE_SECONDS }, false)
            },
        }
    }

    /// Take in the outcome of an operation's call.  Returns `false` when the
    /// call succeeded although it must have been refused.
    pub fn record_outcome(&mut self, op: &TransferOperation, succeeded: bool) -> (ok: bool)
        ensures
            ok == !(old(self).must_fail(*op) && succeeded),
            *final(self) == old(self).after(*op, succeeded),
    {
        let (_, must_fail) = self.plan(op);
        match op {
            TransferOperation::ProposeAdmin { target, admin_type, proposer, pending_index } => {
                let role = role_for(*target, *admin_type);
                let caller = self.get_actor_address(*proposer, *target, *admin_type);
                let new_pending = self.address_pool[(*pending_index % 4) as usize];
                let allowed = match role {
                    Role::RouterEmergency => match proposer {
                        Actor::CurrentAdmin => true,
                        _ => false,
                    },
                    _ => true,
                };
                let admin = self.admin(role);
                if allowed && caller == admin && succeeded {
                    match self.pending(role) {
                        Some(old_pending) => {
                            if old_pending != new_pending {
                                self.replaced_pending = Some(old_pending);
                            }
                        },
                        None => {},
                    }
                    self.set_role(role, admin, Some(new_pending));
                }
            },
            TransferOperation::AcceptAdmin { target, admin_type, accepter } => {
                let role = role_for(*target, *admin_type);
                let caller = self.get_actor_address(*accepter, *target, *admin_type);
                match self.pending(role) {
                    Some(p) => {
                        if p == caller && succeeded {
                            self.set_role(role, caller, None);
                        }
                    },
                    None => {},
                }
            },
            TransferOperation::CancelProposal { target, admin_type, canceller } => {
                let role = role_for(*target, *admin_type);
                let caller = self.get_actor_address(*canceller, *target, *admin_type);
                let allowed = match role {
                    Role::RouterEmergency => match canceller {
                        Actor::CurrentAdmin => true,
                        _ => false,
                    },
                    _ => true,
                };
                let admin = self.admin(role);
                if allowed && caller == admin && self.pending(role).is_some() && succeeded {
                    self.set_role(role, admin, None);
                }
            },
            _ => {},
        }
        !(must_fail && succeeded)
    }
}

/// The transfer invariants on what the contracts report.
pub open spec fn transfer_invariants_hold(
    s: TransferState,
    router_admin: u64,
    router_pending: Option<u64>,
    configurator_admin: u64,
    configurator_pending: Option<u64>,
) -> bool {
    &&& router_admin == s.router_pool_admin
    &&& (s.router_pending_pool_admin is Some && router_pending is Some) ==> router_pending
        == s.router_pending_pool_admin
    &&& configurator_admin == s.configurator_admin
    &&& (s.configurator_pending_admin is Some && configurator_pending is Some)
        ==> configurator_pending == s.configurator_pending_admin
}

/// Check the transfer invariants: the router's and the configurator's admin
/// as recorded, and a pending admin, where one is recorded and the query for
/// it succeeded (`None` when it failed), as recorded too.
pub fn check_admin_transfer_invariants(
    s: &TransferState,
    router_admin: u64,
    router_pending: Option<u64>,
    configurator_admin: u64,
    configurator_pending: Option<u64>,
) -> (ok: bool)
    ensures
        ok == transfer_invariants_hold(
            *s,
            router_admin,
            router_pending,
            configurator_admin,
            configurator_pending,
        ),
{
    if router_admin != s.router_pool_admin || configurator_admin != s.configurator_admin {
        return false;
    }
    let router_ok = match (s.router_pending_pool_admin, router_pending) {
        (Some(expected), Some(actual)) => expected == actual,
        _ => true,
    };
    let configurator_ok = match (s.configurator_pending_admin, configurator_pending) {
        (Some(expected), Some(actual)) => expected == actual,
        _ => true,
    };
    router_ok && configurator_ok
}

/// The two-step transfer rules: an admin changes only by a successful
/// acceptance, which makes the accepter admin and clears the pending admin;
/// only the pending admin may accept; a successful proposal by the admin
/// makes the proposed address pending; a successful cancellation clears it;
/// a failed call changes nothing.
pub proof fn lemma_two_step_transfer(s: TransferState, op: TransferOperation, succeeded: bool)
    ensures
        !(op is AcceptAdmin) ==> forall|role: Role| #[trigger]
            s.after(op, succeeded).admin_of(role) == s.admin_of(role),
        !succeeded ==> s.after(op, succeeded) == s,
        op matches TransferOperation::AcceptAdmin { target, admin_type, accepter } ==> {
            let role = role_of(target, admin_type);
            &&& s.pending_of(role) != Some(s.actor_addr(accepter, role)) ==> s.must_fail(op)
            &&& (succeeded && !s.must_fail(op)) ==> {
                &&& s.after(op, succeeded).admin_of(role) == s.actor_addr(accepter, role)
                &&& s.after(op, succeeded).pending_of(role) is None
            }
        },
        op matches TransferOperation::ProposeAdmin { target, admin_type, proposer, pending_index }
            ==> {
            let role = role_of(target, admin_type);
            (succeeded && proposer == Actor::CurrentAdmin) ==> s.after(op, succeeded).pending_of(
                role,
            ) == Some(s.pool_addr(pending_index))
        },
        op matches TransferOperation::CancelProposal { target, admin_type, canceller } ==> {
            let role = role_of(target, admin_type);
            (succeeded && canceller == Actor::CurrentAdmin) ==> s.after(op, succeeded).pending_of(
                role,
            ) is None
        },
{
}

} // verus!
