//! The administrative backend's domain records and the rules that
//! derive credential mutations from changes to them.
//!
//! The backend is the sole producer of mutation messages: whenever a
//! staff record changes, the functions here decide which mutations to
//! publish on the credential topic.

use vstd::prelude::*;

use crate::protocol::UserAction;

verus! {

/// A customer account.
#[derive(Debug)]
pub struct Customer {
    pub id: i64,
    pub name: String,
    pub email: String,
    pub active: bool,
    pub notes: Option<String>,
}

/// A customer account as submitted for creation or update.
#[derive(Debug)]
pub struct NewCustomer {
    pub name: String,
    pub email: String,
    pub notes: Option<String>,
}

/// A staff record as submitted for creation or update; the PIN is
/// generated server-side, never submitted.
#[derive(Debug)]
pub struct NewStaff {
    pub customer_id: i64,
    pub name: String,
    pub phone: String,
    pub fob: Option<i32>,
}

/// An administrative user of the backend.
#[derive(Debug)]
pub struct User {
    pub id: i64,
    pub name: String,
    pub email: String,
}

/// An administrative user as submitted for creation or update.
#[derive(Debug)]
pub struct NewUser {
    pub name: String,
    pub email: String,
}

/// A registered edge device.
#[derive(Debug)]
pub struct Device {
    pub id: i64,
    pub name: String,
    pub net_id: String,
}

/// An error surfaced by the backend's request handlers, carrying the
/// underlying description.
#[derive(Debug)]
pub struct AppError {
    pub message: String,
}

/// The mutations published when a staff record with the given PIN
/// and optional fob is activated or deactivated: the PIN first, then
/// the fob if there is one, each added when active and deleted when
/// not.
pub open spec fn spec_staff_actions(active: bool, pin: i32, fob: Option<i32>) -> Seq<UserAction> {
    let pin_action = if active {
        UserAction::Add(pin)
    } else {
        UserAction::Del(pin)
    };
    match fob {
        None => seq![pin_action],
        Some(f) => seq![
            pin_action,
            if active {
                UserAction::Add(f)
            } else {
                UserAction::Del(f)
            },
        ],
    }
}

/// Derives the mutations to publish for a staff record's current
/// activation state.
pub fn staff_sync_actions(active: bool, pin: i32, fob: Option<i32>) -> (r: Vec<UserAction>)
    ensures
        r@ == spec_staff_actions(active, pin, fob),
{
    let mut actions: Vec<UserAction> = Vec::new();
    if active {
        actions.push(UserAction::Add(pin));
    } else {
        actions.push(UserAction::Del(pin));
    }
    match fob {
        None => {},
        Some(f) => {
            if active {
                actions.push(UserAction::Add(f));
            } else {
                actions.push(UserAction::Del(f));
            }
        },
    }
    proof {
        assert(actions@ =~= spec_staff_actions(active, pin, fob));
    }
    actions
}

/// The mutation a staff update's change of fob requires: a changed
/// fob is replaced, a newly assigned one added, a withdrawn one
/// deleted, and an unchanged or still-absent one needs nothing.
pub open spec fn spec_fob_change(old_fob: Option<i32>, new_fob: Option<i32>) -> Option<
    UserAction,
> {
    match (old_fob, new_fob) {
        (Some(o), Some(n)) => if o != n {
            Some(UserAction::Replace { old: o, new: n })
        } else {
            None
        },
        (None, Some(n)) => Some(UserAction::Add(n)),
        (Some(o), None) => Some(UserAction::Del(o)),
        (None, None) => None,
    }
}

/// Derives the mutation to publish after a staff update changed the
/// record's fob.
pub fn fob_change_action(old_fob: Option<i32>, new_fob: Option<i32>) -> (r: Option<UserAction>)
    ensures
        r == spec_fob_change(old_fob, new_fob),
{
    match (old_fob, new_fob) {
        (Some(o), Some(n)) => {
            if o != n {
                Some(UserAction::Replace { old: o, new: n })
            } else {
                None
            }
        },
        (None, Some(n)) => Some(UserAction::Add(n)),
        (Some(o), None) => Some(UserAction::Del(o)),
        (None, None) => None,
    }
}

/// Relies on rand's `gen_range` over an inclusive range: the sample
/// lies within the requested bounds.
#[verifier::external_body]
fn random_pin_in_range() -> (r: i32)
    ensures
        100000 <= r <= 999999,
{
    rand::Rng::gen_range(&mut rand::thread_rng(), 100000..=999999)
}

/// A freshly generated six-digit PIN.
pub fn generate_pin() -> (r: i32)
    ensures
        100000 <= r <= 999999,
{
    random_pin_in_range()
}

/// Rotating a staff member's PIN: a fresh six-digit PIN is generated
/// and published as a replacement for the old one.
pub fn rotate_pin_action(old_pin: i32) -> (r: (i32, UserAction))
    ensures
        100000 <= r.0 <= 999999,
        r.1 == (UserAction::Replace { old: old_pin, new: r.0 }),
{
    let pin = random_pin_in_range();
    (pin, UserAction::Replace { old: old_pin, new: pin })
}

/// Creating a staff record: a fresh six-digit PIN is generated and
/// the new credentials (the PIN, and the fob if one was submitted)
/// are published as additions.
pub fn create_staff_actions(fob: Option<i32>) -> (r: (i32, Vec<UserAction>))
    ensures
        100000 <= r.0 <= 999999,
        r.1@ == spec_staff_actions(true, r.0, fob),
{
    let pin = random_pin_in_range();
    let actions = staff_sync_actions(true, pin, fob);
    (pin, actions)
}

} // verus!
