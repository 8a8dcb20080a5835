//! The role hierarchy: User < Manager < Admin, compared by an explicit rank.

use vstd::prelude::*;
use core::cmp::Ordering;
use crate::error::ErrorKind;
use crate::text::same_text;

verus! {

/// The access level of a principal.
#[derive(Debug, Clone, Copy, PartialEq, Eq, Structural)]
pub enum Role {
    User,
    Manager,
    Admin,
}

/// Position of a role in the hierarchy.
pub open spec fn rank_of(r: Role) -> int {
    match r {
        Role::User => 0,
        Role::Manager => 1,
        Role::Admin => 2,
    }
}

/// Whether a principal holding `held` may do what needs `minimum`.
pub open spec fn role_meets(held: Role, minimum: Role) -> bool {
    rank_of(held) >= rank_of(minimum)
}

/// The stored name of a role.
pub open spec fn role_name(r: Role) -> Seq<char> {
    match r {
        Role::User => "User"@,
        Role::Manager => "Manager"@,
        Role::Admin => "Admin"@,
    }
}

/// The role whose stored name is `s`, if any.
pub open spec fn role_named(s: Seq<char>) -> Option<Role> {
    if s == "User"@ {
        Some(Role::User)
    } else if s == "Manager"@ {
        Some(Role::Manager)
    } else if s == "Admin"@ {
        Some(Role::Admin)
    } else {
        None
    }
}

impl Role {
    /// Position of the role in the hierarchy.
    pub fn rank(&self) -> (r: u8)
        ensures
            r as int == rank_of(*self),
    {
        match self {
            Role::User => 0,
            Role::Manager => 1,
            Role::Admin => 2,
        }
    }

    /// Whether this role is at least `minimum`.
    pub fn meets(&self, minimum: Role) -> (r: bool)
        ensures
            r == role_meets(*self, minimum),
    {
        self.rank() >= minimum.rank()
    }

    /// Decodes a stored role name; an unknown name is refused, not defaulted.
    pub fn from_name(name: &str) -> (r: Option<Role>)
        ensures
            r == role_named(name@),
    {
        if same_text(name, "User") {
            Some(Role::User)
        } else if same_text(name, "Manager") {
            Some(Role::Manager)
        } else if same_text(name, "Admin") {
            Some(Role::Admin)
        } else {
            None
        }
    }

    /// The stored name of the role.
    pub fn to_string(&self) -> (r: String)
        ensures
            r@ == role_name(*self),
    {
        match self {
            Role::User => String::from_str("User"),
            Role::Manager => String::from_str("Manager"),
            Role::Admin => String::from_str("Admin"),
        }
    }
}

/// Gates an operation on a minimum role: a principal below it is Forbidden.
pub fn require_role(actor: Role, minimum: Role) -> (r: Result<(), ErrorKind>)
    ensures
        role_meets(actor, minimum) <==> r is Ok,
        r matches Err(e) ==> e == ErrorKind::Forbidden,
{
    if actor.meets(minimum) {
        Ok(())
    } else {
        Err(ErrorKind::Forbidden)
    }
}

impl PartialOrd for Role {
    fn partial_cmp(&self, other: &Role) -> (r: Option<Ordering>) {
        let a = self.rank();
        let b = other.rank();
        if a < b {
            Some(Ordering::Less)
        } else if a == b {
            Some(Ordering::Equal)
        } else {
            Some(Ordering::Greater)
        }
    }
}

impl vstd::std_specs::cmp::PartialOrdSpecImpl for Role {
    open spec fn obeys_partial_cmp_spec() -> bool {
        true
    }

    open spec fn partial_cmp_spec(&self, other: &Role) -> Option<Ordering> {
        if rank_of(*self) < rank_of(*other) {
            Some(Ordering::Less)
        } else if rank_of(*self) == rank_of(*other) {
            Some(Ordering::Equal)
        } else {
            Some(Ordering::Greater)
        }
    }
}

} // verus!
