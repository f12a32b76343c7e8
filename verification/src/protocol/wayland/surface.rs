//! Surfaces and the role a surface takes.
use vstd::prelude::*;

verus! {

/// The role a surface can be given.
#[derive(Debug, Clone, Copy, PartialEq, Eq, PartialOrd, Ord, Hash, Structural)]
pub enum Role {
    XdgToplevel,
    XdgPopup,
    Cursor,
    Subsurface,
}

/// A surface.  Its role is given once and kept from then on.
#[derive(Debug)]
pub struct Surface {
    role: Option<Role>,
}

impl Surface {
    /// The role of the surface, if it was given one.
    pub closed spec fn spec_role(&self) -> Option<Role> {
        self.role
    }

    /// A surface without a role.
    pub fn new() -> (s: Surface)
        ensures
            s.spec_role() is None,
    {
        Surface { role: None }
    }

    /// The role of the surface, if it was given one.
    pub fn role(&self) -> (r: Option<Role>)
        ensures
            r == self.spec_role(),
    {
        self.role
    }

    /// Gives the surface a role.  A surface without a role takes it; a surface
    /// that has this role already keeps it; a surface that has another role
    /// refuses the switch and keeps the role it has.
    pub fn set_role(&mut self, role: Role) -> (r: Result<(), RoleError>)
        ensures
            match old(self).spec_role() {
                Some(first) => if first == role {
                    r is Ok && final(self).spec_role() == Some(role)
                } else {
                    r == Err::<(), RoleError>(RoleError::RoleTaken(first))
                        && final(self).spec_role() == Some(first)
                },
                None => r is Ok && final(self).spec_role() == Some(role),
            },
    {
        match self.role {
            None => {
                self.role = Some(role);
                Ok(())
            },
            Some(first) => {
                if first == role {
                    Ok(())
                } else {
                    Err(RoleError::RoleTaken(first))
                }
            },
        }
    }
}

/// Why a surface refused a role.
#[derive(Debug, Clone, Copy, PartialEq, Eq, Structural)]
pub enum RoleError {
    /// The surface already has this other role, which it keeps for its lifetime.
    RoleTaken(Role),
}

/// A role, once given, is permanent: whatever role a surface that has one is
/// given, it has the same role afterwards, and the call succeeds exactly when
/// the role given is that role.
pub proof fn lemma_role_is_kept(before: Surface, after: Surface, role: Role, r: Result<(), RoleError>)
    requires
        match before.spec_role() {
            Some(first) => if first == role {
                r is Ok && after.spec_role() == Some(role)
            } else {
                r == Err::<(), RoleError>(RoleError::RoleTaken(first)) && after.spec_role() == Some(
                    first,
                )
            },
            None => r is Ok && after.spec_role() == Some(role),
        },
    ensures
        before.spec_role() is Some ==> after.spec_role() == before.spec_role(),
        before.spec_role() is Some ==> (r is Ok <==> before.spec_role() == Some(role)),
        after.spec_role() is Some,
{
}

} // verus!
