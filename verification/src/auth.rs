use crate::text::same_text;
use vstd::prelude::*;
use vstd::std_specs::cmp::PartialEqSpecImpl;
use vstd::std_specs::convert::FromSpecImpl;
use vstd::string::StringExecFns;

verus! {

/// The role name that makes a principal an administrator.
pub const ROLE_ADMIN: &'static str = "reactive-rooms:scope:write";

/// The role name that lets a principal host a room.
pub const ROLE_HOST: &'static str = "reactive-rooms:scope:host";

/// The role name that lets a principal join a room.
pub const ROLE_USER: &'static str = "reactive-rooms:scope:user";

/// What a principal is allowed to be.
#[derive(Debug, Eq)]
pub enum Role {
    Admin,
    Host,
    User,
    /// Any role name that this service gives no meaning to.
    Other(String),
}

/// A role as plain values.
pub enum RoleView {
    Admin,
    Host,
    User,
    Other(Seq<char>),
}

impl View for Role {
    type V = RoleView;

    open spec fn view(&self) -> RoleView {
        match self {
            Role::Admin => RoleView::Admin,
            Role::Host => RoleView::Host,
            Role::User => RoleView::User,
            Role::Other(name) => RoleView::Other(name@),
        }
    }
}

/// Whether a principal holding `held` may do what asks for `required`: an
/// administrator may do anything, anyone else only what asks for its own role.
pub open spec fn role_satisfies(held: RoleView, required: RoleView) -> bool {
    held == RoleView::Admin || held == required
}

/// Whether one of `roles` satisfies `required`.
pub open spec fn roles_satisfy(roles: Seq<Role>, required: RoleView) -> bool {
    exists|index: int| 0 <= index < roles.len() && role_satisfies(#[trigger] roles[index]@, required)
}

/// The role that a role name stands for.
pub open spec fn role_of_name(name: Seq<char>) -> RoleView {
    if name == ROLE_ADMIN@ {
        RoleView::Admin
    } else if name == ROLE_HOST@ {
        RoleView::Host
    } else if name == ROLE_USER@ {
        RoleView::User
    } else {
        RoleView::Other(name)
    }
}

/// The text that a role is shown as.
pub open spec fn role_label(role: RoleView) -> Seq<char> {
    match role {
        RoleView::Admin => "Admin"@,
        RoleView::Host => "Host"@,
        RoleView::User => "User"@,
        RoleView::Other(name) => "Unknown: "@ + name,
    }
}

impl PartialEq for Role {
    fn eq(&self, other: &Self) -> (equal: bool) {
        match self {
            Role::Admin => match other {
                Role::Admin => true,
                _ => false,
            },
            Role::Host => match other {
                Role::Host => true,
                _ => false,
            },
            Role::User => match other {
                Role::User => true,
                _ => false,
            },
            Role::Other(left) => match other {
                Role::Other(right) => *left == *right,
                _ => false,
            },
        }
    }
}

impl PartialEqSpecImpl for Role {
    open spec fn obeys_eq_spec() -> bool {
        true
    }

    open spec fn eq_spec(&self, other: &Self) -> bool {
        self@ == other@
    }
}

impl Clone for Role {
    fn clone(&self) -> (result: Self)
        ensures
            result == *self,
    {
        match self {
            Role::Admin => Role::Admin,
            Role::Host => Role::Host,
            Role::User => Role::User,
            Role::Other(name) => Role::Other(name.clone()),
        }
    }
}

impl From<String> for Role {
    fn from(value: String) -> (role: Self) {
        if same_text(value.as_str(), ROLE_ADMIN) {
            Role::Admin
        } else if same_text(value.as_str(), ROLE_HOST) {
            Role::Host
        } else if same_text(value.as_str(), ROLE_USER) {
            Role::User
        } else {
            Role::Other(value)
        }
    }
}

impl FromSpecImpl<String> for Role {
    open spec fn obeys_from_spec() -> bool {
        true
    }

    open spec fn from_spec(value: String) -> Self {
        if value@ == ROLE_ADMIN@ {
            Role::Admin
        } else if value@ == ROLE_HOST@ {
            Role::Host
        } else if value@ == ROLE_USER@ {
            Role::User
        } else {
            Role::Other(value)
        }
    }
}

impl Role {
    /// Whether a principal holding this role may do what asks for `required`.
    pub fn satisfies(&self, required: &Role) -> (result: bool)
        ensures
            result == role_satisfies(self@, required@),
    {
        *self == Role::Admin || self == required
    }

    /// The role that `name` stands for.
    pub fn from_name(name: &str) -> (role: Self)
        ensures
            role@ == role_of_name(name@),
    {
        Role::from(name.to_owned())
    }

    /// The text that the role is shown as.
    pub fn to_string(&self) -> (label: String)
        ensures
            label@ == role_label(self@),
    {
        match self {
            Role::Admin => "Admin".to_owned(),
            Role::Host => "Host".to_owned(),
            Role::User => "User".to_owned(),
            Role::Other(name) => String::from_str("Unknown: ").concat(name.as_str()),
        }
    }
}

/// Whether a principal holding `roles` may do what asks for `required`.
pub fn has_role(roles: &[Role], required: &Role) -> (result: bool)
    ensures
        result == roles_satisfy(roles@, required@),
{
    let mut index: usize = 0;
    while index < roles.len()
        invariant
            index <= roles.len(),
            forall|before: int| 0 <= before < index ==> !role_satisfies(roles[before]@, required@),
        decreases roles.len() - index,
    {
        if roles[index].satisfies(required) {
            return true;
        }
        index += 1;
    }
    false
}

} // verus!
