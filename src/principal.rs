use vstd::prelude::*;

verus! {

/// Who makes a request, derived from the session of that request.
#[derive(Debug, PartialEq, Eq)]
pub enum Principal {
    Anonymous,
    Authenticated { user_id: String, display_name: String },
    /// An authenticated principal whose user id is the configured administrator's.
    Administrator { user_id: String, display_name: String },
}

/// What a principal query answers.
#[derive(Debug, PartialEq, Eq)]
pub struct UserStatus {
    pub authenticated: bool,
    pub admin: bool,
    pub display_name: Option<String>,
}

pub open spec fn classified(
    user_id: Option<String>,
    display_name: Option<String>,
    admin_id: Option<String>,
) -> Principal {
    match (user_id, display_name) {
        (Some(u), Some(n)) => if admin_id matches Some(a) && u@ == a@ {
            Principal::Administrator { user_id: u, display_name: n }
        } else {
            Principal::Authenticated { user_id: u, display_name: n }
        },
        _ => Principal::Anonymous,
    }
}

/// Classifies the identity that the session holds: both fields are needed for any
/// identity, and the administrator is recognised by user id alone. Where no administrator
/// id is configured, nobody is the administrator.
pub fn classify(
    user_id: Option<String>,
    display_name: Option<String>,
    admin_id: &Option<String>,
) -> (p: Principal)
    ensures
        p == classified(user_id, display_name, *admin_id),
{
    match (user_id, display_name) {
        (Some(u), Some(n)) => {
            let is_admin = match admin_id {
                Some(a) => u == *a,
                None => false,
            };
            if is_admin {
                Principal::Administrator { user_id: u, display_name: n }
            } else {
                Principal::Authenticated { user_id: u, display_name: n }
            }
        },
        _ => Principal::Anonymous,
    }
}

impl Principal {
    pub open spec fn authenticated(&self) -> bool {
        !(self is Anonymous)
    }

    pub open spec fn admin(&self) -> bool {
        self is Administrator
    }

    pub fn is_authenticated(&self) -> (r: bool)
        ensures
            r == self.authenticated(),
    {
        match self {
            Principal::Anonymous => false,
            _ => true,
        }
    }

    pub fn is_admin(&self) -> (r: bool)
        ensures
            r == self.admin(),
    {
        match self {
            Principal::Administrator { .. } => true,
            _ => false,
        }
    }

    /// The authentication and administrator flags, with the display name when there is one.
    pub fn status(&self) -> (r: UserStatus)
        ensures
            r.authenticated == self.authenticated(),
            r.admin == self.admin(),
            match self {
                Principal::Anonymous => r.display_name is None,
                Principal::Authenticated { display_name, .. } => r.display_name == Some(
                    *display_name,
                ),
                Principal::Administrator { display_name, .. } => r.display_name == Some(
                    *display_name,
                ),
            },
    {
        match self {
            Principal::Anonymous => UserStatus {
                authenticated: false,
                admin: false,
                display_name: None,
            },
            Principal::Authenticated { display_name, .. } => UserStatus {
                authenticated: true,
                admin: false,
                display_name: Some(display_name.clone()),
            },
            Principal::Administrator { display_name, .. } => UserStatus {
                authenticated: true,
                admin: true,
                display_name: Some(display_name.clone()),
            },
        }
    }
}

} // verus!
