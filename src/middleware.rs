use vstd::prelude::*;

use crate::settings::{setting_problem, NetworkSetting};
use crate::text::str_eq;

verus! {

/// The problems found in a rejected request, in the order found.
#[derive(Debug)]
pub struct ValidationError {
    pub messages: Vec<String>,
}

impl ValidationError {
    pub fn new() -> (r: ValidationError)
        ensures
            r.messages@.len() == 0,
    {
        ValidationError { messages: Vec::new() }
    }

    pub fn add_message(&mut self, message: String)
        ensures
            final(self).messages@ == old(self).messages@.push(message),
    {
        self.messages.push(message);
    }

    pub fn is_empty(&self) -> (r: bool)
        ensures
            r == (self.messages@.len() == 0),
    {
        self.messages.len() == 0
    }
}

/// The views of the messages of `e`.
pub open spec fn message_views(e: ValidationError) -> Seq<Seq<char>> {
    e.messages@.map_values(|m: String| m@)
}

/// Every problem of a setting: a missing name, then a missing value.
pub open spec fn setting_problems(s: NetworkSetting) -> Seq<Seq<char>> {
    (if s.setting_name@.len() == 0 {
        seq!["Setting name is required"@]
    } else {
        Seq::empty()
    }) + (if s.value@.len() == 0 {
        seq!["Value is required"@]
    } else {
        Seq::empty()
    })
}

/// Accepts a setting with a non-empty name and value; otherwise reports
/// every problem.
pub fn validate_network_setting(setting: &NetworkSetting) -> (r: Result<(), ValidationError>)
    ensures
        r is Ok <==> setting_problem(*setting) is None,
        r matches Err(e) ==> message_views(e) == setting_problems(*setting),
{
    let mut errors = ValidationError::new();
    if setting.setting_name.as_str().is_empty() {
        errors.add_message("Setting name is required".to_string());
    }
    if setting.value.as_str().is_empty() {
        errors.add_message("Value is required".to_string());
    }
    if errors.is_empty() {
        Ok(())
    } else {
        assert(message_views(errors) =~= setting_problems(*setting));
        Err(errors)
    }
}

/// Validates the setting carried by a request.
pub fn validate_request(setting: &NetworkSetting) -> (r: Result<(), ValidationError>)
    ensures
        r is Ok <==> setting_problem(*setting) is None,
        r matches Err(e) ==> message_views(e) == setting_problems(*setting),
{
    validate_network_setting(setting)
}

/// A caller of the network service.
#[derive(Debug, Clone)]
pub struct User {
    pub is_authenticated: bool,
    pub permissions: Vec<String>,
}

impl User {
    /// Whether `permission` is among the user's permissions.
    pub open spec fn grants(&self, permission: Seq<char>) -> bool {
        exists|i: int| 0 <= i < self.permissions@.len() && #[trigger] self.permissions@[i]@ == permission
    }

    pub fn has_permission(&self, permission: &str) -> (r: bool)
        ensures
            r == self.grants(permission@),
    {
        let mut i: usize = 0;
        while i < self.permissions.len()
            invariant
                i <= self.permissions@.len(),
                forall|j: int| 0 <= j < i ==> #[trigger] self.permissions@[j]@ != permission@,
            decreases self.permissions@.len() - i,
        {
            if str_eq(self.permissions[i].as_str(), permission) {
                return true;
            }
            i = i + 1;
        }
        false
    }
}

/// Accepts a present, authenticated user.
pub fn is_authenticated(user: &Option<User>) -> (r: Result<(), String>)
    ensures
        r is Ok <==> (user matches Some(u) && u.is_authenticated),
        r matches Err(m) ==> m@ == "Unauthorized"@,
{
    if let Some(user) = user {
        if user.is_authenticated {
            return Ok(());
        }
    }
    Err("Unauthorized".to_string())
}

/// Accepts a present user that holds `permission`.
pub fn check_permissions(user: &Option<User>, permission: &str) -> (r: Result<(), String>)
    ensures
        r is Ok <==> (user matches Some(u) && u.grants(permission@)),
        r matches Err(m) ==> m@ == "Forbidden"@,
{
    if let Some(user) = user {
        if user.has_permission(permission) {
            return Ok(());
        }
    }
    Err("Forbidden".to_string())
}

} // verus!
