//! Who a request comes from and what they may do.
use vstd::prelude::*;

use crate::text::{chars_of, starts_with, string_of, slice_chars};
use crate::web::config::{find_api_key, key_position, ApiKey, Permission};

verus! {

#[derive(Debug, Clone, PartialEq)]
pub struct AuthenticatedUser {
    pub name: String,
    pub permissions: Vec<Permission>,
}

impl AuthenticatedUser {
    pub fn has_permission(&self, permission: Permission) -> (r: bool)
        ensures
            r == self.permissions@.contains(permission),
    {
        let mut i: usize = 0;
        while i < self.permissions.len()
            invariant
                i <= self.permissions@.len(),
                forall|k: int| 0 <= k < i ==> self.permissions@[k] != permission,
            decreases self.permissions@.len() - i,
        {
            if self.permissions[i] == permission {
                assert(self.permissions@[i as int] == permission);
                return true;
            }
            i += 1;
        }
        false
    }
}

#[derive(Debug, Clone, Copy, PartialEq, Eq, Structural)]
pub enum AuthError {
    MissingAuth,
    InvalidFormat,
    InvalidKey,
}

#[derive(Debug, Clone, Copy, PartialEq, Eq, Structural)]
pub struct PermissionError;

pub fn require_permission(user: &AuthenticatedUser, permission: Permission) -> (r: Result<(), PermissionError>)
    ensures
        r is Ok <==> user.permissions@.contains(permission),
{
    if user.has_permission(permission) {
        Ok(())
    } else {
        Err(PermissionError)
    }
}

/// The key a `Bearer <key>` header carries.
pub open spec fn bearer_key(header: Seq<char>) -> Option<Seq<char>> {
    if starts_with(header, "Bearer "@) {
        Some(header.subrange(7, header.len() as int))
    } else {
        None
    }
}

/// Who an `Authorization` header identifies among the configured keys.
pub fn authenticate(header: Option<&str>, keys: &Vec<ApiKey>) -> (r: Result<AuthenticatedUser, AuthError>)
    ensures
        match header {
            None => r == Err::<AuthenticatedUser, AuthError>(AuthError::MissingAuth),
            Some(h) => match bearer_key(h@) {
                None => r == Err::<AuthenticatedUser, AuthError>(AuthError::InvalidFormat),
                Some(k) => match key_position(keys@, k) {
                    None => r == Err::<AuthenticatedUser, AuthError>(AuthError::InvalidKey),
                    Some(i) => r matches Ok(u) && u.name == keys@[i].name && u.permissions@ == keys@[i].permissions@,
                },
            },
        },
{
    let h = match header {
        Some(h) => h,
        None => return Err(AuthError::MissingAuth),
    };
    let cs = chars_of(h);
    if !crate::text::begins_with(&cs, "Bearer ") {
        return Err(AuthError::InvalidFormat);
    }
    proof {
        reveal_strlit("Bearer ");
    }
    let rest = slice_chars(&cs, 7, cs.len());
    let key = string_of(&rest);
    match find_api_key(keys, key.as_str()) {
        Some(k) => {
            let mut permissions: Vec<Permission> = Vec::new();
            let mut i: usize = 0;
            while i < k.permissions.len()
                invariant
                    i <= k.permissions@.len(),
                    permissions@ == k.permissions@.subrange(0, i as int),
                decreases k.permissions@.len() - i,
            {
                permissions.push(k.permissions[i]);
                assert(k.permissions@.subrange(0, i + 1) =~= k.permissions@.subrange(0, i as int).push(k.permissions@[i as int]));
                i += 1;
            }
            assert(k.permissions@.subrange(0, k.permissions@.len() as int) =~= k.permissions@);
            Ok(AuthenticatedUser { name: k.name.clone(), permissions })
        },
        None => Err(AuthError::InvalidKey),
    }
}

} // verus!
