//! User and profile rows, and the shape of a profile update.

use crate::domain::ids::UserId;
use crate::endpoint::Update;
use vstd::prelude::*;

verus! {

/// A stored user account. Times are seconds since the Unix epoch.
#[derive(Clone, Debug)]
pub struct User {
    pub id: UserId,
    pub email: Option<String>,
    pub email_confirmed: Option<i64>,
    pub password_hash: String,
    pub display_name: Option<String>,
    pub handle: String,
    pub created_at: i64,
    pub profile_image: Option<String>,
}

/// The stored profile fields of a user, without the account internals.
#[derive(Clone, Debug)]
pub struct Profile {
    pub id: UserId,
    pub display_name: Option<String>,
    pub handle: String,
    pub email: Option<String>,
    pub profile_image: Option<String>,
    pub created_at: i64,
}

/// A requested profile update, field by field.
#[derive(Clone, Debug)]
pub struct UpdateProfileParams {
    pub id: UserId,
    pub display_name: Update<String>,
    pub email: Update<String>,
    pub password_hash: Update<String>,
    pub profile_image: Update<String>,
}

/// The column changes an update statement applies: an outer `None` leaves
/// the column alone, `Some(None)` clears it, `Some(Some(v))` stores `v`.
/// The password column cannot be cleared, only replaced.
#[derive(Clone, Debug)]
pub struct UpdateProfileChanges {
    pub display_name: Option<Option<String>>,
    pub email: Option<Option<String>>,
    pub password_hash: Option<String>,
    pub profile_image: Option<Option<String>>,
}

/// The change each requested update makes to its column.
pub fn update_profile_changes(params: UpdateProfileParams) -> (r: UpdateProfileChanges)
    ensures
        r.display_name == (match params.display_name {
            Update::Change(v) => Some(Some(v)),
            Update::NoChange => None::<Option<String>>,
            Update::SetNull => Some(None::<String>),
        }),
        r.email == (match params.email {
            Update::Change(v) => Some(Some(v)),
            Update::NoChange => None::<Option<String>>,
            Update::SetNull => Some(None::<String>),
        }),
        r.password_hash == (match params.password_hash {
            Update::Change(v) => Some(v),
            Update::NoChange | Update::SetNull => None::<String>,
        }),
        r.profile_image == (match params.profile_image {
            Update::Change(v) => Some(Some(v)),
            Update::NoChange => None::<Option<String>>,
            Update::SetNull => Some(None::<String>),
        }),
{
    UpdateProfileChanges {
        display_name: params.display_name.into_nullable(),
        email: params.email.into_nullable(),
        password_hash: params.password_hash.into_option(),
        profile_image: params.profile_image.into_nullable(),
    }
}

} // verus!
