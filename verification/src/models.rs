use vstd::prelude::*;

verus! {

/// Latest instant the store's clocks may name, as seconds since the Unix
/// epoch (9999-12-31T23:59:59Z). Keeping every timestamp inside this window
/// leaves headroom for the one-hour session expiry and stays well inside the
/// range that the calendar formatter accepts.
pub const MAX_UNIX_TIME: i64 = 253402300799;

/// A registered account. Immutable once created.
pub struct User {
    pub username: String,
    pub password_hash: String,
    pub invitation_code: String,
    pub user_uuid: u128,
}

/// A device row, keyed by the address the client connected from.
pub struct Device {
    pub device_id: u128,
    pub user_uuid: u128,
    pub ip_address: String,
}

/// A login session. The expiry is advisory: nothing rejects an expired but
/// not-yet-deleted session.
#[derive(Clone, Copy)]
pub struct Session {
    pub session_id: u128,
    pub user_uuid: u128,
    pub device_id: u128,
    pub expires_at: Option<i64>,
}

/// A persisted chat message. Append-only; the owning user is optional and
/// resolved best-effort when history is replayed.
pub struct Message {
    pub message: String,
    pub user_uuid: Option<u128>,
    pub created_at: i64,
}

/// Who may see a profile's stored files.
#[derive(Clone, Copy, PartialEq, Eq, Structural, Debug)]
pub enum StorageAccess {
    Private,
    Public,
    SpecificUsers,
}

/// A per-user profile row, created lazily on first fetch.
pub struct Profile {
    pub user_uuid: u128,
    pub bio: Option<String>,
    pub avatar: Option<String>,
    pub profile_banner: Option<String>,
    pub storage_access: StorageAccess,
    pub allowed_viewers: Vec<u128>,
}

/// The body returned by a profile fetch.
pub struct ProfileResponse {
    pub username: String,
    pub bio: Option<String>,
    pub avatar: Option<String>,
    pub profile_banner: Option<String>,
    pub registration_date: i64,
    pub online_status: bool,
    pub storage_access: StorageAccess,
}

/// An uploaded file's record.
pub struct File {
    pub file_id: u128,
    pub user_uuid: u128,
    pub filename: String,
    pub upload_time: i64,
}

/// A file listing entry, with the upload time already rendered as text.
pub struct FileInfo {
    pub filename: String,
    pub upload_time: String,
    pub file_id: u128,
}

/// The body of a profile update request.
pub struct UpdateProfileRequest {
    pub bio: Option<String>,
    pub avatar: Option<String>,
    pub profile_banner: Option<String>,
    pub storage_access: StorageAccess,
    pub allowed_viewers: Option<Vec<u128>>,
}

/// The body returned by a profile update.
pub struct UpdateProfileResponse {
    pub message: String,
}

/// The text column value that stands for each access mode.
pub open spec fn storage_access_text(a: StorageAccess) -> Seq<char> {
    match a {
        StorageAccess::Private => "Private"@,
        StorageAccess::Public => "Public"@,
        StorageAccess::SpecificUsers => "SpecificUsers"@,
    }
}

impl StorageAccess {
    /// Renders the mode as its stored text value.
    pub fn as_text(&self) -> (r: &'static str)
        ensures
            r@ == storage_access_text(*self),
    {
        match self {
            StorageAccess::Private => "Private",
            StorageAccess::Public => "Public",
            StorageAccess::SpecificUsers => "SpecificUsers",
        }
    }

    /// Reads a stored text value back into a mode; any other text is
    /// reported with the offending value in the message.
    pub fn from_text(s: &str) -> (r: Result<StorageAccess, String>)
        ensures
            s@ == "Private"@ ==> r == Result::<StorageAccess, String>::Ok(StorageAccess::Private),
            s@ == "Public"@ ==> r == Result::<StorageAccess, String>::Ok(StorageAccess::Public),
            s@ == "SpecificUsers"@ ==> r == Result::<StorageAccess, String>::Ok(
                StorageAccess::SpecificUsers,
            ),
            s@ != "Private"@ && s@ != "Public"@ && s@ != "SpecificUsers"@ ==> (r matches Err(m)
                && m@ == "Invalid storage access value: "@ + s@),
    {
        proof {
            reveal_strlit("Private");
            reveal_strlit("Public");
            reveal_strlit("SpecificUsers");
            // The three labels have distinct lengths, so no two compare equal.
            assert("Private"@.len() == 7);
            assert("Public"@.len() == 6);
            assert("SpecificUsers"@.len() == 13);
        }
        if crate::text::str_eq(s, "Private") {
            Ok(StorageAccess::Private)
        } else if crate::text::str_eq(s, "Public") {
            Ok(StorageAccess::Public)
        } else if crate::text::str_eq(s, "SpecificUsers") {
            Ok(StorageAccess::SpecificUsers)
        } else {
            Err(String::from_str("Invalid storage access value: ").concat(s))
        }
    }
}

} // verus!
