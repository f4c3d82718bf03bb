use vstd::prelude::*;

use crate::models::Profile;
use crate::models::ProfileResponse;
use crate::models::StorageAccess;
use crate::models::UpdateProfileRequest;
use crate::models::UpdateProfileResponse;
use crate::store::has_profile;
use crate::store::has_user_uuid;
use crate::store::lemma_lookup_profile;
use crate::store::lemma_lookup_user;
use crate::store::lookup_profile;
use crate::store::lookup_user;
use crate::store::only_profiles_differ;
use crate::store::profile_eq;
use crate::store::Store;

verus! {

/// Why a profile fetch was rejected.
#[derive(Clone, Copy, PartialEq, Eq, Structural, Debug)]
pub enum ProfileError {
    /// No users row carries the requested identifier.
    UnknownUser,
}

/// Handles a profile fetch: the profile row is created with defaults when
/// absent, then rendered together with the username. The fetch is rejected
/// exactly when the user itself is unknown; the default row, as in a lazy
/// create-on-read, is left behind even then.
pub fn profile_handler(store: &mut Store, user_uuid: u128, now: i64) -> (r: Result<
    ProfileResponse,
    ProfileError,
>)
    requires
        old(store).wf(),
    ensures
        final(store).wf(),
        only_profiles_differ(*final(store), *old(store)),
        has_profile(old(store).profiles@, user_uuid) ==> *final(store) == *old(store),
        !has_profile(old(store).profiles@, user_uuid) ==> {
            &&& final(store).profiles@.len() == old(store).profiles@.len() + 1
            &&& final(store).profiles@.subrange(0, old(store).profiles@.len() as int) == old(
                store,
            ).profiles@
            &&& final(store).profiles@.last().user_uuid == user_uuid
            &&& final(store).profiles@.last().bio is None
            &&& final(store).profiles@.last().avatar is None
            &&& final(store).profiles@.last().profile_banner is None
            &&& final(store).profiles@.last().storage_access == StorageAccess::Private
            &&& final(store).profiles@.last().allowed_viewers@ == Seq::<u128>::empty()
        },
        r is Err <==> !has_user_uuid(old(store).users@, user_uuid),
        r matches Err(e) ==> e == ProfileError::UnknownUser,
        r matches Ok(resp) ==> {
            let u = lookup_user(old(store).users@, user_uuid);
            &&& u is Some
            &&& resp.username@ == u.unwrap().username@
            &&& resp.registration_date == now
            &&& resp.online_status == false
            &&& (has_profile(old(store).profiles@, user_uuid) ==> {
                let p = lookup_profile(old(store).profiles@, user_uuid);
                &&& p is Some
                &&& resp.bio == p.unwrap().bio
                &&& resp.avatar == p.unwrap().avatar
                &&& resp.profile_banner == p.unwrap().profile_banner
                &&& resp.storage_access == p.unwrap().storage_access
            })
            &&& (!has_profile(old(store).profiles@, user_uuid) ==> {
                &&& resp.bio is None
                &&& resp.avatar is None
                &&& resp.profile_banner is None
                &&& resp.storage_access == StorageAccess::Private
            })
        },
{
    proof {
        lemma_lookup_profile(store.profiles@, user_uuid);
    }
    let profile: Profile = match store.get_profile_by_user_uuid(user_uuid) {
        Some(p) => {
            proof {
                let i = choose|i: int|
                    0 <= i < store.profiles@.len() && profile_eq(
                        #[trigger] store.profiles@[i],
                        p,
                    ) && p.user_uuid == user_uuid;
                assert(lookup_profile(store.profiles@, user_uuid) == Some(store.profiles@[i]));
            }
            p
        },
        None => {
            let _ = store.create_profile(user_uuid);
            match store.get_profile_by_user_uuid(user_uuid) {
                Some(p) => p,
                None => {
                    proof {
                        assert((store.profiles@.last()).user_uuid == user_uuid);
                        assert(false);
                    }
                    return Err(ProfileError::UnknownUser);
                },
            }
        },
    };
    proof {
        lemma_lookup_user(store.users@, user_uuid);
    }
    let user = match store.find_user_by_uuid(user_uuid) {
        Some(u) => u,
        None => {
            return Err(ProfileError::UnknownUser);
        },
    };
    proof {
        let i = choose|i: int|
            0 <= i < store.users@.len() && #[trigger] store.users@[i] == user && user.user_uuid
                == user_uuid;
        assert(lookup_user(store.users@, user_uuid) == Some(user));
    }
    Ok(
        ProfileResponse {
            username: user.username,
            bio: profile.bio,
            avatar: profile.avatar,
            profile_banner: profile.profile_banner,
            registration_date: now,
            online_status: false,
            storage_access: profile.storage_access,
        },
    )
}

/// Handles a profile update: the user's row takes the requested values, a
/// missing viewer list clears the stored one, and updating a user without a
/// profile row changes nothing. Either way the caller is told of success, as
/// a relational update that matched no row would report none either.
pub fn update_profile_handler(store: &mut Store, user_uuid: u128, request: UpdateProfileRequest) -> (r: (
    u16,
    UpdateProfileResponse,
))
    requires
        old(store).wf(),
    ensures
        final(store).wf(),
        only_profiles_differ(*final(store), *old(store)),
        r.0 == 200,
        r.1.message@ == "Profile updated successfully"@,
        !has_profile(old(store).profiles@, user_uuid) ==> *final(store) == *old(store),
        has_profile(old(store).profiles@, user_uuid) ==> exists|i: int|
            {
                &&& 0 <= i < old(store).profiles@.len()
                &&& (#[trigger] old(store).profiles@[i]).user_uuid == user_uuid
                &&& final(store).profiles@.len() == old(store).profiles@.len()
                &&& forall|k: int|
                    0 <= k < old(store).profiles@.len() && k != i ==> final(store).profiles@[k]
                        == old(store).profiles@[k]
                &&& final(store).profiles@[i].user_uuid == user_uuid
                &&& final(store).profiles@[i].bio == request.bio
                &&& final(store).profiles@[i].avatar == request.avatar
                &&& final(store).profiles@[i].profile_banner == request.profile_banner
                &&& final(store).profiles@[i].storage_access == request.storage_access
                &&& (request.allowed_viewers matches Some(v) ==> final(store).profiles@[i].allowed_viewers@ == v@)
                &&& (request.allowed_viewers is None ==> final(store).profiles@[i].allowed_viewers@ == Seq::<u128>::empty())
            },
{
    store.update_profile(user_uuid, request);
    (200, UpdateProfileResponse { message: String::from_str("Profile updated successfully") })
}

} // verus!
