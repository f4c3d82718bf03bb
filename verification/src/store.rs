use vstd::prelude::*;

use crate::models::Device;
use crate::models::File;
use crate::models::Message;
use crate::models::Profile;
use crate::models::Session;
use crate::models::StorageAccess;
use crate::models::UpdateProfileRequest;
use crate::models::FileInfo;
use crate::models::User;
use crate::text::escape_html;
use crate::text::str_eq;

verus! {

/// Why a store operation was refused.
#[derive(Clone, Copy, PartialEq, Eq, Structural, Debug)]
pub enum StoreError {
    /// A row with the same key already exists.
    Duplicate,
}

/// How many recent messages are replayed to a newly connected client.
pub const HISTORY_WINDOW: usize = 50;

/// The relational state of the service: one field per table.
pub struct Store {
    pub users: Vec<User>,
    pub devices: Vec<Device>,
    pub sessions: Vec<Session>,
    pub messages: Vec<Message>,
    pub profiles: Vec<Profile>,
    pub files: Vec<File>,
}

pub open spec fn has_username(users: Seq<User>, name: Seq<char>) -> bool {
    exists|i: int| 0 <= i < users.len() && (#[trigger] users[i]).username@ == name
}

pub open spec fn has_user_uuid(users: Seq<User>, uuid: u128) -> bool {
    exists|i: int| 0 <= i < users.len() && (#[trigger] users[i]).user_uuid == uuid
}

pub open spec fn has_session_id(sessions: Seq<Session>, session_id: u128) -> bool {
    exists|i: int| 0 <= i < sessions.len() && (#[trigger] sessions[i]).session_id == session_id
}

pub open spec fn has_device_id(devices: Seq<Device>, device_id: u128) -> bool {
    exists|i: int| 0 <= i < devices.len() && (#[trigger] devices[i]).device_id == device_id
}

pub open spec fn has_device_ip(devices: Seq<Device>, ip: Seq<char>) -> bool {
    exists|i: int| 0 <= i < devices.len() && (#[trigger] devices[i]).ip_address@ == ip
}

pub open spec fn has_file_id(files: Seq<File>, file_id: u128) -> bool {
    exists|i: int| 0 <= i < files.len() && (#[trigger] files[i]).file_id == file_id
}

pub open spec fn has_profile(profiles: Seq<Profile>, uuid: u128) -> bool {
    exists|i: int| 0 <= i < profiles.len() && (#[trigger] profiles[i]).user_uuid == uuid
}

/// All tables but the users table agree.
pub open spec fn only_users_differ(a: Store, b: Store) -> bool {
    &&& a.devices@ == b.devices@
    &&& a.sessions@ == b.sessions@
    &&& a.messages@ == b.messages@
    &&& a.profiles@ == b.profiles@
    &&& a.files@ == b.files@
}

/// All tables but the sessions table agree.
pub open spec fn only_sessions_differ(a: Store, b: Store) -> bool {
    &&& a.users@ == b.users@
    &&& a.devices@ == b.devices@
    &&& a.messages@ == b.messages@
    &&& a.profiles@ == b.profiles@
    &&& a.files@ == b.files@
}

/// All tables but the devices table agree.
pub open spec fn only_devices_differ(a: Store, b: Store) -> bool {
    &&& a.users@ == b.users@
    &&& a.sessions@ == b.sessions@
    &&& a.messages@ == b.messages@
    &&& a.profiles@ == b.profiles@
    &&& a.files@ == b.files@
}

/// All tables but the messages table agree.
pub open spec fn only_messages_differ(a: Store, b: Store) -> bool {
    &&& a.users@ == b.users@
    &&& a.devices@ == b.devices@
    &&& a.sessions@ == b.sessions@
    &&& a.profiles@ == b.profiles@
    &&& a.files@ == b.files@
}

/// All tables but the profiles table agree.
pub open spec fn only_profiles_differ(a: Store, b: Store) -> bool {
    &&& a.users@ == b.users@
    &&& a.devices@ == b.devices@
    &&& a.sessions@ == b.sessions@
    &&& a.messages@ == b.messages@
    &&& a.files@ == b.files@
}

/// All tables but the files table agree.
pub open spec fn only_files_differ(a: Store, b: Store) -> bool {
    &&& a.users@ == b.users@
    &&& a.devices@ == b.devices@
    &&& a.sessions@ == b.sessions@
    &&& a.messages@ == b.messages@
    &&& a.profiles@ == b.profiles@
}

impl Store {
    /// The store's invariants: key uniqueness per table, messages kept in
    /// arrival (chronological) order, and upload times within the window the
    /// calendar formatter accepts.
    pub open spec fn wf(self) -> bool {
        &&& forall|i: int, j: int|
            0 <= i < j < self.users@.len() ==> (#[trigger] self.users@[i]).username@ != (
            #[trigger] self.users@[j]).username@
        &&& forall|i: int, j: int|
            0 <= i < j < self.users@.len() ==> (#[trigger] self.users@[i]).user_uuid != (
            #[trigger] self.users@[j]).user_uuid
        &&& forall|i: int, j: int|
            0 <= i < j < self.sessions@.len() ==> (#[trigger] self.sessions@[i]).session_id != (
            #[trigger] self.sessions@[j]).session_id
        &&& forall|i: int, j: int|
            0 <= i < j < self.devices@.len() ==> (#[trigger] self.devices@[i]).device_id != (
            #[trigger] self.devices@[j]).device_id
        &&& forall|i: int, j: int|
            0 <= i < j < self.files@.len() ==> (#[trigger] self.files@[i]).file_id != (
            #[trigger] self.files@[j]).file_id
        &&& forall|i: int, j: int|
            0 <= i < j < self.profiles@.len() ==> (#[trigger] self.profiles@[i]).user_uuid != (
            #[trigger] self.profiles@[j]).user_uuid
        &&& forall|i: int, j: int|
            0 <= i < j < self.messages@.len() ==> (#[trigger] self.messages@[i]).created_at <= (
            #[trigger] self.messages@[j]).created_at
        &&& forall|i: int|
            0 <= i < self.files@.len() ==> 0 <= (#[trigger] self.files@[i]).upload_time
                <= crate::models::MAX_UNIX_TIME
    }

    /// An empty store.
    pub fn new() -> (r: Store)
        ensures
            r.wf(),
            r.users@ == Seq::<User>::empty(),
            r.devices@ == Seq::<Device>::empty(),
            r.sessions@ == Seq::<Session>::empty(),
            r.messages@ == Seq::<Message>::empty(),
            r.profiles@ == Seq::<Profile>::empty(),
            r.files@ == Seq::<File>::empty(),
    {
        Store {
            users: Vec::new(),
            devices: Vec::new(),
            sessions: Vec::new(),
            messages: Vec::new(),
            profiles: Vec::new(),
            files: Vec::new(),
        }
    }

    /// Inserts a user row. Refused exactly when the username or the user
    /// identifier is already taken, leaving the store unchanged.
    #[verifier::loop_isolation(false)]
    pub fn save_user_to_db(&mut self, user: User) -> (r: Result<(), StoreError>)
        requires
            old(self).wf(),
        ensures
            final(self).wf(),
            only_users_differ(*final(self), *old(self)),
            r is Err <==> (has_username(old(self).users@, user.username@) || has_user_uuid(
                old(self).users@,
                user.user_uuid,
            )),
            r is Ok ==> final(self).users@ == old(self).users@.push(user),
            r is Err ==> *final(self) == *old(self),
            r matches Err(e) ==> e == StoreError::Duplicate,
    {
        let n = self.users.len();
        for i in 0..n
            invariant
                n == self.users@.len(),
                forall|k: int|
                    0 <= k < i ==> (#[trigger] self.users@[k]).username@ != user.username@
                        && self.users@[k].user_uuid != user.user_uuid,
        {
            if str_eq(self.users[i].username.as_str(), user.username.as_str())
                || self.users[i].user_uuid == user.user_uuid {
                return Err(StoreError::Duplicate);
            }
        }
        let ghost pre = self.users@;
        self.users.push(user);
        proof {
            assert forall|a: int, b: int|
                0 <= a < b < self.users@.len() implies (#[trigger] self.users@[a]).username@ != (
            #[trigger] self.users@[b]).username@ && self.users@[a].user_uuid
                != self.users@[b].user_uuid by {
                if b == pre.len() {
                    assert(self.users@[a] == pre[a]);
                    assert(self.users@[b] == user);
                } else {
                    assert(self.users@[a] == pre[a]);
                    assert(self.users@[b] == pre[b]);
                }
            }
        }
        Ok(())
    }

    /// Looks a user up by username; `None` exactly when no row matches.
    pub fn find_user_by_username(&self, username: &str) -> (r: Option<User>)
        ensures
            r matches Some(u) ==> exists|i: int|
                0 <= i < self.users@.len() && #[trigger] self.users@[i] == u && u.username@
                    == username@,
            r is Some <==> has_username(self.users@, username@),
    {
        let n = self.users.len();
        for i in 0..n
            invariant
                n == self.users@.len(),
                forall|k: int| 0 <= k < i ==> (#[trigger] self.users@[k]).username@ != username@,
        {
            if str_eq(self.users[i].username.as_str(), username) {
                return Some(clone_user(&self.users[i]));
            }
        }
        None
    }

    /// Looks a user up by identifier; `None` exactly when no row matches.
    pub fn find_user_by_uuid(&self, user_uuid: u128) -> (r: Option<User>)
        ensures
            r matches Some(u) ==> exists|i: int|
                0 <= i < self.users@.len() && #[trigger] self.users@[i] == u && u.user_uuid
                    == user_uuid,
            r is Some <==> has_user_uuid(self.users@, user_uuid),
    {
        let n = self.users.len();
        for i in 0..n
            invariant
                n == self.users@.len(),
                forall|k: int| 0 <= k < i ==> (#[trigger] self.users@[k]).user_uuid != user_uuid,
        {
            if self.users[i].user_uuid == user_uuid {
                return Some(clone_user(&self.users[i]));
            }
        }
        None
    }

    /// Inserts a session row. Refused exactly when the session identifier is
    /// already taken, leaving the store unchanged.
    #[verifier::loop_isolation(false)]
    pub fn save_session_to_db(&mut self, session: Session) -> (r: Result<(), StoreError>)
        requires
            old(self).wf(),
        ensures
            final(self).wf(),
            only_sessions_differ(*final(self), *old(self)),
            r is Err <==> has_session_id(old(self).sessions@, session.session_id),
            r is Ok ==> final(self).sessions@ == old(self).sessions@.push(session),
            r is Err ==> *final(self) == *old(self),
            r matches Err(e) ==> e == StoreError::Duplicate,
    {
        let n = self.sessions.len();
        for i in 0..n
            invariant
                n == self.sessions@.len(),
                forall|k: int|
                    0 <= k < i ==> (#[trigger] self.sessions@[k]).session_id != session.session_id,
        {
            if self.sessions[i].session_id == session.session_id {
                return Err(StoreError::Duplicate);
            }
        }
        let ghost pre = self.sessions@;
        self.sessions.push(session);
        proof {
            assert forall|a: int, b: int|
                0 <= a < b < self.sessions@.len() implies (#[trigger] self.sessions@[a]).session_id
                != (#[trigger] self.sessions@[b]).session_id by {
                if b == pre.len() {
                    assert(self.sessions@[a] == pre[a]);
                    assert(self.sessions@[b] == session);
                } else {
                    assert(self.sessions@[a] == pre[a]);
                    assert(self.sessions@[b] == pre[b]);
                }
            }
        }
        Ok(())
    }

    /// Looks a session up by its identifier; `None` exactly when no row
    /// matches.
    pub fn find_session_by_session_id(&self, session_id: u128) -> (r: Option<Session>)
        ensures
            r matches Some(s) ==> exists|i: int|
                0 <= i < self.sessions@.len() && #[trigger] self.sessions@[i] == s && s.session_id
                    == session_id,
            r is Some <==> has_session_id(self.sessions@, session_id),
    {
        let n = self.sessions.len();
        for i in 0..n
            invariant
                n == self.sessions@.len(),
                forall|k: int|
                    0 <= k < i ==> (#[trigger] self.sessions@[k]).session_id != session_id,
        {
            if self.sessions[i].session_id == session_id {
                return Some(self.sessions[i]);
            }
        }
        None
    }

    /// Deletes the session row with the given identifier, if any; afterwards
    /// no session with that identifier remains.
    #[verifier::loop_isolation(false)]
    pub fn delete_session_by_session_id(&mut self, session_id: u128)
        requires
            old(self).wf(),
        ensures
            final(self).wf(),
            only_sessions_differ(*final(self), *old(self)),
            !has_session_id(final(self).sessions@, session_id),
            has_session_id(old(self).sessions@, session_id) ==> exists|i: int|
                0 <= i < old(self).sessions@.len() && (#[trigger] old(self).sessions@[i]).session_id
                    == session_id && final(self).sessions@ == old(self).sessions@.remove(i),
            !has_session_id(old(self).sessions@, session_id) ==> *final(self) == *old(self),
    {
        let n = self.sessions.len();
        for i in 0..n
            invariant
                *self == *old(self),
                n == self.sessions@.len(),
                forall|k: int|
                    0 <= k < i ==> (#[trigger] self.sessions@[k]).session_id != session_id,
        {
            if self.sessions[i].session_id == session_id {
                let ghost pre = self.sessions@;
                self.sessions.remove(i);
                proof {
                    pre.remove_ensures(i as int);
                    assert forall|k: int|
                        0 <= k < self.sessions@.len() implies (#[trigger] self.sessions@[k]).session_id
                        != session_id by {
                        if k < i {
                            assert(self.sessions@[k] == pre[k]);
                        } else {
                            assert(self.sessions@[k] == pre[k + 1]);
                        }
                    }
                    assert forall|a: int, b: int|
                        0 <= a < b < self.sessions@.len() implies (#[trigger] self.sessions@[a]).session_id
                        != (#[trigger] self.sessions@[b]).session_id by {
                        let a0: int = if a < i { a } else { a + 1 };
                        let b0: int = if b < i { b } else { b + 1 };
                        assert(self.sessions@[a] == pre[a0]);
                        assert(self.sessions@[b] == pre[b0]);
                    }
                }
                return ;
            }
        }
    }

    /// Inserts a device row. Refused exactly when the device identifier is
    /// already taken, leaving the store unchanged.
    #[verifier::loop_isolation(false)]
    pub fn save_device_to_db(&mut self, device: Device) -> (r: Result<(), StoreError>)
        requires
            old(self).wf(),
        ensures
            final(self).wf(),
            only_devices_differ(*final(self), *old(self)),
            r is Err <==> has_device_id(old(self).devices@, device.device_id),
            r is Ok ==> final(self).devices@ == old(self).devices@.push(device),
            r is Err ==> *final(self) == *old(self),
            r matches Err(e) ==> e == StoreError::Duplicate,
    {
        let n = self.devices.len();
        for i in 0..n
            invariant
                *self == *old(self),
                n == self.devices@.len(),
                forall|k: int|
                    0 <= k < i ==> (#[trigger] self.devices@[k]).device_id != device.device_id,
        {
            if self.devices[i].device_id == device.device_id {
                return Err(StoreError::Duplicate);
            }
        }
        let ghost pre = self.devices@;
        self.devices.push(device);
        proof {
            assert forall|a: int, b: int|
                0 <= a < b < self.devices@.len() implies (#[trigger] self.devices@[a]).device_id
                != (#[trigger] self.devices@[b]).device_id by {
                if b == pre.len() {
                    assert(self.devices@[a] == pre[a]);
                    assert(self.devices@[b] == device);
                } else {
                    assert(self.devices@[a] == pre[a]);
                    assert(self.devices@[b] == pre[b]);
                }
            }
        }
        Ok(())
    }

    /// Looks a device up by the address it connected from; `None` exactly
    /// when no row matches. Address strings are compared as given; the
    /// socket layer hands them over in canonical form.
    #[verifier::loop_isolation(false)]
    pub fn find_device_by_ip_mac(&self, ip_address: &str) -> (r: Option<Device>)
        ensures
            r matches Some(d) ==> exists|i: int|
                0 <= i < self.devices@.len() && #[trigger] self.devices@[i] == d && d.ip_address@
                    == ip_address@,
            r matches Some(d) ==> lookup_device(self.devices@, ip_address@) == Some(d),
            r is None ==> lookup_device(self.devices@, ip_address@) is None,
            r is Some <==> has_device_ip(self.devices@, ip_address@),
    {
        let n = self.devices.len();
        for i in 0..n
            invariant
                n == self.devices@.len(),
                forall|k: int|
                    0 <= k < i ==> (#[trigger] self.devices@[k]).ip_address@ != ip_address@,
        {
            if str_eq(self.devices[i].ip_address.as_str(), ip_address) {
                proof {
                    lemma_lookup_device_skip(self.devices@, ip_address@, i as int);
                    assert(self.devices@.skip(i as int)[0] == self.devices@[i as int]);
                    assert(lookup_device(self.devices@, ip_address@) == Some(
                        self.devices@[i as int],
                    ));
                }
                return Some(clone_device(&self.devices[i]));
            }
        }
        proof {
            lemma_lookup_device_skip(self.devices@, ip_address@, n as int);
            assert(self.devices@.skip(n as int) =~= Seq::<Device>::empty());
        }
        None
    }

    /// Appends a chat message row stamped with the given time. The clock
    /// value may not run backwards with respect to the stored rows, which
    /// keeps the table in chronological order.
    #[verifier::loop_isolation(false)]
    pub fn save_message_to_db(&mut self, message: &str, user_uuid: u128, now: i64)
        requires
            old(self).wf(),
            old(self).messages@.len() > 0 ==> old(self).messages@.last().created_at <= now,
        ensures
            final(self).wf(),
            only_messages_differ(*final(self), *old(self)),
            final(self).messages@.len() == old(self).messages@.len() + 1,
            final(self).messages@.subrange(0, old(self).messages@.len() as int) == old(self).messages@,
            final(self).messages@.last().message@ == message@,
            final(self).messages@.last().user_uuid == Some(user_uuid),
            final(self).messages@.last().created_at == now,
    {
        let ghost pre = self.messages@;
        let row = Message { message: String::from_str(message), user_uuid: Some(user_uuid), created_at: now };
        self.messages.push(row);
        proof {
            assert(self.messages@.subrange(0, pre.len() as int) =~= pre);
            assert forall|a: int, b: int|
                0 <= a < b < self.messages@.len() implies (#[trigger] self.messages@[a]).created_at
                <= (#[trigger] self.messages@[b]).created_at by {
                assert(self.messages@[a] == pre[a]);
                if b == pre.len() {
                    if pre.len() > 0 {
                        assert(pre.last() == pre[pre.len() - 1]);
                    }
                } else {
                    assert(self.messages@[b] == pre[b]);
                }
            }
        }
    }

    /// The lines replayed to a newly connected client: the most recent
    /// messages, bounded by the history window, oldest first, each rendered
    /// with its sender's HTML-escaped username.
    #[verifier::loop_isolation(false)]
    pub fn send_message_history(&self) -> (r: Vec<String>)
        requires
            self.wf(),
        ensures
            r@.len() == self.messages@.len() - history_window_start(self.messages@.len() as int),
            forall|k: int|
                0 <= k < r@.len() ==> (#[trigger] r@[k])@ == history_line(
                    self.users@,
                    self.messages@[history_window_start(self.messages@.len() as int) + k],
                ),
    {
        let len = self.messages.len();
        let start = if len > HISTORY_WINDOW { len - HISTORY_WINDOW } else { 0 };
        let mut out: Vec<String> = Vec::new();
        assert(start as int == history_window_start(self.messages@.len() as int));
        for j in start..len
            invariant
                out@.len() == j - start,
                forall|k: int|
                    0 <= k < out@.len() ==> (#[trigger] out@[k])@ == history_line(
                        self.users@,
                        self.messages@[start as int + k],
                    ),
        {
            let msg = &self.messages[j];
            let line = match msg.user_uuid {
                Some(uuid) => {
                    proof {
                        lemma_lookup_user(self.users@, uuid);
                    }
                    match self.find_user_by_uuid(uuid) {
                        Some(user) => {
                            let ghost i = choose|i: int|
                                0 <= i < self.users@.len() && self.users@[i] == user
                                    && user.user_uuid == uuid;
                            assert(lookup_user(self.users@, uuid) == Some(user));
                            escape_html(user.username.as_str()).concat(": ").concat(
                                msg.message.as_str(),
                            )
                        },
                        None => String::from_str("Unknown User: ").concat(msg.message.as_str()),
                    }
                },
                None => String::from_str("Unknown User: ").concat(msg.message.as_str()),
            };
            out.push(line);
        }
        out
    }

    /// Inserts a file row stamped with the given time. Refused exactly when
    /// the file identifier is already taken, leaving the store unchanged.
    #[verifier::loop_isolation(false)]
    pub fn save_file_info(&mut self, filename: &str, user_uuid: u128, file_id: u128, now: i64) -> (r:
        Result<(), StoreError>)
        requires
            old(self).wf(),
            0 <= now <= crate::models::MAX_UNIX_TIME,
        ensures
            final(self).wf(),
            only_files_differ(*final(self), *old(self)),
            r is Err <==> has_file_id(old(self).files@, file_id),
            r is Ok ==> {
                &&& final(self).files@.len() == old(self).files@.len() + 1
                &&& final(self).files@.subrange(0, old(self).files@.len() as int) == old(self).files@
                &&& final(self).files@.last().filename@ == filename@
                &&& final(self).files@.last().user_uuid == user_uuid
                &&& final(self).files@.last().file_id == file_id
                &&& final(self).files@.last().upload_time == now
            },
            r is Err ==> *final(self) == *old(self),
            r matches Err(e) ==> e == StoreError::Duplicate,
    {
        let n = self.files.len();
        for i in 0..n
            invariant
                *self == *old(self),
                n == self.files@.len(),
                forall|k: int| 0 <= k < i ==> (#[trigger] self.files@[k]).file_id != file_id,
        {
            if self.files[i].file_id == file_id {
                return Err(StoreError::Duplicate);
            }
        }
        let ghost pre = self.files@;
        let row = File {
            file_id,
            user_uuid,
            filename: String::from_str(filename),
            upload_time: now,
        };
        self.files.push(row);
        proof {
            assert(self.files@.subrange(0, pre.len() as int) =~= pre);
            assert forall|a: int, b: int|
                0 <= a < b < self.files@.len() implies (#[trigger] self.files@[a]).file_id != (
            #[trigger] self.files@[b]).file_id by {
                assert(self.files@[a] == pre[a]);
                if b < pre.len() {
                    assert(self.files@[b] == pre[b]);
                }
            }
        }
        Ok(())
    }

    /// Lists a user's files in store order, the upload time of each rendered
    /// as RFC 3339 text.
    #[verifier::loop_isolation(false)]
    pub fn get_files_by_user_uuid(&self, user_uuid: u128) -> (r: Vec<FileInfo>)
        requires
            self.wf(),
        ensures
            ({
                let sel = user_files(self.files@, user_uuid);
                &&& r@.len() == sel.len()
                &&& forall|k: int|
                    0 <= k < sel.len() ==> (#[trigger] r@[k]).filename@ == sel[k].filename@
                        && r@[k].file_id == sel[k].file_id && r@[k].upload_time@
                        == crate::clock::rfc3339_of(sel[k].upload_time)
            }),
    {
        let n = self.files.len();
        let mut out: Vec<FileInfo> = Vec::new();
        assert(user_files(self.files@.take(0), user_uuid) =~= Seq::<File>::empty());
        for j in 0..n
            invariant
                n == self.files@.len(),
                ({
                    let sel = user_files(self.files@.take(j as int), user_uuid);
                    &&& out@.len() == sel.len()
                    &&& forall|k: int|
                        0 <= k < sel.len() ==> (#[trigger] out@[k]).filename@ == sel[k].filename@
                            && out@[k].file_id == sel[k].file_id && out@[k].upload_time@
                            == crate::clock::rfc3339_of(sel[k].upload_time)
                }),
        {
            let f = &self.files[j];
            proof {
                let cur = self.files@.take(j as int + 1);
                let pre = self.files@.take(j as int);
                reveal_with_fuel(Seq::filter, 2);
                assert(cur.drop_last() =~= pre);
                assert(cur.last() == self.files@[j as int]);
                if self.files@[j as int].user_uuid == user_uuid {
                    assert(user_files(cur, user_uuid) == user_files(pre, user_uuid).push(
                        cur.last(),
                    ));
                } else {
                    assert(user_files(cur, user_uuid) == user_files(pre, user_uuid));
                }
            }
            if f.user_uuid == user_uuid {
                out.push(
                    FileInfo {
                        filename: f.filename.clone(),
                        upload_time: crate::clock::format_rfc3339(f.upload_time),
                        file_id: f.file_id,
                    },
                );
            }
        }
        proof {
            assert(self.files@.take(n as int) =~= self.files@);
        }
        out
    }

    /// Looks a profile up by its owner; `None` exactly when no row matches.
    pub fn get_profile_by_user_uuid(&self, user_uuid: u128) -> (r: Option<Profile>)
        ensures
            r matches Some(p) ==> exists|i: int|
                0 <= i < self.profiles@.len() && profile_eq(#[trigger] self.profiles@[i], p)
                    && p.user_uuid == user_uuid,
            r is Some <==> has_profile(self.profiles@, user_uuid),
    {
        let n = self.profiles.len();
        for i in 0..n
            invariant
                n == self.profiles@.len(),
                forall|k: int| 0 <= k < i ==> (#[trigger] self.profiles@[k]).user_uuid != user_uuid,
        {
            if self.profiles[i].user_uuid == user_uuid {
                return Some(clone_profile(&self.profiles[i]));
            }
        }
        None
    }

    /// Inserts the default profile row for a user: everything empty and
    /// access private. Refused exactly when the user already has a profile,
    /// leaving the store unchanged.
    #[verifier::loop_isolation(false)]
    pub fn create_profile(&mut self, user_uuid: u128) -> (r: Result<(), StoreError>)
        requires
            old(self).wf(),
        ensures
            final(self).wf(),
            only_profiles_differ(*final(self), *old(self)),
            r is Err <==> has_profile(old(self).profiles@, user_uuid),
            r is Ok ==> {
                &&& final(self).profiles@.len() == old(self).profiles@.len() + 1
                &&& final(self).profiles@.subrange(0, old(self).profiles@.len() as int) == old(self).profiles@
                &&& final(self).profiles@.last().user_uuid == user_uuid
                &&& final(self).profiles@.last().bio is None
                &&& final(self).profiles@.last().avatar is None
                &&& final(self).profiles@.last().profile_banner is None
                &&& final(self).profiles@.last().storage_access == StorageAccess::Private
                &&& final(self).profiles@.last().allowed_viewers@ == Seq::<u128>::empty()
            },
            r is Err ==> *final(self) == *old(self),
            r matches Err(e) ==> e == StoreError::Duplicate,
    {
        let n = self.profiles.len();
        for i in 0..n
            invariant
                *self == *old(self),
                n == self.profiles@.len(),
                forall|k: int| 0 <= k < i ==> (#[trigger] self.profiles@[k]).user_uuid != user_uuid,
        {
            if self.profiles[i].user_uuid == user_uuid {
                return Err(StoreError::Duplicate);
            }
        }
        let ghost pre = self.profiles@;
        let row = Profile {
            user_uuid,
            bio: None,
            avatar: None,
            profile_banner: None,
            storage_access: StorageAccess::Private,
            allowed_viewers: Vec::new(),
        };
        self.profiles.push(row);
        proof {
            assert(self.profiles@.subrange(0, pre.len() as int) =~= pre);
            assert forall|a: int, b: int|
                0 <= a < b < self.profiles@.len() implies (#[trigger] self.profiles@[a]).user_uuid
                != (#[trigger] self.profiles@[b]).user_uuid by {
                assert(self.profiles@[a] == pre[a]);
                if b < pre.len() {
                    assert(self.profiles@[b] == pre[b]);
                }
            }
        }
        Ok(())
    }

    /// Overwrites a user's profile row with the requested values; a missing
    /// viewer list clears the stored one. Updating a user without a profile
    /// row changes nothing, as a relational update matching no row would.
    #[verifier::loop_isolation(false)]
    pub fn update_profile(&mut self, user_uuid: u128, request: UpdateProfileRequest)
        requires
            old(self).wf(),
        ensures
            final(self).wf(),
            only_profiles_differ(*final(self), *old(self)),
            !has_profile(old(self).profiles@, user_uuid) ==> *final(self) == *old(self),
            has_profile(old(self).profiles@, user_uuid) ==> exists|i: int|
                {
                    &&& 0 <= i < old(self).profiles@.len()
                    &&& (#[trigger] old(self).profiles@[i]).user_uuid == user_uuid
                    &&& final(self).profiles@.len() == old(self).profiles@.len()
                    &&& forall|k: int|
                        0 <= k < old(self).profiles@.len() && k != i ==> final(self).profiles@[k]
                            == old(self).profiles@[k]
                    &&& final(self).profiles@[i].user_uuid == user_uuid
                    &&& final(self).profiles@[i].bio == request.bio
                    &&& final(self).profiles@[i].avatar == request.avatar
                    &&& final(self).profiles@[i].profile_banner == request.profile_banner
                    &&& final(self).profiles@[i].storage_access == request.storage_access
                    &&& (request.allowed_viewers matches Some(v) ==> final(self).profiles@[i].allowed_viewers@ == v@)
                    &&& (request.allowed_viewers is None ==> final(self).profiles@[i].allowed_viewers@ == Seq::<u128>::empty())
                },
    {
        let n = self.profiles.len();
        for i in 0..n
            invariant
                *self == *old(self),
                n == self.profiles@.len(),
                forall|k: int| 0 <= k < i ==> (#[trigger] self.profiles@[k]).user_uuid != user_uuid,
        {
            if self.profiles[i].user_uuid == user_uuid {
                let ghost pre = self.profiles@;
                let viewers = match request.allowed_viewers {
                    Some(v) => v,
                    None => Vec::new(),
                };
                let row = Profile {
                    user_uuid,
                    bio: request.bio,
                    avatar: request.avatar,
                    profile_banner: request.profile_banner,
                    storage_access: request.storage_access,
                    allowed_viewers: viewers,
                };
                self.profiles[i] = row;
                proof {
                    assert forall|a: int, b: int|
                        0 <= a < b < self.profiles@.len() implies (
                    #[trigger] self.profiles@[a]).user_uuid != (
                    #[trigger] self.profiles@[b]).user_uuid by {
                        assert(pre[a].user_uuid != pre[b].user_uuid);
                    }
                }
                return ;
            }
        }
    }
}

/// How far from the front the replayed history window starts, for a message
/// table of the given length.
pub open spec fn history_window_start(len: int) -> int {
    if len > HISTORY_WINDOW as int {
        len - HISTORY_WINDOW as int
    } else {
        0
    }
}

/// The files belonging to one user, in store order.
pub open spec fn user_files(files: Seq<File>, user_uuid: u128) -> Seq<File> {
    files.filter(|f: File| f.user_uuid == user_uuid)
}

/// Two profile rows carry the same data. (A list field is compared by its
/// contents, which is what a row's identity consists of.)
pub open spec fn profile_eq(a: Profile, b: Profile) -> bool {
    &&& a.user_uuid == b.user_uuid
    &&& a.bio == b.bio
    &&& a.avatar == b.avatar
    &&& a.profile_banner == b.profile_banner
    &&& a.storage_access == b.storage_access
    &&& a.allowed_viewers@ == b.allowed_viewers@
}

/// The first users row carrying the given identifier, if any.
pub open spec fn lookup_user(users: Seq<User>, uuid: u128) -> Option<User>
    decreases users.len(),
{
    if users.len() == 0 {
        None
    } else if users[0].user_uuid == uuid {
        Some(users[0])
    } else {
        lookup_user(users.drop_first(), uuid)
    }
}

/// The first users row carrying the given username, if any.
pub open spec fn lookup_username(users: Seq<User>, name: Seq<char>) -> Option<User>
    decreases users.len(),
{
    if users.len() == 0 {
        None
    } else if users[0].username@ == name {
        Some(users[0])
    } else {
        lookup_username(users.drop_first(), name)
    }
}

/// The first devices row carrying the given address, if any.
pub open spec fn lookup_device(devices: Seq<Device>, ip: Seq<char>) -> Option<Device>
    decreases devices.len(),
{
    if devices.len() == 0 {
        None
    } else if devices[0].ip_address@ == ip {
        Some(devices[0])
    } else {
        lookup_device(devices.drop_first(), ip)
    }
}

/// Rows before the first match do not change what `lookup_device` finds.
pub proof fn lemma_lookup_device_skip(devices: Seq<Device>, ip: Seq<char>, i: int)
    requires
        0 <= i <= devices.len(),
        forall|k: int| 0 <= k < i ==> (#[trigger] devices[k]).ip_address@ != ip,
    ensures
        lookup_device(devices, ip) == lookup_device(devices.skip(i), ip),
    decreases i,
{
    if i > 0 {
        let tail = devices.drop_first();
        assert(devices.skip(1) =~= tail);
        assert(devices[0].ip_address@ != ip);
        assert(lookup_device(devices, ip) == lookup_device(tail, ip));
        assert forall|k: int| 0 <= k < i - 1 implies (#[trigger] tail[k]).ip_address@ != ip by {
            assert(tail[k] == devices[k + 1]);
        }
        lemma_lookup_device_skip(tail, ip, i - 1);
        assert(tail.skip(i - 1) =~= devices.skip(i));
    } else {
        assert(devices.skip(0) =~= devices);
    }
}

/// The first profiles row owned by the given user, if any.
pub open spec fn lookup_profile(profiles: Seq<Profile>, uuid: u128) -> Option<Profile>
    decreases profiles.len(),
{
    if profiles.len() == 0 {
        None
    } else if profiles[0].user_uuid == uuid {
        Some(profiles[0])
    } else {
        lookup_profile(profiles.drop_first(), uuid)
    }
}

/// The user a session resolves to: the first sessions row carrying the given
/// identifier names it, if any row does.
pub open spec fn session_user(sessions: Seq<Session>, session_id: u128) -> Option<u128>
    decreases sessions.len(),
{
    if sessions.len() == 0 {
        None
    } else if sessions[0].session_id == session_id {
        Some(sessions[0].user_uuid)
    } else {
        session_user(sessions.drop_first(), session_id)
    }
}

/// One replayed history line: the sender's HTML-escaped username and the
/// message body, or the placeholder label when the sender is unknown.
pub open spec fn history_line(users: Seq<User>, m: Message) -> Seq<char> {
    match m.user_uuid {
        Some(uuid) => match lookup_user(users, uuid) {
            Some(u) => crate::text::escape_html_spec(u.username@) + ": "@ + m.message@,
            None => "Unknown User: "@ + m.message@,
        },
        None => "Unknown User: "@ + m.message@,
    }
}

/// With identifiers unique, `lookup_user` finds exactly the row that carries
/// the identifier, and nothing when no row does.
pub proof fn lemma_lookup_user(users: Seq<User>, uuid: u128)
    requires
        forall|i: int, j: int|
            0 <= i < j < users.len() ==> (#[trigger] users[i]).user_uuid != (
            #[trigger] users[j]).user_uuid,
    ensures
        !has_user_uuid(users, uuid) ==> lookup_user(users, uuid) is None,
        forall|i: int|
            0 <= i < users.len() && (#[trigger] users[i]).user_uuid == uuid ==> lookup_user(
                users,
                uuid,
            ) == Some(users[i]),
    decreases users.len(),
{
    if users.len() > 0 {
        let tail = users.drop_first();
        assert forall|i: int, j: int|
            0 <= i < j < tail.len() implies (#[trigger] tail[i]).user_uuid != (
        #[trigger] tail[j]).user_uuid by {
            assert(tail[i] == users[i + 1]);
            assert(tail[j] == users[j + 1]);
        }
        lemma_lookup_user(tail, uuid);
        if users[0].user_uuid == uuid {
            assert forall|i: int|
                0 <= i < users.len() && (#[trigger] users[i]).user_uuid == uuid implies lookup_user(
                users,
                uuid,
            ) == Some(users[i]) by {
                if i > 0 {
                    assert(users[i].user_uuid != users[0].user_uuid);
                }
            }
        } else {
            if has_user_uuid(users, uuid) {
                let w = choose|i: int|
                    0 <= i < users.len() && (#[trigger] users[i]).user_uuid == uuid;
                assert(tail[w - 1] == users[w]);
                assert(has_user_uuid(tail, uuid));
            }
            assert forall|i: int|
                0 <= i < users.len() && (#[trigger] users[i]).user_uuid == uuid implies lookup_user(
                users,
                uuid,
            ) == Some(users[i]) by {
                assert(tail[i - 1] == users[i]);
            }
            if !has_user_uuid(users, uuid) {
                assert forall|i: int|
                    0 <= i < tail.len() implies (#[trigger] tail[i]).user_uuid != uuid by {
                    assert(tail[i] == users[i + 1]);
                }
            }
        }
    }
}

/// With usernames unique, `lookup_username` finds exactly the row that
/// carries the name, and nothing when no row does.
pub proof fn lemma_lookup_username(users: Seq<User>, name: Seq<char>)
    requires
        forall|i: int, j: int|
            0 <= i < j < users.len() ==> (#[trigger] users[i]).username@ != (
            #[trigger] users[j]).username@,
    ensures
        !has_username(users, name) ==> lookup_username(users, name) is None,
        forall|i: int|
            0 <= i < users.len() && (#[trigger] users[i]).username@ == name ==> lookup_username(
                users,
                name,
            ) == Some(users[i]),
    decreases users.len(),
{
    if users.len() > 0 {
        let tail = users.drop_first();
        assert forall|i: int, j: int|
            0 <= i < j < tail.len() implies (#[trigger] tail[i]).username@ != (
        #[trigger] tail[j]).username@ by {
            assert(tail[i] == users[i + 1]);
            assert(tail[j] == users[j + 1]);
        }
        lemma_lookup_username(tail, name);
        if users[0].username@ == name {
            assert forall|i: int|
                0 <= i < users.len() && (#[trigger] users[i]).username@ == name implies
                lookup_username(users, name) == Some(users[i]) by {
                if i > 0 {
                    assert(users[i].username@ != users[0].username@);
                }
            }
        } else {
            assert forall|i: int|
                0 <= i < users.len() && (#[trigger] users[i]).username@ == name implies
                lookup_username(users, name) == Some(users[i]) by {
                assert(tail[i - 1] == users[i]);
            }
            if !has_username(users, name) {
                assert forall|i: int|
                    0 <= i < tail.len() implies (#[trigger] tail[i]).username@ != name by {
                    assert(tail[i] == users[i + 1]);
                }
            }
        }
    }
}

/// With session identifiers unique, `session_user` resolves exactly the row
/// that carries the identifier, and nothing when no row does.
pub proof fn lemma_session_user(sessions: Seq<Session>, session_id: u128)
    requires
        forall|i: int, j: int|
            0 <= i < j < sessions.len() ==> (#[trigger] sessions[i]).session_id != (
            #[trigger] sessions[j]).session_id,
    ensures
        !has_session_id(sessions, session_id) ==> session_user(sessions, session_id) is None,
        forall|i: int|
            0 <= i < sessions.len() && (#[trigger] sessions[i]).session_id == session_id
                ==> session_user(sessions, session_id) == Some(sessions[i].user_uuid),
    decreases sessions.len(),
{
    if sessions.len() > 0 {
        let tail = sessions.drop_first();
        assert forall|i: int, j: int|
            0 <= i < j < tail.len() implies (#[trigger] tail[i]).session_id != (
        #[trigger] tail[j]).session_id by {
            assert(tail[i] == sessions[i + 1]);
            assert(tail[j] == sessions[j + 1]);
        }
        lemma_session_user(tail, session_id);
        if sessions[0].session_id == session_id {
            assert forall|i: int|
                0 <= i < sessions.len() && (#[trigger] sessions[i]).session_id == session_id
                implies session_user(sessions, session_id) == Some(sessions[i].user_uuid) by {
                if i > 0 {
                    assert(sessions[i].session_id != sessions[0].session_id);
                }
            }
        } else {
            assert forall|i: int|
                0 <= i < sessions.len() && (#[trigger] sessions[i]).session_id == session_id
                implies session_user(sessions, session_id) == Some(sessions[i].user_uuid) by {
                assert(tail[i - 1] == sessions[i]);
            }
            if !has_session_id(sessions, session_id) {
                assert forall|i: int|
                    0 <= i < tail.len() implies (#[trigger] tail[i]).session_id != session_id by {
                    assert(tail[i] == sessions[i + 1]);
                }
            }
        }
    }
}

/// With owners unique, `lookup_profile` finds exactly the row that the user
/// owns, and nothing when no row does.
pub proof fn lemma_lookup_profile(profiles: Seq<Profile>, uuid: u128)
    requires
        forall|i: int, j: int|
            0 <= i < j < profiles.len() ==> (#[trigger] profiles[i]).user_uuid != (
            #[trigger] profiles[j]).user_uuid,
    ensures
        !has_profile(profiles, uuid) ==> lookup_profile(profiles, uuid) is None,
        forall|i: int|
            0 <= i < profiles.len() && (#[trigger] profiles[i]).user_uuid == uuid ==> lookup_profile(
                profiles,
                uuid,
            ) == Some(profiles[i]),
    decreases profiles.len(),
{
    if profiles.len() > 0 {
        let tail = profiles.drop_first();
        assert forall|i: int, j: int|
            0 <= i < j < tail.len() implies (#[trigger] tail[i]).user_uuid != (
        #[trigger] tail[j]).user_uuid by {
            assert(tail[i] == profiles[i + 1]);
            assert(tail[j] == profiles[j + 1]);
        }
        lemma_lookup_profile(tail, uuid);
        if profiles[0].user_uuid == uuid {
            assert forall|i: int|
                0 <= i < profiles.len() && (#[trigger] profiles[i]).user_uuid == uuid implies
                lookup_profile(profiles, uuid) == Some(profiles[i]) by {
                if i > 0 {
                    assert(profiles[i].user_uuid != profiles[0].user_uuid);
                }
            }
        } else {
            assert forall|i: int|
                0 <= i < profiles.len() && (#[trigger] profiles[i]).user_uuid == uuid implies
                lookup_profile(profiles, uuid) == Some(profiles[i]) by {
                assert(tail[i - 1] == profiles[i]);
            }
            if !has_profile(profiles, uuid) {
                assert forall|i: int|
                    0 <= i < tail.len() implies (#[trigger] tail[i]).user_uuid != uuid by {
                    assert(tail[i] == profiles[i + 1]);
                }
            }
        }
    }
}

/// Law: without a sessions row for an identifier no user is resolved for it:
/// a deleted (logged-out) session can no longer authenticate.
pub proof fn lemma_no_session_no_auth(sessions: Seq<Session>, session_id: u128)
    requires
        !has_session_id(sessions, session_id),
    ensures
        session_user(sessions, session_id) is None,
    decreases sessions.len(),
{
    if sessions.len() > 0 {
        let tail = sessions.drop_first();
        assert forall|i: int| 0 <= i < tail.len() implies (#[trigger] tail[i]).session_id
            != session_id by {
            assert(tail[i] == sessions[i + 1]);
        }
        lemma_no_session_no_auth(tail, session_id);
    }
}

/// Law: a username names at most one account. In any well-formed store a
/// present username is carried by exactly one users row; with the insert
/// contract (a taken username is refused, leaving the store unchanged), a
/// second registration under the same name fails and the single row stays.
pub proof fn lemma_username_has_one_row(s: Store, name: Seq<char>)
    requires
        s.wf(),
        has_username(s.users@, name),
    ensures
        exists|i: int|
            {
                &&& 0 <= i < s.users@.len()
                &&& (#[trigger] s.users@[i]).username@ == name
                &&& forall|j: int|
                    0 <= j < s.users@.len() && j != i ==> (#[trigger] s.users@[j]).username@ != name
            },
{
    let i = choose|i: int| 0 <= i < s.users@.len() && (#[trigger] s.users@[i]).username@ == name;
    assert forall|j: int|
        0 <= j < s.users@.len() && j != i implies (#[trigger] s.users@[j]).username@ != name by {
        if j < i {
            assert(s.users@[j].username@ != s.users@[i].username@);
        } else {
            assert(s.users@[i].username@ != s.users@[j].username@);
        }
    }
}

/// Law: history replay is chronological: anywhere inside the replayed
/// window, an earlier line's message was created no later than a later one's.
pub proof fn lemma_history_chronological(s: Store, a: int, b: int)
    requires
        s.wf(),
        history_window_start(s.messages@.len() as int) <= a <= b < s.messages@.len(),
    ensures
        s.messages@[a].created_at <= s.messages@[b].created_at,
{
}

/// Copies a device row.
pub fn clone_device(d: &Device) -> (r: Device)
    ensures
        r == *d,
{
    Device { device_id: d.device_id, user_uuid: d.user_uuid, ip_address: d.ip_address.clone() }
}

/// Copies a list of identifiers.
pub fn copy_ids(v: &Vec<u128>) -> (r: Vec<u128>)
    ensures
        r@ == v@,
{
    let mut out: Vec<u128> = Vec::new();
    let n = v.len();
    for i in 0..n
        invariant
            n == v@.len(),
            out@ == v@.take(i as int),
    {
        out.push(v[i]);
        proof {
            assert(out@ =~= v@.take(i as int + 1));
        }
    }
    proof {
        assert(v@.take(n as int) =~= v@);
    }
    out
}

/// Copies a profile row.
pub fn clone_profile(p: &Profile) -> (r: Profile)
    ensures
        profile_eq(r, *p),
{
    Profile {
        user_uuid: p.user_uuid,
        bio: clone_opt_string(&p.bio),
        avatar: clone_opt_string(&p.avatar),
        profile_banner: clone_opt_string(&p.profile_banner),
        storage_access: p.storage_access,
        allowed_viewers: copy_ids(&p.allowed_viewers),
    }
}

/// Copies an optional string.
pub fn clone_opt_string(s: &Option<String>) -> (r: Option<String>)
    ensures
        r == *s,
{
    match s {
        Some(v) => Some(v.clone()),
        None => None,
    }
}

/// Copies a user row.
pub fn clone_user(u: &User) -> (r: User)
    ensures
        r == *u,
{
    User {
        username: u.username.clone(),
        password_hash: u.password_hash.clone(),
        invitation_code: u.invitation_code.clone(),
        user_uuid: u.user_uuid,
    }
}

} // verus!
