use vstd::prelude::*;

mod auth;
mod chat;
mod clock;
mod crypto;
mod files;
mod ids;
mod models;
mod profile;
mod store;
mod text;
mod validate;

pub use auth::{RegistrationResponse, LoginResponse, LoginSuccessResponse, RegisterReply, LoginReply, AuthRejection, SESSION_LIFETIME, register_handler, login_handler, logout_handler, with_auth};
pub use chat::{ChatHub, ChatReceiver, RecvOutcome, ChatError, ConnectedClient, InboundFrame, ReaderAction, WriterEvent, WriterAction, PersistOutcome, BUS_CAPACITY, has_client, published, pending, chat_line, client_message_body_of, format_chat_line, reader_step, writer_step, writer_after_send, broadcast_message, deliver_chat_message, connect_client, disconnect_client, lemma_publish_fanout, lemma_recv_in_order, lemma_fanout_independent_of_persistence};
pub use clock::rfc3339_of;
pub use crypto::bcrypt_check;
pub use ids::{generate_client_id, is_lower_hex_digit};
pub use store::{Store, StoreError, HISTORY_WINDOW, has_username, has_user_uuid, has_session_id, has_device_id, has_device_ip, has_file_id, has_profile, lookup_user, lookup_username, lookup_profile, lookup_device, session_user, history_line, history_window_start, user_files, profile_eq, only_users_differ, only_sessions_differ, only_devices_differ, only_messages_differ, only_profiles_differ, only_files_differ, clone_user, clone_device, clone_profile, clone_opt_string, copy_ids, lemma_lookup_user, lemma_lookup_username, lemma_lookup_profile, lemma_session_user, lemma_lookup_device_skip, lemma_no_session_no_auth, lemma_username_has_one_row, lemma_history_chronological};
pub use validate::{RegistrationData, LoginData, registration_valid, login_valid, registration_error_messages, login_error_messages, joined_messages, map_validation_errors, len_ok, byte_len, utf8_width};
pub use files::{UploadEvent, UploadReply, get_files_handler, upload_handler};
pub use profile::{ProfileError, profile_handler, update_profile_handler};
pub use models::{User, Device, Session, Message, StorageAccess, Profile, ProfileResponse, File, FileInfo, UpdateProfileRequest, UpdateProfileResponse, MAX_UNIX_TIME};

pub use text::{escape_html, escape_html_spec, escape_char};

verus! {

} // verus!
