//! The decisions of the Telegram client adapter: API credentials, session
//! files and their encrypted snapshots, peer ids, and how fetched messages
//! and peers become the tool's values. The network work itself runs outside.
use vstd::prelude::*;
use base64::Engine;
use crate::config::paths::{AppPaths, join_path, spec_join};
use crate::config::settings::{ENV_API_HASH, ENV_API_ID};
use crate::errors::{Result, TelegramCliError, is_message_error};
use crate::json::i64_decimal;
use crate::storage::crypto::{EncryptedValue, SecretStore, spec_aes_gcm_open, aes_gcm_max_plaintext};
use crate::storage::models::AccountProfile;
use crate::telegram::actions::ActionView;
use crate::telegram::markup::{
    MessageMarkup, actions_from_reply_markup, find_callback_data_in_markup, lemma_views_of_push, spec_find_callback,
    spec_markup_actions, views_of,
};
use crate::telegram::messages::{IncomingMessage, InteractiveAction, InteractiveActionKind, MessageKind, spec_action_kind_str};
use crate::telegram::peers::{PeerKind, ResolvedPeer, opt_chars};
use crate::text::{
    IntErrorKind, chars_of, concat2, concat3, int_decimal, int_error_message, owned, parse_i32_full, push_char,
    spec_int_error_message, spec_parse_i32_full,
};

verus! {

// ---------------------------------------------------------------------------
// API credentials
// ---------------------------------------------------------------------------

/// The Telegram application credentials a client connects with.
#[derive(Debug, Clone, PartialEq, Eq)]
pub struct ApiCredentials {
    pub api_id: i32,
    pub api_hash: String,
}

/// The message for an account without an API id anywhere.
pub open spec fn missing_api_id_message(name: Seq<char>) -> Seq<char> {
    "account "@ + name + " is missing API ID; set --api-id when creating it or export "@ + ENV_API_ID@
}

/// The message for an API id variable that is not an integer.
pub open spec fn invalid_api_id_message(k: IntErrorKind) -> Seq<char> {
    ENV_API_ID@ + " must be a valid integer API ID: "@ + spec_int_error_message(k)
}

/// The message for an account without an API hash anywhere.
pub open spec fn missing_api_hash_message(name: Seq<char>) -> Seq<char> {
    "account "@ + name + " is missing API hash; set --api-hash when creating it or export "@ + ENV_API_HASH@
}

/// The credentials of an account: each stored value wins over the
/// environment's; the API id from the environment must parse as an `i32`.
pub fn resolve_api_credentials(profile: &AccountProfile, env_api_id: Option<&str>, env_api_hash: Option<&str>) -> (r: Result<ApiCredentials>)
    ensures
        match profile.api_id {
            Some(id) => match profile.api_hash {
                Some(h) => r is Ok && r->Ok_0.api_id == id && r->Ok_0.api_hash@ == h@,
                None => match env_api_hash {
                    Some(h) => r is Ok && r->Ok_0.api_id == id && r->Ok_0.api_hash@ == h@,
                    None => r is Err && is_message_error(r->Err_0, missing_api_hash_message(profile.name@)),
                },
            },
            None => match env_api_id {
                None => r is Err && is_message_error(r->Err_0, missing_api_id_message(profile.name@)),
                Some(text) => match spec_parse_i32_full(text@) {
                    Err(k) => r is Err && is_message_error(r->Err_0, invalid_api_id_message(k)),
                    Ok(id) => match profile.api_hash {
                        Some(h) => r is Ok && r->Ok_0.api_id == id && r->Ok_0.api_hash@ == h@,
                        None => match env_api_hash {
                            Some(h) => r is Ok && r->Ok_0.api_id == id && r->Ok_0.api_hash@ == h@,
                            None => r is Err && is_message_error(r->Err_0, missing_api_hash_message(profile.name@)),
                        },
                    },
                },
            },
        },
{
    let api_id: i32 = match profile.api_id {
        Some(id) => id,
        None => match env_api_id {
            None => {
                return Err(TelegramCliError::Message(concat2(
                    concat3("account ", profile.name.as_str(), " is missing API ID; set --api-id when creating it or export ").as_str(),
                    ENV_API_ID,
                )));
            },
            Some(text) => match parse_i32_full(text) {
                Ok(n) => n,
                Err(k) => {
                    return Err(TelegramCliError::Message(concat3(
                        ENV_API_ID,
                        " must be a valid integer API ID: ",
                        int_error_message(k),
                    )));
                },
            },
        },
    };
    let api_hash = match &profile.api_hash {
        Some(h) => owned(h.as_str()),
        None => match env_api_hash {
            Some(h) => owned(h),
            None => {
                return Err(TelegramCliError::Message(concat2(
                    concat3("account ", profile.name.as_str(), " is missing API hash; set --api-hash when creating it or export ").as_str(),
                    ENV_API_HASH,
                )));
            },
        },
    };
    Ok(ApiCredentials { api_id, api_hash })
}

// ---------------------------------------------------------------------------
// Session files
// ---------------------------------------------------------------------------

/// A character kept in a file name: ASCII letters, digits, `-` and `_`.
pub open spec fn file_safe(c: char) -> bool {
    ('a' <= c && c <= 'z') || ('A' <= c && c <= 'Z') || ('0' <= c && c <= '9') || c == '-' || c == '_'
}

/// An account name made safe for a file name: every other character becomes `_`.
pub open spec fn spec_sanitize(name: Seq<char>) -> Seq<char> {
    Seq::new(name.len(), |i: int| if file_safe(name[i]) { name[i] } else { '_' })
}

/// An account name made safe for a file name. The result has one character
/// per character of the name, each one safe, and names already safe stay as
/// they are.
pub fn sanitize_account_name(name: &str) -> (r: String)
    ensures
        r@ == spec_sanitize(name@),
        r@.len() == name@.len(),
        forall|i: int| 0 <= i < r@.len() ==> file_safe(#[trigger] r@[i]),
        spec_sanitize(r@) == r@,
{
    let chars = chars_of(name);
    let mut out = String::new();
    let mut i: usize = 0;
    while i < chars.len()
        invariant
            chars@ == name@,
            i <= chars@.len(),
            out@ == spec_sanitize(name@).subrange(0, i as int),
        decreases chars@.len() - i,
    {
        let c = chars[i];
        let keep = ('a' <= c && c <= 'z') || ('A' <= c && c <= 'Z') || ('0' <= c && c <= '9') || c == '-' || c == '_';
        if keep {
            push_char(&mut out, c);
        } else {
            push_char(&mut out, '_');
        }
        i = i + 1;
        assert(out@ =~= spec_sanitize(name@).subrange(0, i as int));
    }
    assert(out@ =~= spec_sanitize(name@));
    assert(spec_sanitize(out@) =~= out@);
    out
}

/// The file name of an account's runtime session.
pub open spec fn spec_session_file(account: Seq<char>) -> Seq<char> {
    spec_sanitize(account) + ".sqlite3"@
}

/// The file name of an account's encrypted session: the runtime file name
/// with its extension replaced, which for an empty stem keeps the whole name.
pub open spec fn spec_encrypted_session_file(account: Seq<char>) -> Seq<char> {
    if account.len() == 0 {
        ".sqlite3.sqlite3.enc"@
    } else {
        spec_sanitize(account) + ".sqlite3.enc"@
    }
}

/// The adapter that talks to Telegram through the MTProto client; it reads
/// accounts and keeps encrypted sessions under the tool's directories.
pub struct GrammersAdapter {
    pub paths: AppPaths,
    pub secrets: SecretStore,
}

impl GrammersAdapter {
    /// An adapter over the given directories and secret store.
    pub fn new(paths: AppPaths, secrets: SecretStore) -> (r: GrammersAdapter)
        ensures
            r.paths == paths,
            r.secrets == secrets,
    {
        GrammersAdapter { paths, secrets }
    }

    /// The directory of the session files: `sessions` under the state directory.
    pub fn sessions_dir(&self) -> (r: String)
        ensures
            r@ == spec_join(self.paths.state_dir@, "sessions"@),
    {
        join_path(self.paths.state_dir.as_str(), "sessions")
    }

    /// Where an account's runtime session lives.
    pub fn runtime_session_path(&self, account_name: &str) -> (r: String)
        ensures
            r@ == spec_join(spec_join(self.paths.state_dir@, "sessions"@), spec_session_file(account_name@)),
    {
        let dir = self.sessions_dir();
        let file = concat2(sanitize_account_name(account_name).as_str(), ".sqlite3");
        join_path(dir.as_str(), file.as_str())
    }

    /// Where an account's encrypted session lives.
    pub fn encrypted_session_path(&self, account_name: &str) -> (r: String)
        ensures
            r@ == spec_join(spec_join(self.paths.state_dir@, "sessions"@), spec_encrypted_session_file(account_name@)),
    {
        let dir = self.sessions_dir();
        let file = if account_name.unicode_len() == 0 {
            owned(".sqlite3.sqlite3.enc")
        } else {
            concat2(sanitize_account_name(account_name).as_str(), ".sqlite3.enc")
        };
        proof {
            if account_name@.len() == 0 {
                reveal_strlit(".sqlite3.sqlite3.enc");
            }
        }
        join_path(dir.as_str(), file.as_str())
    }
}

/// The bytes a sealed session snapshot holds: the nonce, then the ciphertext.
pub open spec fn spec_open_blob(key: Seq<u8>, blob: Seq<u8>) -> Option<Seq<u8>> {
    spec_aes_gcm_open(key, blob.subrange(0, 12), blob.subrange(12, blob.len() as int))
}

/// Seals a session snapshot: a fresh 12-byte nonce followed by the
/// ciphertext and its 16-byte tag, so the blob is never the snapshot itself.
/// The blob opens again to the snapshot under the same store.
pub fn seal_session_blob(secrets: &SecretStore, payload: &[u8]) -> (r: Result<Vec<u8>>)
    ensures
        payload@.len() <= aes_gcm_max_plaintext() ==> r is Ok && r->Ok_0@.len() == payload@.len() + 28
            && r->Ok_0@ != payload@
            && spec_open_blob(secrets.key(), r->Ok_0@) == Some(payload@),
        payload@.len() > aes_gcm_max_plaintext() ==> r is Err && is_message_error(r->Err_0, "failed to encrypt secret"@),
{
    let encrypted = secrets.encrypt_bytes(payload)?;
    let mut blob: Vec<u8> = Vec::new();
    let mut i: usize = 0;
    while i < encrypted.nonce.len()
        invariant
            i <= encrypted.nonce@.len(),
            blob@ == encrypted.nonce@.subrange(0, i as int),
        decreases encrypted.nonce@.len() - i,
    {
        blob.push(encrypted.nonce[i]);
        i = i + 1;
        assert(blob@ =~= encrypted.nonce@.subrange(0, i as int));
    }
    let mut j: usize = 0;
    while j < encrypted.ciphertext.len()
        invariant
            j <= encrypted.ciphertext@.len(),
            blob@ == encrypted.nonce@ + encrypted.ciphertext@.subrange(0, j as int),
            encrypted.nonce@.len() == i,
        decreases encrypted.ciphertext@.len() - j,
    {
        blob.push(encrypted.ciphertext[j]);
        j = j + 1;
        assert(blob@ =~= encrypted.nonce@ + encrypted.ciphertext@.subrange(0, j as int));
    }
    proof {
        if payload@.len() <= aes_gcm_max_plaintext() {
            assert(blob@.subrange(0, 12) =~= encrypted.nonce@);
            assert(blob@.subrange(12, blob@.len() as int) =~= encrypted.ciphertext@);
        }
    }
    Ok(blob)
}

/// The message for a session file too short to hold a nonce.
pub open spec fn corrupted_session_message(path: Seq<char>) -> Seq<char> {
    "encrypted session "@ + path + " is corrupted"@
}

/// Opens a sealed session snapshot read from `path`.
pub fn open_session_blob(secrets: &SecretStore, blob: &[u8], path: &str) -> (r: Result<Vec<u8>>)
    ensures
        blob@.len() < 12 ==> r is Err && is_message_error(r->Err_0, corrupted_session_message(path@)),
        blob@.len() >= 12 ==> match spec_open_blob(secrets.key(), blob@) {
            Some(p) => r is Ok && r->Ok_0@ == p,
            None => r is Err && is_message_error(r->Err_0, "failed to decrypt secret"@),
        },
{
    if blob.len() < 12 {
        return Err(TelegramCliError::Message(concat3("encrypted session ", path, " is corrupted")));
    }
    let mut nonce: Vec<u8> = Vec::new();
    let mut i: usize = 0;
    while i < 12
        invariant
            i <= 12,
            12 <= blob@.len(),
            nonce@ == blob@.subrange(0, i as int),
        decreases 12 - i,
    {
        nonce.push(blob[i]);
        i = i + 1;
        assert(nonce@ =~= blob@.subrange(0, i as int));
    }
    let mut ciphertext: Vec<u8> = Vec::new();
    let mut j: usize = 12;
    while j < blob.len()
        invariant
            12 <= j <= blob@.len(),
            ciphertext@ == blob@.subrange(12, j as int),
        decreases blob@.len() - j,
    {
        ciphertext.push(blob[j]);
        j = j + 1;
        assert(ciphertext@ =~= blob@.subrange(12, j as int));
    }
    let encrypted = EncryptedValue { nonce, ciphertext };
    secrets.decrypt_bytes(&encrypted)
}

/// Law: a sealed snapshot opens to what was sealed.
pub proof fn law_session_blob_roundtrip(secrets: SecretStore, payload: Seq<u8>, blob: Seq<u8>)
    requires
        blob.len() >= 12,
        spec_open_blob(secrets.key(), blob) == Some(payload),
    ensures
        !(blob.len() < 12),
        spec_open_blob(secrets.key(), blob) matches Some(p) && p == payload,
{
}

/// What the standard, padded base64 engine encodes bytes to.
pub uninterp spec fn spec_base64_encode(bytes: Seq<u8>) -> Seq<char>;

/// What the standard, padded base64 engine decodes a text to, or its error text.
pub uninterp spec fn spec_base64_decode(text: Seq<char>) -> core::result::Result<Seq<u8>, Seq<char>>;

/// Encodes with `base64::engine::general_purpose::STANDARD`; the text decodes
/// back to the bytes.
#[verifier::external_body]
fn base64_standard_encode(bytes: &[u8]) -> (r: String)
    ensures
        r@ == spec_base64_encode(bytes@),
        spec_base64_decode(r@) is Ok && spec_base64_decode(r@)->Ok_0 == bytes@,
{
    base64::engine::general_purpose::STANDARD.encode(bytes)
}

/// Decodes with `base64::engine::general_purpose::STANDARD`; the bytes, or
/// the error's text, are the named function of the input.
#[verifier::external_body]
fn base64_standard_decode(text: &str) -> (r: core::result::Result<Vec<u8>, String>)
    ensures
        match spec_base64_decode(text@) {
            Ok(b) => r is Ok && r->Ok_0@ == b,
            Err(e) => r is Err && r->Err_0@ == e,
        },
{
    base64::engine::general_purpose::STANDARD.decode(text).map_err(|error| error.to_string())
}

/// A session blob as standard base64 text.
pub fn encode_session_blob(bytes: &[u8]) -> (r: String)
    ensures
        r@ == spec_base64_encode(bytes@),
        spec_base64_decode(r@) is Ok && spec_base64_decode(r@)->Ok_0 == bytes@,
{
    base64_standard_encode(bytes)
}

/// The bytes of a base64 session blob; an error naming what is wrong with it.
pub fn decode_session_blob(blob: &str) -> (r: Result<Vec<u8>>)
    ensures
        match spec_base64_decode(blob@) {
            Ok(b) => r is Ok && r->Ok_0@ == b,
            Err(e) => r is Err && is_message_error(r->Err_0, "invalid base64 session blob: "@ + e),
        },
{
    match base64_standard_decode(blob) {
        Ok(b) => Ok(b),
        Err(e) => Err(TelegramCliError::Message(concat2("invalid base64 session blob: ", e.as_str()))),
    }
}

/// Law: decoding an encoded session blob gives the bytes back.
pub proof fn law_session_blob_text_roundtrip(bytes: Seq<u8>, text: Seq<char>)
    requires
        text == spec_base64_encode(bytes),
        spec_base64_decode(text) is Ok && spec_base64_decode(text)->Ok_0 == bytes,
    ensures
        spec_base64_decode(spec_base64_encode(bytes)) == Ok::<Seq<u8>, Seq<char>>(bytes),
{
}

/// The outcome of work followed by a client shutdown: the work's error wins;
/// after successful work, the shutdown's error.
pub fn merge_shutdown<T>(outcome: Result<T>, shutdown: Result<()>) -> (r: Result<T>)
    ensures
        match outcome {
            Ok(v) => match shutdown {
                Ok(_) => r == Ok::<T, TelegramCliError>(v),
                Err(e) => r == Err::<T, TelegramCliError>(e),
            },
            Err(e) => r == Err::<T, TelegramCliError>(e),
        },
{
    match outcome {
        Ok(value) => match shutdown {
            Ok(_) => Ok(value),
            Err(e) => Err(e),
        },
        Err(error) => Err(error),
    }
}

/// Seconds until a login token expires, never negative.
pub fn expiry_secs(expires_unix: i32, now_unix: i64) -> (r: i64)
    requires
        i64::MIN <= expires_unix as int - now_unix as int <= i64::MAX,
    ensures
        r == if expires_unix as int - now_unix as int > 0 { expires_unix as int - now_unix as int } else { 0 },
{
    let d = expires_unix as i64 - now_unix;
    if d > 0 { d } else { 0 }
}

/// The snake-case label of an action kind.
pub fn action_kind_label(kind: InteractiveActionKind) -> (r: &'static str)
    ensures
        r@ == spec_action_kind_str(kind),
{
    kind.as_str()
}

// ---------------------------------------------------------------------------
// Peer ids
// ---------------------------------------------------------------------------

#[verifier::external_type_specification]
#[verifier::external_body]
pub struct ExPeerId(grammers_client::session::types::PeerId);

/// The peer `PeerId::user` makes of a user id.
pub uninterp spec fn spec_user_peer(id: i64) -> grammers_client::session::types::PeerId;

/// The peer `PeerId::chat` makes of a bare chat id.
pub uninterp spec fn spec_chat_peer(id: i64) -> grammers_client::session::types::PeerId;

/// The peer `PeerId::channel` makes of a bare channel id.
pub uninterp spec fn spec_channel_peer(id: i64) -> grammers_client::session::types::PeerId;

/// `PeerId::user`: a user id is accepted from 1 to 0xffffffffff; the peer
/// is the named function of the id.
#[verifier::external_body]
fn peer_id_user(id: i64) -> (r: Option<grammers_client::session::types::PeerId>)
    ensures
        r is Some <==> 1 <= id <= 0xffffffffff,
        r is Some ==> r->0 == spec_user_peer(id),
{
    grammers_client::session::types::PeerId::user(id)
}

/// `PeerId::chat`: a bare chat id is accepted from 1 to 999999999999; the
/// peer is the named function of the id.
#[verifier::external_body]
fn peer_id_chat(id: i64) -> (r: Option<grammers_client::session::types::PeerId>)
    ensures
        r is Some <==> 1 <= id <= 999999999999,
        r is Some ==> r->0 == spec_chat_peer(id),
{
    grammers_client::session::types::PeerId::chat(id)
}

/// `PeerId::channel`: a bare channel id is accepted from 1 to 997852516352
/// and from 1002147483649 to 3000000000000; the peer is the named function
/// of the id.
#[verifier::external_body]
fn peer_id_channel(id: i64) -> (r: Option<grammers_client::session::types::PeerId>)
    ensures
        r is Some <==> (1 <= id <= 997852516352 || 1002147483649 <= id <= 3000000000000),
        r is Some ==> r->0 == spec_channel_peer(id),
{
    grammers_client::session::types::PeerId::channel(id)
}

/// Whether a Bot API dialog id names a peer, and if not, the message.
pub open spec fn spec_dialog_id_error(dialog_id: int) -> Option<Seq<char>> {
    if 1 <= dialog_id <= 0xffffffffff {
        None
    } else if dialog_id < 0 && dialog_id > -1_000_000_000_000 {
        if 1 <= -dialog_id <= 999999999999 { None } else { Some("unsupported chat peer id "@ + int_decimal(dialog_id)) }
    } else if dialog_id <= -1_000_000_000_001 {
        let bare = -dialog_id - 1_000_000_000_000;
        if (1 <= bare <= 997852516352 || 1002147483649 <= bare <= 3000000000000) {
            None
        } else {
            Some("unsupported channel peer id "@ + int_decimal(dialog_id))
        }
    } else {
        Some("unsupported peer id "@ + int_decimal(dialog_id))
    }
}

/// The peer a Bot API dialog id names: positive ids are users, ids above
/// -10^12 chats, ids from -10^12 - 1 down channels.
pub fn peer_id_from_dialog_id(dialog_id: i64) -> (r: Result<grammers_client::session::types::PeerId>)
    ensures
        match spec_dialog_id_error(dialog_id as int) {
            None => r is Ok,
            Some(m) => r is Err && is_message_error(r->Err_0, m),
        },
        r is Ok ==> r->Ok_0 == if dialog_id > 0 {
            spec_user_peer(dialog_id)
        } else if dialog_id > -1_000_000_000_000 {
            spec_chat_peer((-dialog_id) as i64)
        } else {
            spec_channel_peer((-dialog_id - 1_000_000_000_000) as i64)
        },
{
    match peer_id_user(dialog_id) {
        Some(p) => {
            return Ok(p);
        },
        None => {},
    }
    if dialog_id < 0 && dialog_id > -1_000_000_000_000 {
        return match peer_id_chat(-dialog_id) {
            Some(p) => Ok(p),
            None => Err(TelegramCliError::Message(concat2("unsupported chat peer id ", i64_decimal(dialog_id).as_str()))),
        };
    }
    if dialog_id <= -1_000_000_000_001 {
        let bare: i64 = if dialog_id < -4_000_000_000_000 { 0 } else { -dialog_id - 1_000_000_000_000 };
        proof {
            if dialog_id < -4_000_000_000_000 {
                let b = -dialog_id - 1_000_000_000_000;
                assert(!(1 <= b <= 997852516352 || 1002147483649 <= b <= 3000000000000));
            }
        }
        return match peer_id_channel(bare) {
            Some(p) => Ok(p),
            None => Err(TelegramCliError::Message(concat2("unsupported channel peer id ", i64_decimal(dialog_id).as_str()))),
        };
    }
    Err(TelegramCliError::Message(concat2("unsupported peer id ", i64_decimal(dialog_id).as_str())))
}

/// The message for a peer the session has not cached.
pub fn peer_not_cached_message(dialog_id: i64) -> (r: String)
    ensures
        r@ == "peer "@ + int_decimal(dialog_id as int) + " is not cached in the Telegram session; resolve it again before sending"@,
{
    concat3("peer ", i64_decimal(dialog_id).as_str(), " is not cached in the Telegram session; resolve it again before sending")
}

/// The message for an account whose session is not authorized.
pub fn not_logged_in_message(account_name: &str) -> (r: String)
    ensures
        r@ == "account "@ + account_name@ + " is not logged in; run `telegram-agent-cli account login "@ + account_name@ + "` first"@,
{
    let head = concat3("account ", account_name, " is not logged in; run `telegram-agent-cli account login ");
    concat3(head.as_str(), account_name, "` first")
}

// ---------------------------------------------------------------------------
// Fetched peers and messages
// ---------------------------------------------------------------------------

/// What kind of chat a fetched peer is.
#[derive(Debug, Clone, Copy, PartialEq, Eq, Structural)]
pub enum PeerClass {
    User,
    Group,
    Channel,
}

/// The kind the tool gives a fetched peer: users that are bots are bots.
pub open spec fn spec_peer_kind_of(class: PeerClass, is_bot: bool) -> PeerKind {
    match class {
        PeerClass::User => if is_bot { PeerKind::Bot } else { PeerKind::User },
        PeerClass::Group => PeerKind::Group,
        PeerClass::Channel => PeerKind::Channel,
    }
}

/// A peer's display name: its name, else its username, else its dialog id.
pub open spec fn spec_display_name(name: Option<Seq<char>>, username: Option<Seq<char>>, dialog_id: int) -> Seq<char> {
    match name {
        Some(n) => n,
        None => match username {
            Some(u) => u,
            None => int_decimal(dialog_id),
        },
    }
}

/// An optional text slice by its characters.
pub open spec fn opt_str_chars(s: Option<&str>) -> Option<Seq<char>> {
    match s {
        Some(t) => Some(t@),
        None => None,
    }
}

/// A fetched peer as the tool's resolved peer.
pub fn map_peer(class: PeerClass, is_bot: bool, dialog_id: i64, name: Option<&str>, username: Option<&str>) -> (r: ResolvedPeer)
    ensures
        r.peer_id == dialog_id,
        r.peer_kind == spec_peer_kind_of(class, is_bot),
        r.display_name@ == spec_display_name(opt_str_chars(name), opt_str_chars(username), dialog_id as int),
        opt_chars(r.username) == opt_str_chars(username),
        r.packed_hex is None,
{
    let peer_kind = match class {
        PeerClass::User => if is_bot { PeerKind::Bot } else { PeerKind::User },
        PeerClass::Group => PeerKind::Group,
        PeerClass::Channel => PeerKind::Channel,
    };
    let display_name = match name {
        Some(n) => owned(n),
        None => match username {
            Some(u) => owned(u),
            None => i64_decimal(dialog_id),
        },
    };
    let username = match username {
        Some(u) => Some(owned(u)),
        None => None,
    };
    ResolvedPeer { peer_id: dialog_id, peer_kind, display_name, username, packed_hex: None }
}

/// The sender of a fetched message: its username, else its name, else its dialog id.
pub struct SenderInfo {
    pub username: Option<String>,
    pub name: Option<String>,
    pub dialog_id: i64,
}

/// The text a sender is shown as.
pub open spec fn spec_sender_label(s: SenderInfo) -> Seq<char> {
    match s.username {
        Some(u) => u@,
        None => match s.name {
            Some(n) => n@,
            None => int_decimal(s.dialog_id as int),
        },
    }
}

/// A fetched message as the tool's incoming message: empty text counts as
/// none, and a message with media is a file.
pub fn map_incoming_message(
    message_id: i32,
    dialog_id: i64,
    sender: Option<&SenderInfo>,
    text: &str,
    has_media: bool,
    reply_to_message_id: Option<i32>,
    timestamp: String,
) -> (r: IncomingMessage)
    ensures
        r.message_id == message_id as i64,
        r.peer_id == dialog_id,
        opt_chars(r.sender) == match sender {
            Some(s) => Some(spec_sender_label(*s)),
            None => None::<Seq<char>>,
        },
        opt_chars(r.text) == if text@.len() == 0 { None::<Seq<char>> } else { Some(text@) },
        r.kind == if has_media { MessageKind::File } else { MessageKind::Text },
        r.reply_to_message_id == match reply_to_message_id {
            Some(m) => Some(m as i64),
            None => None::<i64>,
        },
        r.timestamp == timestamp,
{
    let sender = match sender {
        Some(s) => Some(match &s.username {
            Some(u) => owned(u.as_str()),
            None => match &s.name {
                Some(n) => owned(n.as_str()),
                None => i64_decimal(s.dialog_id),
            },
        }),
        None => None,
    };
    let text = if text.unicode_len() == 0 { None } else { Some(owned(text)) };
    IncomingMessage {
        message_id: message_id as i64,
        peer_id: dialog_id,
        sender,
        text,
        kind: if has_media { MessageKind::File } else { MessageKind::Text },
        reply_to_message_id: match reply_to_message_id {
            Some(m) => Some(m as i64),
            None => None,
        },
        timestamp,
    }
}

/// What kind of update a client stream delivered.
#[derive(Debug, Clone, Copy, PartialEq, Eq, Structural)]
pub enum UpdateKind {
    NewMessage,
    MessageEdited,
    Other,
}

/// Whether an update answers a wait on a peer: a new incoming message in the
/// chat, or (when edits count) an edited message in it.
pub open spec fn spec_update_answers(kind: UpdateKind, outgoing: bool, dialog_id: Option<i64>, peer_id: i64, edits_count: bool) -> bool {
    match kind {
        UpdateKind::NewMessage => !outgoing && dialog_id == Some(peer_id),
        UpdateKind::MessageEdited => edits_count && dialog_id == Some(peer_id),
        UpdateKind::Other => false,
    }
}

/// Whether an update answers a wait on a peer.
pub fn update_answers(kind: UpdateKind, outgoing: bool, dialog_id: Option<i64>, peer_id: i64, edits_count: bool) -> (r: bool)
    ensures
        r == spec_update_answers(kind, outgoing, dialog_id, peer_id, edits_count),
{
    match kind {
        UpdateKind::NewMessage => !outgoing && dialog_id == Some(peer_id),
        UpdateKind::MessageEdited => edits_count && dialog_id == Some(peer_id),
        UpdateKind::Other => false,
    }
}

/// How many recent messages a search for actions reads: at least one, and
/// at least 100 when a message id is given.
pub fn action_search_limit(search_limit: usize, message_id: Option<i64>) -> (r: usize)
    ensures
        r == if message_id is Some {
            if search_limit > 100 { search_limit } else { 100 }
        } else {
            if search_limit > 1 { search_limit } else { 1 }
        },
{
    match message_id {
        Some(_) => if search_limit > 100 { search_limit } else { 100 },
        None => if search_limit > 1 { search_limit } else { 1 },
    }
}

/// The actions of fetched messages (newest first): those of the message with
/// the given id, or of every message read.
pub open spec fn spec_messages_actions(messages: Seq<(i64, Option<MessageMarkup>)>, message_id: Option<i64>) -> Seq<ActionView>
    decreases messages.len(),
{
    if messages.len() == 0 {
        Seq::empty()
    } else {
        let here = match message_id {
            Some(id) => if messages[0].0 == id { spec_markup_actions(messages[0].0 as int, messages[0].1) } else { Seq::empty() },
            None => spec_markup_actions(messages[0].0 as int, messages[0].1),
        };
        match message_id {
            Some(id) => if messages[0].0 == id { here } else { spec_messages_actions(messages.subrange(1, messages.len() as int), message_id) },
            None => here + spec_messages_actions(messages.subrange(1, messages.len() as int), message_id),
        }
    }
}

/// The actions of fetched messages: with a message id, those of the first
/// message with that id; else those of every message, in order.
pub fn actions_from_messages(messages: &[(i64, Option<MessageMarkup>)], message_id: Option<i64>) -> (r: Vec<InteractiveAction>)
    ensures
        views_of(r@) == spec_messages_actions(messages@, message_id),
{
    let ghost all = messages@;
    let mut out: Vec<InteractiveAction> = Vec::new();
    let mut i: usize = 0;
    assert(all.subrange(0, all.len() as int) =~= all);
    assert(views_of(out@) =~= Seq::<ActionView>::empty());
    while i < messages.len()
        invariant
            all == messages@,
            i <= all.len(),
            spec_messages_actions(all, message_id) == views_of(out@) + spec_messages_actions(all.subrange(i as int, all.len() as int), message_id),
        decreases all.len() - i,
    {
        let ghost rest = all.subrange(i as int, all.len() as int);
        assert(rest[0] == all[i as int]);
        assert(rest.subrange(1, rest.len() as int) =~= all.subrange(i + 1, all.len() as int));
        let (id, markup) = (messages[i].0, &messages[i].1);
        let wanted = match message_id {
            Some(expected) => id == expected,
            None => true,
        };
        if wanted {
            let found = actions_from_reply_markup(id, markup);
            let ghost before = views_of(out@);
            let mut j: usize = 0;
            while j < found.len()
                invariant
                    j <= found@.len(),
                    views_of(out@) == before + views_of(found@.subrange(0, j as int)),
                decreases found@.len() - j,
            {
                proof {
                    lemma_views_of_push(out@, found@[j as int]);
                    assert(views_of(found@.subrange(0, j + 1)) =~= views_of(found@.subrange(0, j as int)).push(crate::telegram::actions::action_view(found@[j as int])));
                }
                out.push(crate::telegram::actions::copy_action(&found[j]));
                j = j + 1;
            }
            assert(found@.subrange(0, found@.len() as int) =~= found@);
            if message_id.is_some() {
                assert(spec_messages_actions(all, message_id) =~= views_of(out@));
                return out;
            }
        }
        i = i + 1;
    }
    assert(spec_messages_actions(all.subrange(all.len() as int, all.len() as int), message_id) =~= Seq::<ActionView>::empty());
    assert(spec_messages_actions(all, message_id) =~= views_of(out@));
    out
}

/// The message for a callback search that found no button.
pub open spec fn callback_not_found_message(query: Seq<char>, message_id: Option<i64>) -> Seq<char> {
    match message_id {
        Some(id) => "message "@ + int_decimal(id as int) + " does not contain a clickable inline button matching `"@ + query + "`"@,
        None => "no recent message found with an inline button matching `"@ + query + "`; specify --message-id if needed"@,
    }
}

/// The first fetched message (newest first; only the one with the given id
/// when an id is given) with a callback button answering the query.
pub open spec fn spec_callback_target(messages: Seq<(i32, Option<MessageMarkup>)>, query: Seq<char>, message_id: Option<i64>) -> Option<(i32, Seq<u8>)>
    decreases messages.len(),
{
    if messages.len() == 0 {
        None
    } else {
        let skip = match message_id {
            Some(id) => messages[0].0 as i64 != id,
            None => false,
        };
        if !skip && spec_find_callback(messages[0].1, query) is Some {
            Some((messages[0].0, spec_find_callback(messages[0].1, query)->0))
        } else {
            spec_callback_target(messages.subrange(1, messages.len() as int), query, message_id)
        }
    }
}

/// How many recent messages a callback search reads.
pub fn callback_search_limit(message_id: Option<i64>) -> (r: usize)
    ensures
        r == if message_id is Some { 100usize } else { 50usize },
{
    if message_id.is_some() { 100 } else { 50 }
}

/// The message id and callback data of the button a click presses, among
/// fetched messages; an error saying where no such button was found.
pub fn find_callback_target(messages: &[(i32, Option<MessageMarkup>)], button_query: &str, message_id: Option<i64>) -> (r: Result<(i32, Vec<u8>)>)
    ensures
        match spec_callback_target(messages@, button_query@, message_id) {
            Some((id, data)) => r is Ok && r->Ok_0.0 == id && r->Ok_0.1@ == data,
            None => r is Err && is_message_error(r->Err_0, callback_not_found_message(button_query@, message_id)),
        },
{
    let ghost all = messages@;
    let mut i: usize = 0;
    assert(all.subrange(0, all.len() as int) =~= all);
    while i < messages.len()
        invariant
            all == messages@,
            i <= all.len(),
            spec_callback_target(all, button_query@, message_id) == spec_callback_target(all.subrange(i as int, all.len() as int), button_query@, message_id),
        decreases all.len() - i,
    {
        let ghost rest = all.subrange(i as int, all.len() as int);
        assert(rest[0] == all[i as int]);
        assert(rest.subrange(1, rest.len() as int) =~= all.subrange(i + 1, all.len() as int));
        let id = messages[i].0;
        let skip = match message_id {
            Some(expected) => (id as i64) != expected,
            None => false,
        };
        if !skip {
            match find_callback_data_in_markup(&messages[i].1, button_query) {
                Some(data) => {
                    return Ok((id, data));
                },
                None => {},
            }
        }
        i = i + 1;
    }
    match message_id {
        Some(id) => {
            let head = concat3("message ", i64_decimal(id).as_str(), " does not contain a clickable inline button matching `");
            Err(TelegramCliError::Message(concat3(head.as_str(), button_query, "`")))
        },
        None => Err(TelegramCliError::Message(concat3(
            "no recent message found with an inline button matching `",
            button_query,
            "`; specify --message-id if needed",
        ))),
    }
}

/// A channel's kind as an older session file records it in its subtype bits.
#[derive(Debug, Clone, Copy, PartialEq, Eq, Structural)]
pub enum LegacyChannelKind {
    Broadcast,
    Megagroup,
    Gigagroup,
}

/// The channel kind of legacy subtype bits: both the broadcast (8) and
/// megagroup (4) bits mean a gigagroup; either alone means that kind.
pub open spec fn spec_legacy_channel_kind(bits: u8) -> Option<LegacyChannelKind> {
    if bits & 12 == 12 {
        Some(LegacyChannelKind::Gigagroup)
    } else if bits & 8 != 0 {
        Some(LegacyChannelKind::Broadcast)
    } else if bits & 4 != 0 {
        Some(LegacyChannelKind::Megagroup)
    } else {
        None
    }
}

/// The channel kind recorded in legacy subtype bits.
pub fn legacy_channel_kind(bits: u8) -> (r: Option<LegacyChannelKind>)
    ensures
        r == spec_legacy_channel_kind(bits),
{
    if bits & 12 == 12 {
        Some(LegacyChannelKind::Gigagroup)
    } else if bits & 8 != 0 {
        Some(LegacyChannelKind::Broadcast)
    } else if bits & 4 != 0 {
        Some(LegacyChannelKind::Megagroup)
    } else {
        None
    }
}

/// Whether legacy subtype bits mark a user as a bot (bit 2) and as the
/// logged-in user (bit 1).
pub fn legacy_user_flags(bits: u8) -> (r: (bool, bool))
    ensures
        r == (bits & 2 != 0, bits & 1 != 0),
{
    (bits & 2 != 0, bits & 1 != 0)
}

/// Whether listing actions reads recent messages at all: not when asked for
/// none and no particular message.
pub fn scans_messages(search_limit: usize, message_id: Option<i64>) -> (r: bool)
    ensures
        r == !(search_limit == 0 && message_id is None),
{
    !(search_limit == 0 && message_id.is_none())
}

/// Whether a fetched message is kept when reading history: unread-only
/// reads leave out the account's own outgoing messages.
pub fn keeps_message(unread_only: bool, outgoing: bool) -> (r: bool)
    ensures
        r == !(unread_only && outgoing),
{
    !(unread_only && outgoing)
}

} // verus!
