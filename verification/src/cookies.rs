//! Reading browser cookie stores: errors, how to reach each store, and how
//! encrypted Chromium cookie values are decrypted.
use vstd::prelude::*;
use vstd::slice::slice_to_vec;
use vstd::string::StringExecFns;
use vstd::utf8::{decode_utf8, valid_utf8};

use crate::browser::BrowserKind;
use crate::cli::opt_view;
use crate::crypto::{
    aes128_cbc_pkcs7_decrypt, aes128_cbc_pkcs7_plaintext, aes256_gcm_decrypt,
    aes256_gcm_plaintext, base64_decode, GcmFailure, base64_standard_bytes, json_nested_string, json_string_at,
    pbkdf2_hmac_sha1, pbkdf2_hmac_sha1_key, utf8_error_text, utf8_lossy, utf8_lossy_text, utf8_string,
};
use crate::platform::Platform;
use crate::text::{ends_with_seq, str_ends_with};

verus! {

/// Why a cookie store could not be read.
#[derive(Debug)]
pub enum CookieError {
    NoBrowserDir,
    NoCookieDb,
    /// The store is out of reach without extra permission (Safari on macOS).
    PermissionDenied,
    /// The database failed; holds SQLite's description of the failure.
    Sqlite(String),
    Decrypt(String),
}

/// A cookie error as plain values.
pub enum CookieErrorView {
    NoBrowserDir,
    NoCookieDb,
    PermissionDenied,
    Sqlite(Seq<char>),
    Decrypt(Seq<char>),
}

impl View for CookieError {
    type V = CookieErrorView;

    open spec fn view(&self) -> CookieErrorView {
        match self {
            CookieError::NoBrowserDir => CookieErrorView::NoBrowserDir,
            CookieError::NoCookieDb => CookieErrorView::NoCookieDb,
            CookieError::PermissionDenied => CookieErrorView::PermissionDenied,
            CookieError::Sqlite(s) => CookieErrorView::Sqlite(s@),
            CookieError::Decrypt(s) => CookieErrorView::Decrypt(s@),
        }
    }
}

/// The error's description, as its `Display` form writes it.
pub open spec fn cookie_error_text(e: CookieErrorView) -> Seq<char> {
    match e {
        CookieErrorView::NoBrowserDir => "Browser directory not found"@,
        CookieErrorView::NoCookieDb => "No cookie database found"@,
        CookieErrorView::PermissionDenied => "Permission denied"@,
        CookieErrorView::Sqlite(s) => "SQLite error: "@ + s,
        CookieErrorView::Decrypt(s) => "Decrypt error: "@ + s,
    }
}

impl CookieError {
    /// The error's description.
    pub fn message(&self) -> (r: String)
        ensures
            r@ == cookie_error_text(self@),
    {
        match self {
            CookieError::NoBrowserDir => String::from_str("Browser directory not found"),
            CookieError::NoCookieDb => String::from_str("No cookie database found"),
            CookieError::PermissionDenied => String::from_str("Permission denied"),
            CookieError::Sqlite(s) => {
                let mut m = String::from_str("SQLite error: ");
                m.append(s.as_str());
                m
            },
            CookieError::Decrypt(s) => {
                let mut m = String::from_str("Decrypt error: ");
                m.append(s.as_str());
                m
            },
        }
    }
}

/// Which reader opens a browser's store, and for Chromium browsers which
/// default locations it searches.
#[derive(Clone, Copy, Debug, PartialEq, Eq, Structural)]
pub enum CookieStore {
    /// Firefox's `cookies.sqlite` in a profile directory.
    Firefox,
    /// A Chromium `Cookies` database, searched for in the default
    /// directories of the given browser.
    Chromium(BrowserKind),
    /// Safari's binary cookie file.
    Safari,
}

/// A request to read the cookies of `domain` from one browser's store.
pub struct CookieRead {
    pub store: CookieStore,
    pub domain: String,
    /// A store directory given by the user in place of the defaults.
    pub data_dir: Option<String>,
}

/// The store that holds a browser's cookies.
pub open spec fn store_of(b: BrowserKind) -> CookieStore {
    match b {
        BrowserKind::Firefox => CookieStore::Firefox,
        BrowserKind::Safari => CookieStore::Safari,
        _ => CookieStore::Chromium(b),
    }
}

/// `r` asks for `b`'s cookies of `domain`, from the store directory
/// `data_dir` when one is given.
pub open spec fn is_read_of(r: CookieRead, b: BrowserKind, domain: Seq<char>, data_dir: Option<Seq<char>>) -> bool {
    &&& r.store == store_of(b)
    &&& r.domain@ == domain
    &&& opt_view(r.data_dir) == data_dir
}

/// How to read `browser`'s cookies for `domain`: Firefox and Safari have
/// readers of their own; Chrome, Brave and Edge share the Chromium reader,
/// each with its own default directories.
pub fn read_cookies(browser: BrowserKind, domain: &str, data_dir: Option<&str>) -> (r: CookieRead)
    ensures
        is_read_of(r, browser, domain@, str_view(data_dir)),
{
    let store = match browser {
        BrowserKind::Firefox => CookieStore::Firefox,
        BrowserKind::Safari => CookieStore::Safari,
        _ => CookieStore::Chromium(browser),
    };
    let data_dir = match data_dir {
        Some(d) => Some(String::from_str(d)),
        None => None,
    };
    CookieRead { store, domain: String::from_str(domain), data_dir }
}

// ---------------------------------------------------------------------------
// Chromium cookie values
// ---------------------------------------------------------------------------

/// `e` starts with the version tag `v1<d>`.
pub open spec fn has_tag(e: Seq<u8>, d: u8) -> bool {
    e.len() >= 3 && e[0] == 0x76u8 && e[1] == 0x31u8 && e[2] == d
}

/// `e` starts with a version tag that marks an encrypted value on `p`:
/// `v10` or `v11`, and on Windows also `v20`.
pub open spec fn is_encrypted_value(p: Platform, e: Seq<u8>) -> bool {
    ||| has_tag(e, 0x30u8)
    ||| has_tag(e, 0x31u8)
    ||| (p == Platform::Windows && e.len() >= 3 && e[0] == 0x76u8 && e[1] == 0x32u8 && e[2]
        == 0x30u8)
}

/// A control byte other than tab, newline and carriage return.
pub open spec fn is_binary_byte(b: u8) -> bool {
    b < 0x20 && b != 9 && b != 10 && b != 13
}

/// Newer Chromium puts the SHA-256 of the host (32 bytes) before the value;
/// a plaintext longer than that whose first 32 bytes hold a binary byte
/// starts with such a hash.
pub open spec fn has_host_hash(d: Seq<u8>) -> bool {
    d.len() > 32 && exists|i: int| 0 <= i < 32 && is_binary_byte(#[trigger] d[i])
}

/// The cookie value in a decrypted plaintext.
pub open spec fn strip_host_hash(d: Seq<u8>) -> Seq<u8> {
    if has_host_hash(d) {
        d.subrange(32, d.len() as int)
    } else {
        d
    }
}

/// The salt Chromium derives its cookie key with.
pub open spec fn chromium_salt() -> Seq<u8> {
    seq![0x73u8, 0x61u8, 0x6cu8, 0x74u8, 0x79u8, 0x73u8, 0x61u8, 0x6cu8, 0x74u8]
}

/// The password Chromium uses on Linux when no keyring is available.
pub open spec fn fallback_password() -> Seq<u8> {
    seq![0x70u8, 0x65u8, 0x61u8, 0x6eu8, 0x75u8, 0x74u8, 0x73u8]
}

/// The CBC initialisation vector Chromium uses: sixteen spaces.
pub open spec fn chromium_iv() -> Seq<u8> {
    Seq::new(16, |i: int| 0x20u8)
}

/// The value that AES-128-CBC decryption under a key derived from
/// `password` in `rounds` rounds gives, when the plaintext is valid UTF-8.
pub open spec fn cbc_value(ciphertext: Seq<u8>, password: Seq<u8>, rounds: u32) -> Option<Seq<char>> {
    let key = pbkdf2_hmac_sha1_key(password, chromium_salt(), rounds, 16);
    match aes128_cbc_pkcs7_plaintext(key, chromium_iv(), ciphertext) {
        Some(d) => if valid_utf8(strip_host_hash(d)) {
            Some(decode_utf8(strip_host_hash(d)))
        } else {
            None
        },
        None => None,
    }
}

/// The error Linux gives when neither password decrypts the value.
pub open spec fn linux_failure() -> Seq<char> {
    "Could not decrypt Chrome cookie (tried peanuts + keyring)"@
}

/// Linux, once the built-in password has failed: the keyring password, if
/// there is one, is tried next.
pub open spec fn linux_keyring_result(ciphertext: Seq<u8>, keyring: Option<Vec<u8>>) -> Result<
    Seq<char>,
    CookieErrorView,
> {
    match keyring {
        Some(pw) => match cbc_value(ciphertext, pw@, 1) {
            Some(s) => Ok(s),
            None => Err(CookieErrorView::Decrypt(linux_failure())),
        },
        None => Err(CookieErrorView::Decrypt(linux_failure())),
    }
}

/// macOS, once the keychain has been asked for a password.
pub open spec fn macos_result(ciphertext: Seq<u8>, password: Option<Vec<u8>>) -> Result<
    Seq<char>,
    CookieErrorView,
> {
    match password {
        None => Err(CookieErrorView::Decrypt("Keychain lookup failed for all browsers"@)),
        Some(pw) => {
            let key = pbkdf2_hmac_sha1_key(pw@, chromium_salt(), 1003, 16);
            match aes128_cbc_pkcs7_plaintext(key, chromium_iv(), ciphertext) {
                None => Err(CookieErrorView::Decrypt("AES decrypt failed: "@ + "Unpad Error"@)),
                Some(d) => utf8_result(strip_host_hash(d)),
            }
        },
    }
}

/// The text of a decrypted value, or why it is not UTF-8.
pub open spec fn utf8_result(p: Seq<u8>) -> Result<Seq<char>, CookieErrorView> {
    if valid_utf8(p) {
        Ok(decode_utf8(p))
    } else {
        Err(CookieErrorView::Decrypt("UTF-8 decode failed: "@ + utf8_error_text(p)))
    }
}

/// Windows: AES-256-GCM under the key from `Local State`; after the tag
/// come a 12-byte nonce and the ciphertext with its 16-byte tag.
pub open spec fn windows_result(payload: Seq<u8>, key: Option<Seq<u8>>) -> Result<
    Seq<char>,
    CookieErrorView,
> {
    match key {
        None => Err(CookieErrorView::Decrypt("No encryption key available"@)),
        Some(k) => if payload.len() < 12 + 16 {
            Err(CookieErrorView::Decrypt("Encrypted value too short"@))
        } else if k.len() != 32 {
            Err(CookieErrorView::Decrypt("Invalid AES key: "@ + "Invalid Length"@))
        } else {
            match aes256_gcm_plaintext(
                k,
                payload.subrange(0, 12),
                payload.subrange(12, payload.len() as int),
            ) {
                None => Err(CookieErrorView::Decrypt("AES-GCM decrypt failed: "@ + "aead::Error"@)),
                Some(d) => utf8_result(strip_host_hash(d)),
            }
        },
    }
}

/// The plain-text view of a decryption result.
pub open spec fn result_view(r: Result<String, CookieError>) -> Result<Seq<char>, CookieErrorView> {
    match r {
        Ok(s) => Ok(s@),
        Err(e) => Err(e@),
    }
}

/// The optional key as plain bytes.
pub open spec fn key_view(k: Option<&[u8]>) -> Option<Seq<u8>> {
    match k {
        Some(b) => Some(b@),
        None => None,
    }
}

/// The cookie value inside a decrypted plaintext.
pub fn strip_host_hash_exec(d: &[u8]) -> (r: &[u8])
    ensures
        r@ == strip_host_hash(d@),
{
    let n = d.len();
    if n <= 32 {
        return d;
    }
    let mut i: usize = 0;
    while i < 32
        invariant
            n == d@.len(),
            n > 32,
            i <= 32,
            forall|j: int| 0 <= j < i ==> !is_binary_byte(#[trigger] d@[j]),
        decreases 32 - i,
    {
        let b = d[i];
        if b < 0x20 && b != 9 && b != 10 && b != 13 {
            assert(is_binary_byte(d@[i as int]));
            return &d[32..n];
        }
        i = i + 1;
    }
    d
}

/// A plaintext longer than 32 bytes with a control byte other than tab,
/// line feed and carriage return among its first 32 bytes starts with a
/// host hash: the cookie value is what follows those 32 bytes.
pub proof fn lemma_host_hash_is_stripped(d: Seq<u8>, i: int)
    requires
        d.len() > 32,
        0 <= i < 32,
        d[i] < 0x20 && d[i] != 0x09 && d[i] != 0x0a && d[i] != 0x0d,
    ensures
        strip_host_hash(d) == d.subrange(32, d.len() as int),
{
    assert(is_binary_byte(d[i]));
}

/// A plaintext of at most 32 bytes, or one whose first 32 bytes are all
/// text (tab, line feed, carriage return or at least 0x20), is the cookie
/// value itself.
pub proof fn lemma_plain_value_is_kept(d: Seq<u8>)
    requires
        d.len() <= 32 || forall|i: int| 0 <= i < 32 ==> (d[i] >= 0x20 || d[i] == 0x09 || d[i] == 0x0a || d[i] == 0x0d),
    ensures
        strip_host_hash(d) == d,
{
}

/// On Linux, a value encrypted under the built-in password whose plaintext
/// is a 32-byte host hash (holding a control byte) followed by UTF-8 text
/// decrypts to that text, whatever the keyring holds.
pub proof fn lemma_linux_hashed_value_decrypts(payload: Seq<u8>, d: Seq<u8>, i: int)
    requires
        aes128_cbc_pkcs7_plaintext(
            pbkdf2_hmac_sha1_key(seq![0x70u8, 0x65u8, 0x61u8, 0x6eu8, 0x75u8, 0x74u8, 0x73u8], seq![0x73u8, 0x61u8, 0x6cu8, 0x74u8, 0x79u8, 0x73u8, 0x61u8, 0x6cu8, 0x74u8], 1, 16),
            Seq::new(16, |j: int| 0x20u8),
            payload,
        ) == Some(d),
        d.len() > 32,
        0 <= i < 32,
        d[i] < 0x20 && d[i] != 0x09 && d[i] != 0x0a && d[i] != 0x0d,
        valid_utf8(d.subrange(32, d.len() as int)),
    ensures
        cbc_value(payload, fallback_password(), 1) == Some(decode_utf8(d.subrange(32, d.len() as int))),
{
    lemma_host_hash_is_stripped(d, i);
    assert(fallback_password() =~= seq![0x70u8, 0x65u8, 0x61u8, 0x6eu8, 0x75u8, 0x74u8, 0x73u8]);
    assert(chromium_salt() =~= seq![0x73u8, 0x61u8, 0x6cu8, 0x74u8, 0x79u8, 0x73u8, 0x61u8, 0x6cu8, 0x74u8]);
    assert(chromium_iv() =~= Seq::new(16, |j: int| 0x20u8));
}

/// One decryption attempt with `password`, as Chromium does on Linux.
fn try_decrypt(ciphertext: &[u8], password: &[u8], rounds: u32) -> (r: Option<String>)
    ensures
        match r {
            Some(s) => cbc_value(ciphertext@, password@, rounds) == Some(s@),
            None => cbc_value(ciphertext@, password@, rounds) is None,
        },
{
    let salt: [u8; 9] = [0x73u8, 0x61u8, 0x6cu8, 0x74u8, 0x79u8, 0x73u8, 0x61u8, 0x6cu8, 0x74u8];
    assert(salt@ =~= chromium_salt());
    let key = pbkdf2_hmac_sha1(password, &salt, rounds, 16);
    let iv: [u8; 16] = [0x20u8; 16];
    assert(iv@ =~= chromium_iv());
    match aes128_cbc_pkcs7_decrypt(key.as_slice(), &iv, ciphertext) {
        Ok(d) => {
            let payload = strip_host_hash_exec(d.as_slice());
            match utf8_string(slice_to_vec(payload)) {
                Ok(s) => Some(s),
                Err(_) => None,
            }
        },
        Err(_) => None,
    }
}

fn decrypt_error(msg: &str) -> (r: CookieError)
    ensures
        r@ == CookieErrorView::Decrypt(msg@),
{
    CookieError::Decrypt(String::from_str(msg))
}

/// Decodes a decrypted plaintext into the cookie value.
fn utf8_value(d: &[u8]) -> (r: Result<String, CookieError>)
    ensures
        result_view(r) == utf8_result(strip_host_hash(d@)),
{
    let payload = strip_host_hash_exec(d);
    match utf8_string(slice_to_vec(payload)) {
        Ok(s) => Ok(s),
        Err(m) => {
            let mut msg = String::from_str("UTF-8 decode failed: ");
            msg.append(m.as_str());
            Err(CookieError::Decrypt(msg))
        },
    }
}

/// Decrypts a Chromium cookie value stored on platform `p`.
///
/// An empty value is the empty string; a value without a version tag is
/// plain text (invalid UTF-8 replaced). Tagged values are decrypted:
/// on Linux (and other Unix systems) with the built-in password "peanuts"
/// and then with the keyring password `secret` gives; on macOS with the
/// keychain password `secret` gives; on Windows with AES-256-GCM under `key`.
/// `secret` is called at most once, and only when its password is needed.
pub fn decrypt_chrome_value<F: FnOnce() -> Option<Vec<u8>>>(
    p: Platform,
    encrypted: &[u8],
    key: Option<&[u8]>,
    secret: F,
) -> (r: Result<String, CookieError>)
    requires
        call_requires(secret, ()),
    ensures
        encrypted@.len() == 0 ==> result_view(r) == Ok::<Seq<char>, CookieErrorView>(
            Seq::empty(),
        ),
        encrypted@.len() > 0 && !is_encrypted_value(p, encrypted@) ==> result_view(r) == Ok::<
            Seq<char>,
            CookieErrorView,
        >(utf8_lossy_text(encrypted@)),
        encrypted@.len() > 0 && !is_encrypted_value(p, encrypted@) && valid_utf8(encrypted@)
            ==> result_view(r) == Ok::<Seq<char>, CookieErrorView>(decode_utf8(encrypted@)),
        is_encrypted_value(p, encrypted@) ==> ({
            let payload = encrypted@.subrange(3, encrypted@.len() as int);
            match p {
                Platform::Windows => result_view(r) == windows_result(payload, key_view(key)),
                Platform::MacOs => exists|pw: Option<Vec<u8>>|
                    call_ensures(secret, (), pw) && result_view(r) == macos_result(payload, pw),
                _ => match cbc_value(payload, fallback_password(), 1) {
                    Some(s) => result_view(r) == Ok::<Seq<char>, CookieErrorView>(s),
                    None => exists|pw: Option<Vec<u8>>|
                        call_ensures(secret, (), pw) && result_view(r) == linux_keyring_result(
                            payload,
                            pw,
                        ),
                },
            }
        }),
{
    let n = encrypted.len();
    if n == 0 {
        return Ok(String::new());
    }
    let tagged = n >= 3 && encrypted[0] == 0x76u8 && (encrypted[1] == 0x31u8 && (encrypted[2]
        == 0x30u8 || encrypted[2] == 0x31u8) || (p == Platform::Windows && encrypted[1] == 0x32u8
        && encrypted[2] == 0x30u8));
    if !tagged {
        return Ok(utf8_lossy(encrypted));
    }
    let payload = &encrypted[3..n];
    match p {
        Platform::Windows => {
            let k = match key {
                Some(k) => k,
                None => {
                    return Err(decrypt_error("No encryption key available"));
                },
            };
            if payload.len() < 12 + 16 {
                return Err(decrypt_error("Encrypted value too short"));
            }
            let (nonce, ciphertext) = payload.split_at(12);
            let r = match aes256_gcm_decrypt(k, nonce, ciphertext) {
                Ok(d) => utf8_value(d.as_slice()),
                Err(GcmFailure::Key(m)) => {
                    let mut msg = String::from_str("Invalid AES key: ");
                    msg.append(m.as_str());
                    Err(CookieError::Decrypt(msg))
                },
                Err(GcmFailure::Aead(m)) => {
                    let mut msg = String::from_str("AES-GCM decrypt failed: ");
                    msg.append(m.as_str());
                    Err(CookieError::Decrypt(msg))
                },
            };
            assert(result_view(r) == windows_result(payload@, key_view(key)));
            r
        },
        Platform::MacOs => {
            let answer = secret();
            let password = match answer {
                Some(ref pw) => pw,
                None => {
                    let r = Err(decrypt_error("Keychain lookup failed for all browsers"));
                    assert(result_view(r) == macos_result(payload@, answer));
                    return r;
                },
            };
            let salt: [u8; 9] = [
                0x73u8,
                0x61u8,
                0x6cu8,
                0x74u8,
                0x79u8,
                0x73u8,
                0x61u8,
                0x6cu8,
                0x74u8,
            ];
            assert(salt@ =~= chromium_salt());
            let dkey = pbkdf2_hmac_sha1(password.as_slice(), &salt, 1003, 16);
            let iv: [u8; 16] = [0x20u8; 16];
            assert(iv@ =~= chromium_iv());
            let r = match aes128_cbc_pkcs7_decrypt(dkey.as_slice(), &iv, payload) {
                Ok(d) => utf8_value(d.as_slice()),
                Err(m) => {
                    let mut msg = String::from_str("AES decrypt failed: ");
                    msg.append(m.as_str());
                    Err(CookieError::Decrypt(msg))
                },
            };
            assert(result_view(r) == macos_result(payload@, answer));
            r
        },
        _ => {
            let peanuts: [u8; 7] = [0x70u8, 0x65u8, 0x61u8, 0x6eu8, 0x75u8, 0x74u8, 0x73u8];
            assert(peanuts@ =~= fallback_password());
            if let Some(s) = try_decrypt(payload, &peanuts, 1) {
                return Ok(s);
            }
            let keyring = secret();
            if let Some(pw) = &keyring {
                if let Some(s) = try_decrypt(payload, pw.as_slice(), 1) {
                    let r = Ok(s);
                    assert(result_view(r) == linux_keyring_result(payload@, keyring));
                    return r;
                }
            }
            let r = Err(decrypt_error("Could not decrypt Chrome cookie (tried peanuts + keyring)"));
            assert(result_view(r) == linux_keyring_result(payload@, keyring));
            r
        },
    }
}

// ---------------------------------------------------------------------------
// The Chromium cookie key on Windows
// ---------------------------------------------------------------------------

/// `b` without the leading bytes `pre`, when it starts with them.
pub open spec fn strip_prefix_spec(b: Seq<u8>, pre: Seq<u8>) -> Option<Seq<u8>> {
    if b.len() >= pre.len() && b.subrange(0, pre.len() as int) == pre {
        Some(b.subrange(pre.len() as int, b.len() as int))
    } else {
        None
    }
}

/// The marker before an App-Bound key blob: "APPB".
pub open spec fn appb_marker() -> Seq<u8> {
    seq![0x41u8, 0x50u8, 0x50u8, 0x42u8]
}

/// The marker before a DPAPI key blob: "DPAPI".
pub open spec fn dpapi_marker() -> Seq<u8> {
    seq![0x44u8, 0x50u8, 0x41u8, 0x50u8, 0x49u8]
}

/// The protected blob under `os_crypt.<field>` of `Local State`: base64
/// decoded and stripped of its marker.
pub open spec fn key_blob_spec(local_state: Seq<char>, field: Seq<char>, marker: Seq<u8>) -> Option<
    Seq<u8>,
> {
    match json_nested_string(local_state, "os_crypt"@, field) {
        Some(b64) => match base64_standard_bytes(b64) {
            Some(raw) => strip_prefix_spec(raw, marker),
            None => None,
        },
        None => None,
    }
}

/// The App-Bound key: the last 32 bytes of the twice-unprotected blob, which
/// must be at least 61 bytes long.
pub open spec fn appbound_key_spec(unprotected: Seq<u8>) -> Option<Seq<u8>> {
    if unprotected.len() < 61 {
        None
    } else {
        Some(unprotected.subrange(unprotected.len() - 32, unprotected.len() as int))
    }
}

/// The bytes of an optional buffer.
pub open spec fn bytes_view(v: Option<Vec<u8>>) -> Option<Seq<u8>> {
    match v {
        Some(b) => Some(b@),
        None => None,
    }
}

/// The key the App-Bound route ends with once the blob has been unprotected
/// as SYSTEM (`system_out`) and, if that succeeded, as the user (`user_out`).
pub open spec fn appbound_key_of(system_out: Option<Vec<u8>>, user_out: Option<Vec<u8>>) -> Option<Seq<u8>> {
    match system_out {
        Some(_) => match user_out {
            Some(u) => appbound_key_spec(u@),
            None => None,
        },
        None => None,
    }
}

/// `out` is a result the App-Bound route can give for `blob`: unprotected
/// as SYSTEM, then as the user, then cut to its key.
pub open spec fn appbound_may_give<S: FnOnce(Vec<u8>) -> Option<Vec<u8>>, U: Fn(Vec<u8>) -> Option<Vec<u8>>>(
    system: S,
    user: U,
    blob: Seq<u8>,
    out: Option<Seq<u8>>,
) -> bool {
    exists|b: Vec<u8>, so: Option<Vec<u8>>, uo: Option<Vec<u8>>|
        #![trigger call_ensures(system, (b,), so), appbound_key_of(so, uo)]
        b@ == blob && call_ensures(system, (b,), so) && (match so {
            Some(s) => call_ensures(user, (s,), uo),
            None => true,
        }) && out == appbound_key_of(so, uo)
}

/// `out` is a result the legacy DPAPI route can give for `blob`.
pub open spec fn legacy_may_give<U: Fn(Vec<u8>) -> Option<Vec<u8>>>(
    user: U,
    blob: Seq<u8>,
    out: Option<Seq<u8>>,
) -> bool {
    exists|b: Vec<u8>, k: Option<Vec<u8>>|
        #![trigger call_ensures(user, (b,), k)]
        b@ == blob && call_ensures(user, (b,), k) && out == bytes_view(k)
}

/// The text of an optional string slice.
pub open spec fn str_view(s: Option<&str>) -> Option<Seq<char>> {
    match s {
        Some(t) => Some(t@),
        None => None,
    }
}

/// `out` is a key the `Local State` text `local` can give: the App-Bound
/// route's key when its blob is there and the route succeeds, else the
/// legacy route's result when its blob is there, else none.
pub open spec fn key_from_local_state<S: FnOnce(Vec<u8>) -> Option<Vec<u8>>, U: Fn(Vec<u8>) -> Option<Vec<u8>>>(
    local: Option<Seq<char>>,
    system: S,
    user: U,
    out: Option<Seq<u8>>,
) -> bool {
    match local {
        None => out is None,
        Some(t) => exists|app: Option<Seq<u8>>|
            #![trigger app_route(t, system, user, app)]
            app_route(t, system, user, app) && match app {
                Some(k) => out == Some(k),
                None => match key_blob_spec(t, "encrypted_key"@, dpapi_marker()) {
                    Some(blob) => legacy_may_give(user, blob, out),
                    None => out is None,
                },
            },
    }
}

/// `app` is what the App-Bound route gives for the text `t`: nothing when
/// the text holds no App-Bound blob.
pub open spec fn app_route<S: FnOnce(Vec<u8>) -> Option<Vec<u8>>, U: Fn(Vec<u8>) -> Option<Vec<u8>>>(
    t: Seq<char>,
    system: S,
    user: U,
    app: Option<Seq<u8>>,
) -> bool {
    match key_blob_spec(t, "app_bound_encrypted_key"@, appb_marker()) {
        Some(blob) => appbound_may_give(system, user, blob, app),
        None => app is None,
    }
}

fn strip_prefix_exec(b: &[u8], pre: &[u8]) -> (r: Option<Vec<u8>>)
    ensures
        match r {
            Some(v) => strip_prefix_spec(b@, pre@) == Some(v@),
            None => strip_prefix_spec(b@, pre@) is None,
        },
{
    let n = b.len();
    let m = pre.len();
    if n < m {
        return None;
    }
    let mut i: usize = 0;
    while i < m
        invariant
            n == b@.len(),
            m == pre@.len(),
            m <= n,
            i <= m,
            forall|j: int| 0 <= j < i ==> b@[j] == pre@[j],
        decreases m - i,
    {
        if b[i] != pre[i] {
            assert(b@.subrange(0, m as int)[i as int] != pre@[i as int]);
            return None;
        }
        i = i + 1;
    }
    assert(b@.subrange(0, m as int) =~= pre@);
    Some(slice_to_vec(&b[m..n]))
}

fn key_blob(local_state: &str, field: &str, marker: &[u8]) -> (r: Option<Vec<u8>>)
    ensures
        match r {
            Some(v) => key_blob_spec(local_state@, field@, marker@) == Some(v@),
            None => key_blob_spec(local_state@, field@, marker@) is None,
        },
{
    let b64 = match json_string_at(local_state, "os_crypt", field) {
        Some(s) => s,
        None => {
            return None;
        },
    };
    let raw = match base64_decode(b64.as_str()) {
        Some(r) => r,
        None => {
            return None;
        },
    };
    strip_prefix_exec(raw.as_slice(), marker)
}

/// The AES key Chromium encrypts cookies with on Windows, read from the
/// text of its `Local State` file: the App-Bound key (Chrome and Edge 127
/// and later) when its blob is there and unprotects, else the legacy DPAPI
/// key. `unprotect_as_system` and `unprotect_as_user` call the system's data
/// protection API under the SYSTEM account and the user's. Elsewhere the key
/// is derived when a value is decrypted, so there is none here.
pub fn chrome_encryption_key<S, U>(
    p: Platform,
    local_state: Option<&str>,
    unprotect_as_system: S,
    unprotect_as_user: U,
) -> (r: Option<Vec<u8>>) where S: FnOnce(Vec<u8>) -> Option<Vec<u8>>, U: Fn(Vec<u8>) -> Option<Vec<u8>>
    requires
        forall|b: Vec<u8>| call_requires(unprotect_as_system, (b,)),
        forall|b: Vec<u8>| call_requires(unprotect_as_user, (b,)),
    ensures
        p != Platform::Windows ==> r is None,
        p == Platform::Windows ==> key_from_local_state(
            str_view(local_state),
            unprotect_as_system,
            unprotect_as_user,
            bytes_view(r),
        ),
{
    if p != Platform::Windows {
        return None;
    }
    let text = match local_state {
        Some(t) => t,
        None => {
            return None;
        },
    };
    let appb: [u8; 4] = [0x41u8, 0x50u8, 0x50u8, 0x42u8];
    assert(appb@ =~= appb_marker());
    let ghost mut app: Option<Seq<u8>> = None;
    if let Some(blob) = key_blob(text, "app_bound_encrypted_key", &appb) {
        let ghost b0 = blob;
        let so = unprotect_as_system(blob);
        let ghost so0 = so;
        let mut uo: Option<Vec<u8>> = None;
        if let Some(s) = so {
            uo = unprotect_as_user(s);
        }
        proof {
            app = appbound_key_of(so0, uo);
            assert(appbound_may_give(unprotect_as_system, unprotect_as_user, b0@, app));
        }
        if let Some(u) = uo {
            let n = u.len();
            if n >= 61 {
                let k = slice_to_vec(&u.as_slice()[n - 32..n]);
                assert(app == Some(k@));
                assert(app_route(text@, unprotect_as_system, unprotect_as_user, app));
                return Some(k);
            }
        }
    }
    assert(app is None);
    assert(app_route(text@, unprotect_as_system, unprotect_as_user, app));
    let dpapi: [u8; 5] = [0x44u8, 0x50u8, 0x41u8, 0x50u8, 0x49u8];
    assert(dpapi@ =~= dpapi_marker());
    let blob = match key_blob(text, "encrypted_key", &dpapi) {
        Some(b) => b,
        None => {
            return None;
        },
    };
    let ghost b1 = blob;
    let r = unprotect_as_user(blob);
    assert(legacy_may_give(unprotect_as_user, b1@, bytes_view(r)));
    r
}

/// The id of the first process, from position `i` on, whose image path ends
/// with `suffix`.
pub open spec fn first_ending_from(procs: Seq<(u32, Seq<char>)>, suffix: Seq<char>, i: int) -> Option<u32>
    decreases procs.len() - i,
{
    if i < 0 || i >= procs.len() {
        None
    } else if ends_with_seq(procs[i].1, suffix) {
        Some(procs[i].0)
    } else {
        first_ending_from(procs, suffix, i + 1)
    }
}

/// The process whose token gives SYSTEM rights: the first `lsass.exe`, or
/// failing that the first `winlogon.exe`.
pub open spec fn system_process_spec(procs: Seq<(u32, Seq<char>)>) -> Option<u32> {
    match first_ending_from(procs, "lsass.exe"@, 0) {
        Some(pid) => Some(pid),
        None => first_ending_from(procs, "winlogon.exe"@, 0),
    }
}

/// The processes as ids and image paths.
pub open spec fn procs_view(procs: Seq<(u32, String)>) -> Seq<(u32, Seq<char>)> {
    procs.map_values(|p: (u32, String)| (p.0, p.1@))
}

/// Picks, from the running processes given as (id, image path) pairs, the
/// one whose token is duplicated to act as SYSTEM on Windows.
pub fn pick_system_process(procs: &Vec<(u32, String)>) -> (r: Option<u32>)
    ensures
        r == system_process_spec(procs_view(procs@)),
{
    let ghost ps = procs_view(procs@);
    let n = procs.len();
    let mut target: Option<u32> = None;
    let mut i: usize = 0;
    while i < n
        invariant
            n == procs@.len(),
            ps == procs_view(procs@),
            i <= n,
            first_ending_from(ps, "lsass.exe"@, 0) == first_ending_from(ps, "lsass.exe"@, i as int),
            match target {
                Some(pid) => first_ending_from(ps, "winlogon.exe"@, 0) == Some(pid),
                None => first_ending_from(ps, "winlogon.exe"@, 0) == first_ending_from(
                    ps,
                    "winlogon.exe"@,
                    i as int,
                ),
            },
        decreases n - i,
    {
        let name = procs[i].1.as_str();
        assert(ps[i as int] == (procs@[i as int].0, procs@[i as int].1@));
        if str_ends_with(name, "lsass.exe") {
            return Some(procs[i].0);
        }
        if target.is_none() && str_ends_with(name, "winlogon.exe") {
            target = Some(procs[i].0);
        }
        i = i + 1;
    }
    match target {
        Some(pid) => {
            assert(first_ending_from(ps, "lsass.exe"@, n as int) is None);
            Some(pid)
        },
        None => {
            assert(first_ending_from(ps, "lsass.exe"@, n as int) is None);
            assert(first_ending_from(ps, "winlogon.exe"@, n as int) is None);
            None
        },
    }
}

} // verus!
