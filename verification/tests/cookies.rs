use usage_widget::browser::BrowserKind;
use usage_widget::cookie_jar::CookieJar;
use usage_widget::cookies::{
    chrome_encryption_key, decrypt_chrome_value, pick_system_process, read_cookies, CookieError,
    CookieStore,
};
use usage_widget::platform::Platform;

use aes::cipher::{BlockEncryptMut, KeyIvInit};
use aes_gcm::aead::{Aead, KeyInit};
use base64::Engine;

fn cbc_encrypt(password: &[u8], rounds: u32, plain: &[u8]) -> Vec<u8> {
    let mut key = [0u8; 16];
    pbkdf2::pbkdf2_hmac::<sha1::Sha1>(password, b"saltysalt", rounds, &mut key);
    let iv = [0x20u8; 16];
    let enc = cbc::Encryptor::<aes::Aes128>::new(&key.into(), &iv.into());
    let mut buf = vec![0u8; plain.len() + 16];
    buf[..plain.len()].copy_from_slice(plain);
    enc.encrypt_padded_mut::<aes::cipher::block_padding::Pkcs7>(&mut buf, plain.len())
        .unwrap()
        .to_vec()
}

fn tagged(tag: &[u8], body: &[u8]) -> Vec<u8> {
    let mut v = tag.to_vec();
    v.extend_from_slice(body);
    v
}

#[test]
fn empty_and_untagged_values() {
    assert_eq!(decrypt_chrome_value(Platform::Linux, b"", None, || None).unwrap(), "");
    assert_eq!(decrypt_chrome_value(Platform::Linux, b"plain", None, || None).unwrap(), "plain");
    assert_eq!(
        decrypt_chrome_value(Platform::Linux, b"v1", None, || None).unwrap(),
        "v1"
    );
    assert_eq!(
        decrypt_chrome_value(Platform::Linux, &[0x61, 0xff], None, || None).unwrap(),
        "a\u{fffd}"
    );
    assert_eq!(decrypt_chrome_value(Platform::Windows, b"plain", None, || None).unwrap(), "plain");
    assert_eq!(decrypt_chrome_value(Platform::Linux, b"v12x", None, || None).unwrap(), "v12x");
    // v20 is only a tag on Windows.
    assert_eq!(decrypt_chrome_value(Platform::Linux, b"v20xyz", None, || None).unwrap(), "v20xyz");
}

#[test]
fn linux_peanuts_value_decrypts_without_keyring() {
    let value = tagged(b"v10", &cbc_encrypt(b"peanuts", 1, b"secret-cookie"));
    let mut asked = false;
    let r = decrypt_chrome_value(Platform::Linux, &value, None, || {
        asked = true;
        None
    });
    assert_eq!(r.unwrap(), "secret-cookie");
    assert!(!asked);
}

#[test]
fn linux_keyring_value_and_failure() {
    let value = tagged(b"v11", &cbc_encrypt(b"hunter2", 1, b"from-keyring"));
    let r = decrypt_chrome_value(Platform::Linux, &value, None, || Some(b"hunter2".to_vec()));
    assert_eq!(r.unwrap(), "from-keyring");
    match decrypt_chrome_value(Platform::Linux, &value, None, || None) {
        Err(CookieError::Decrypt(m)) => {
            assert_eq!(m, "Could not decrypt Chrome cookie (tried peanuts + keyring)")
        }
        other => panic!("unexpected {other:?}"),
    }
}

#[test]
fn host_hash_prefix_is_stripped() {
    let mut plain = vec![0x01u8; 32];
    plain.extend_from_slice(b"value");
    let value = tagged(b"v10", &cbc_encrypt(b"peanuts", 1, &plain));
    assert_eq!(decrypt_chrome_value(Platform::Linux, &value, None, || None).unwrap(), "value");
    let printable = b"abcdefghijklmnopqrstuvwxyz0123456789";
    let value = tagged(b"v10", &cbc_encrypt(b"peanuts", 1, printable));
    assert_eq!(
        decrypt_chrome_value(Platform::Linux, &value, None, || None).unwrap(),
        "abcdefghijklmnopqrstuvwxyz0123456789"
    );
}

#[test]
fn macos_uses_keychain_password() {
    let value = tagged(b"v10", &cbc_encrypt(b"kc", 1003, b"mac-cookie"));
    let r = decrypt_chrome_value(Platform::MacOs, &value, None, || Some(b"kc".to_vec()));
    assert_eq!(r.unwrap(), "mac-cookie");
    match decrypt_chrome_value(Platform::MacOs, &value, None, || None) {
        Err(e) => assert_eq!(e.message(), "Decrypt error: Keychain lookup failed for all browsers"),
        Ok(_) => panic!("expected failure"),
    }
    match decrypt_chrome_value(Platform::MacOs, &value, None, || Some(b"wrong".to_vec())) {
        Err(CookieError::Decrypt(m)) => assert!(m.starts_with("AES decrypt failed") || m.starts_with("UTF-8 decode failed")),
        other => panic!("unexpected {other:?}"),
    }
}

#[test]
fn windows_gcm_value() {
    let key = [7u8; 32];
    let nonce = [9u8; 12];
    let cipher = aes_gcm::Aes256Gcm::new(&key.into());
    let ct = cipher.encrypt(aes_gcm::Nonce::from_slice(&nonce), b"win-cookie".as_ref()).unwrap();
    let mut value = b"v20".to_vec();
    value.extend_from_slice(&nonce);
    value.extend_from_slice(&ct);
    let r = decrypt_chrome_value(Platform::Windows, &value, Some(&key), || None);
    assert_eq!(r.unwrap(), "win-cookie");
    let msg = |r: Result<String, CookieError>| match r {
        Err(CookieError::Decrypt(m)) => m,
        other => panic!("unexpected {other:?}"),
    };
    assert_eq!(msg(decrypt_chrome_value(Platform::Windows, &value, None, || None)), "No encryption key available");
    assert_eq!(
        msg(decrypt_chrome_value(Platform::Windows, b"v10short", Some(&key), || None)),
        "Encrypted value too short"
    );
    assert_eq!(
        msg(decrypt_chrome_value(Platform::Windows, &value, Some(&key[..16]), || None)),
        "Invalid AES key: Invalid Length"
    );
    assert_eq!(
        msg(decrypt_chrome_value(Platform::Windows, &value, Some(&[8u8; 32]), || None)),
        "AES-GCM decrypt failed: aead::Error"
    );
}

#[test]
fn error_messages() {
    assert_eq!(CookieError::NoBrowserDir.message(), "Browser directory not found");
    assert_eq!(CookieError::NoCookieDb.message(), "No cookie database found");
    assert_eq!(CookieError::PermissionDenied.message(), "Permission denied");
    assert_eq!(CookieError::Sqlite(String::from("busy")).message(), "SQLite error: busy");
    assert_eq!(CookieError::Decrypt(String::from("x")).message(), "Decrypt error: x");
}

#[test]
fn read_requests_pick_the_store() {
    let r = read_cookies(BrowserKind::Brave, "example.org", Some("/d"));
    assert_eq!(r.store, CookieStore::Chromium(BrowserKind::Brave));
    assert_eq!(r.domain, "example.org");
    assert_eq!(r.data_dir, Some(String::from("/d")));
    assert_eq!(read_cookies(BrowserKind::Firefox, "a", None).store, CookieStore::Firefox);
    assert_eq!(read_cookies(BrowserKind::Safari, "a", None).store, CookieStore::Safari);
}

#[test]
fn cookie_jar_last_insert_wins() {
    let mut jar = CookieJar::new();
    assert!(!jar.has_session());
    jar.insert(String::from("a"), String::from("1"));
    jar.insert(String::from("a"), String::from("2"));
    jar.insert(String::from("sessionKey"), String::from("s"));
    assert!(jar.contains_key("a"));
    assert_eq!(jar.get("a"), Some(String::from("2")));
    assert_eq!(jar.get("b"), None);
    assert!(jar.has_session());
    let map: std::collections::HashMap<String, String> = jar.pairs().into_iter().collect();
    assert_eq!(map.get("a"), Some(&String::from("2")));
    assert_eq!(map.len(), 2);
    assert_eq!(jar.duplicate().get("sessionKey"), Some(String::from("s")));
}

#[test]
fn windows_key_from_local_state() {
    let b64 = |b: &[u8]| base64::engine::general_purpose::STANDARD.encode(b);
    let mut legacy = b"DPAPI".to_vec();
    legacy.extend_from_slice(&[1, 2, 3]);
    let text = format!("{{\"os_crypt\":{{\"encrypted_key\":\"{}\"}}}}", b64(&legacy));
    let key = chrome_encryption_key(Platform::Windows, Some(&text), |_| None, |b: Vec<u8>| Some(b.iter().map(|x| x + 1).collect()));
    assert_eq!(key, Some(vec![2, 3, 4]));
    assert_eq!(chrome_encryption_key(Platform::Linux, Some(&text), |_| None, |b: Vec<u8>| Some(b)), None);

    let mut appb = b"APPB".to_vec();
    appb.extend_from_slice(&[5u8; 3]);
    let text = format!(
        "{{\"os_crypt\":{{\"app_bound_encrypted_key\":\"{}\",\"encrypted_key\":\"{}\"}}}}",
        b64(&appb),
        b64(&legacy)
    );
    let long: Vec<u8> = (0u8..70).collect();
    let long2 = long.clone();
    let key = chrome_encryption_key(Platform::Windows, Some(&text), move |_| Some(long2), |b: Vec<u8>| Some(b));
    assert_eq!(key, Some(long[38..70].to_vec()));
    // Too short after unprotecting: fall back to the legacy key.
    let key = chrome_encryption_key(Platform::Windows, Some(&text), |_| Some(vec![0u8; 10]), |b: Vec<u8>| Some(b));
    assert_eq!(key, Some(vec![1, 2, 3]));
    assert_eq!(chrome_encryption_key(Platform::Windows, Some("not json"), |_| None, |b: Vec<u8>| Some(b)), None);
}

#[test]
fn system_process_prefers_lsass() {
    let p = |pid: u32, name: &str| (pid, String::from(name));
    let procs = vec![
        p(4, "\\Device\\HarddiskVolume3\\Windows\\System32\\smss.exe"),
        p(8, "\\Device\\HarddiskVolume3\\Windows\\System32\\winlogon.exe"),
        p(9, "\\Device\\HarddiskVolume3\\Windows\\System32\\winlogon.exe"),
        p(12, "\\Device\\HarddiskVolume3\\Windows\\System32\\lsass.exe"),
    ];
    assert_eq!(pick_system_process(&procs), Some(12));
    assert_eq!(pick_system_process(&procs[..3].to_vec()), Some(8));
    assert_eq!(pick_system_process(&vec![p(1, "explorer.exe")]), None);
    assert_eq!(pick_system_process(&Vec::new()), None);
}
