use credwatch::fingerprint::{file_hash, fingerprint};
use credwatch::mask::mask_token;
use credwatch::poller::{finish_reload, poll_file, PollStep};
use credwatch::record::{CredError, CredentialRecord, Expiry, RefreshGrant};
use credwatch::status::{get_env_variables, get_gemini_credentials, get_kiro_credentials};
use credwatch::store::{ProviderKind, ProviderStore};
use credwatch::text::{hex_lower, signed_decimal};

fn s(t: &str) -> String {
    t.to_string()
}

fn record_with(access: Option<&str>, refresh: Option<&str>) -> CredentialRecord {
    let mut r = CredentialRecord::empty();
    r.access_token = access.map(s);
    r.refresh_token = refresh.map(s);
    r
}

fn poll(last: &str, content: Option<&Vec<u8>>) -> (bool, String, bool, bool) {
    match poll_file(last, content) {
        PollStep::Report(c) => (c.changed, c.new_hash, c.reloaded, false),
        PollStep::Reload(h) => (true, h, false, true),
    }
}

#[test]
fn mask_short_secret_is_fully_hidden() {
    assert_eq!(mask_token("abc"), "****************");
    assert_eq!(mask_token(""), "****************");
    assert_eq!(mask_token("abcdefghijkl"), "****************");
}

#[test]
fn mask_long_secret_keeps_edges() {
    assert_eq!(mask_token("abcdefghijklm"), "abcd****jklm");
    assert_eq!(mask_token("abcdefghijklmnopqrstuvwxyz0123456789"), "abcd****6789");
}

#[test]
fn mask_never_returns_the_secret() {
    for t in ["****************", "abcd****jklm", "x", "abcd*****jklm", "ab😀defghijklmn"] {
        assert_ne!(mask_token(t), t);
    }
    assert_eq!(mask_token("ab😀defghijklmn").chars().count(), 12);
}

#[test]
fn hex_and_decimal_text() {
    assert_eq!(hex_lower(&vec![0x00, 0xff, 0x1a, 0x09]), "00ff1a09");
    assert_eq!(hex_lower(&vec![]), "");
    assert_eq!(signed_decimal(0), "0");
    assert_eq!(signed_decimal(-105), "-105");
    assert_eq!(signed_decimal(1700000000000), "1700000000000");
    assert_eq!(signed_decimal(i64::MIN), "-9223372036854775808");
    assert_eq!(signed_decimal(i64::MAX), "9223372036854775807");
}

#[test]
fn fingerprint_is_md5_hex() {
    assert_eq!(fingerprint(b"hello"), "5d41402abc4b2a76b9719d911017c592");
    assert_eq!(fingerprint(b""), "d41d8cd98f00b204e9800998ecf8427e");
    assert_eq!(file_hash(None), "");
    assert_eq!(file_hash(Some(&b"hello".to_vec())), "5d41402abc4b2a76b9719d911017c592");
}

#[test]
fn unloaded_store_is_never_valid() {
    for kind in [ProviderKind::Kiro, ProviderKind::Gemini] {
        let store = ProviderStore::new(kind);
        assert!(!store.is_loaded());
        assert!(!store.is_token_valid(0));
        assert!(!store.is_token_valid(i64::MIN));
    }
}

#[test]
fn gemini_validity_follows_expiry() {
    let mut store = ProviderStore::new(ProviderKind::Gemini);
    let mut rec = record_with(Some("access"), None);
    rec.expiry = Some(Expiry::At(1000));
    store.load_credentials(Ok(rec)).unwrap();
    assert!(store.is_token_valid(999));
    assert!(!store.is_token_valid(1000));
    assert!(!store.is_token_valid(5000));
}

#[test]
fn kiro_opaque_expiry_is_valid_once_loaded() {
    let mut store = ProviderStore::new(ProviderKind::Kiro);
    let mut rec = record_with(None, Some("refresh"));
    rec.expiry = Some(Expiry::Opaque(s("2020-01-01T00:00:00Z")));
    store.load_credentials(Ok(rec)).unwrap();
    assert!(store.is_token_valid(i64::MAX));
}

#[test]
fn load_replaces_record_wholesale() {
    let mut store = ProviderStore::new(ProviderKind::Kiro);
    let mut first = record_with(Some("a1"), Some("r1"));
    first.region = Some(s("us-east-1"));
    store.load_credentials(Ok(first)).unwrap();
    store.load_credentials(Ok(record_with(Some("a2"), None))).unwrap();
    assert_eq!(store.credentials.access_token, Some(s("a2")));
    assert_eq!(store.credentials.refresh_token, None);
    assert_eq!(store.credentials.region, None);
}

#[test]
fn failed_load_keeps_record() {
    let mut store = ProviderStore::new(ProviderKind::Kiro);
    store.load_credentials(Ok(record_with(Some("a1"), Some("r1")))).unwrap();
    let err = store.load_credentials(Err(CredError::Decode(s("bad json"))));
    assert_eq!(err, Err(CredError::Decode(s("bad json"))));
    let err = store.load_credentials(Err(CredError::Io(s("missing"))));
    assert_eq!(err, Err(CredError::Io(s("missing"))));
    assert_eq!(store.credentials.access_token, Some(s("a1")));
    assert_eq!(store.credentials.refresh_token, Some(s("r1")));
}

#[test]
fn tokenless_load_leaves_an_empty_record() {
    let mut store = ProviderStore::new(ProviderKind::Kiro);
    let mut rec = record_with(None, None);
    rec.region = Some(s("eu-west-1"));
    store.load_credentials(Ok(rec)).unwrap();
    assert!(!store.is_loaded());
    assert_eq!(store.credentials.region, None);
}

#[test]
fn refresh_without_refresh_token_is_not_loaded() {
    let mut store = ProviderStore::new(ProviderKind::Gemini);
    store.load_credentials(Ok(record_with(Some("a1"), None))).unwrap();
    assert_eq!(store.refresh_request(), Err(CredError::NotLoaded));
    let grant = RefreshGrant { access_token: s("a2"), expiry: None, refresh_token: None };
    assert_eq!(store.complete_refresh(Ok(grant)), Err(CredError::NotLoaded));
    assert_eq!(store.credentials.access_token, Some(s("a1")));
    assert_eq!(CredError::NotLoaded.message(), "no refresh token is available");
}

#[test]
fn failed_refresh_keeps_record() {
    let mut store = ProviderStore::new(ProviderKind::Gemini);
    let mut rec = record_with(Some("a1"), Some("r1"));
    rec.expiry = Some(Expiry::At(10));
    store.load_credentials(Ok(rec)).unwrap();
    assert_eq!(store.refresh_request(), Ok(s("r1")));
    let r = store.complete_refresh(Err(s("invalid_grant")));
    assert_eq!(r, Err(CredError::Refresh(s("invalid_grant"))));
    assert_eq!(CredError::Refresh(s("invalid_grant")).message(), "invalid_grant");
    assert_eq!(store.credentials.access_token, Some(s("a1")));
    assert_eq!(store.credentials.refresh_token, Some(s("r1")));
    assert!(matches!(store.credentials.expiry, Some(Expiry::At(10))));
}

#[test]
fn refresh_replaces_token_and_expiry() {
    let mut store = ProviderStore::new(ProviderKind::Gemini);
    let mut rec = record_with(Some("a1"), Some("r1"));
    rec.expiry = Some(Expiry::At(10));
    store.load_credentials(Ok(rec)).unwrap();
    let grant = RefreshGrant { access_token: s("a2"), expiry: Some(Expiry::At(99)), refresh_token: None };
    assert_eq!(store.complete_refresh(Ok(grant)), Ok(()));
    assert_eq!(store.credentials.access_token, Some(s("a2")));
    assert_eq!(store.credentials.refresh_token, Some(s("r1")));
    assert!(matches!(store.credentials.expiry, Some(Expiry::At(99))));
    let grant = RefreshGrant { access_token: s("a3"), expiry: None, refresh_token: Some(s("r2")) };
    assert_eq!(store.complete_refresh(Ok(grant)), Ok(()));
    assert_eq!(store.credentials.refresh_token, Some(s("r2")));
    assert!(store.credentials.expiry.is_none());
}

#[test]
fn poll_absent_file_reports_empty_hash() {
    assert_eq!(poll("", None), (false, s(""), false, false));
    assert_eq!(poll("5d41402abc4b2a76b9719d911017c592", None), (false, s(""), false, false));
}

#[test]
fn poll_first_observation_sets_baseline() {
    let content = b"{\"accessToken\":\"a\"}".to_vec();
    let h1 = fingerprint(&content);
    assert_eq!(poll("", Some(&content)), (false, h1, false, false));
}

#[test]
fn poll_changed_file_reloads() {
    let old_content = b"hello".to_vec();
    let new_content = b"hello, world".to_vec();
    let h1 = fingerprint(&old_content);
    let h2 = fingerprint(&new_content);
    assert_ne!(h1, h2);
    let mut store = ProviderStore::new(ProviderKind::Kiro);
    store.load_credentials(Ok(record_with(Some("old"), None))).unwrap();
    let (changed, hash, _, reload) = poll(&h1, Some(&new_content));
    assert!(changed && reload);
    assert_eq!(hash, h2);
    let r = finish_reload(&mut store, hash, Ok(record_with(Some("new"), Some("r"))));
    assert!(r.changed && r.reloaded);
    assert_eq!(r.new_hash, h2);
    assert_eq!(store.credentials.access_token, Some(s("new")));
}

#[test]
fn poll_failed_reload_keeps_new_hash_and_record() {
    let mut store = ProviderStore::new(ProviderKind::Gemini);
    store.load_credentials(Ok(record_with(Some("old"), None))).unwrap();
    let r = finish_reload(&mut store, s("abc"), Err(CredError::Decode(s("bad"))));
    assert!(r.changed && !r.reloaded);
    assert_eq!(r.new_hash, "abc");
    assert_eq!(store.credentials.access_token, Some(s("old")));
}

#[test]
fn poll_twice_is_unchanged() {
    let content = b"token file".to_vec();
    for last in ["", "00000000000000000000000000000000"] {
        let (_, h1, _, _) = poll(last, Some(&content));
        assert_eq!(poll(&h1, Some(&content)), (false, h1.clone(), false, false));
        assert_eq!(poll(&h1, Some(&content)), (false, h1.clone(), false, false));
    }
}

#[test]
fn kiro_env_variables_mask_secrets() {
    let mut store = ProviderStore::new(ProviderKind::Kiro);
    let mut rec = record_with(Some("aoaAAAAAsecretaccess1234"), Some("short"));
    rec.client_id = Some(s("client-id-0123456789"));
    rec.client_secret = Some(s("sec"));
    rec.profile_arn = Some(s("arn:aws:codewhisperer:us-east-1:1:profile/X"));
    rec.region = Some(s("us-east-1"));
    rec.auth_method = Some(s("social"));
    rec.expiry = Some(Expiry::Opaque(s("2030-01-01T00:00:00Z")));
    store.load_credentials(Ok(rec)).unwrap();
    let vars = get_env_variables(&store);
    let got: Vec<(String, String, String)> =
        vars.into_iter().map(|v| (v.key, v.value, v.masked)).collect();
    let want = vec![
        (s("KIRO_ACCESS_TOKEN"), s(""), s("aoaA****1234")),
        (s("KIRO_REFRESH_TOKEN"), s(""), s("****************")),
        (s("KIRO_CLIENT_ID"), s(""), s("clie****6789")),
        (s("KIRO_CLIENT_SECRET"), s(""), s("****************")),
        (s("KIRO_PROFILE_ARN"), s("arn:aws:codewhisperer:us-east-1:1:profile/X"), s("arn:aws:codewhisperer:us-east-1:1:profile/X")),
        (s("KIRO_REGION"), s("us-east-1"), s("us-east-1")),
        (s("KIRO_AUTH_METHOD"), s("social"), s("social")),
    ];
    assert_eq!(got, want);
}

#[test]
fn gemini_env_variables_show_expiry() {
    let mut store = ProviderStore::new(ProviderKind::Gemini);
    let mut rec = record_with(Some("ya29.abcdefghijklmnop"), None);
    rec.expiry = Some(Expiry::At(1700000000000));
    store.load_credentials(Ok(rec)).unwrap();
    let vars = get_env_variables(&store);
    let got: Vec<(String, String, String)> =
        vars.into_iter().map(|v| (v.key, v.value, v.masked)).collect();
    let want = vec![
        (s("GEMINI_ACCESS_TOKEN"), s(""), s("ya29****mnop")),
        (s("GEMINI_EXPIRY_DATE"), s("1700000000000"), s("1700000000000")),
    ];
    assert_eq!(got, want);
    assert!(get_env_variables(&ProviderStore::new(ProviderKind::Gemini)).is_empty());
}

#[test]
fn kiro_status_reports_presence() {
    let mut store = ProviderStore::new(ProviderKind::Kiro);
    let st = get_kiro_credentials(&store, s("/p"));
    assert!(!st.loaded && !st.has_access_token && !st.has_refresh_token);
    assert_eq!(st.expires_at, None);
    let mut rec = record_with(None, Some("r"));
    rec.region = Some(s("us-east-1"));
    rec.auth_method = Some(s("IdC"));
    rec.expiry = Some(Expiry::Opaque(s("2030-01-01T00:00:00Z")));
    store.load_credentials(Ok(rec)).unwrap();
    let st = get_kiro_credentials(&store, s("/home/u/.aws/sso/cache/kiro-auth-token.json"));
    assert!(st.loaded && !st.has_access_token && st.has_refresh_token);
    assert_eq!(st.region, Some(s("us-east-1")));
    assert_eq!(st.auth_method, Some(s("IdC")));
    assert_eq!(st.expires_at, Some(s("2030-01-01T00:00:00Z")));
    assert_eq!(st.creds_path, "/home/u/.aws/sso/cache/kiro-auth-token.json");
}

#[test]
fn gemini_status_reports_validity() {
    let mut store = ProviderStore::new(ProviderKind::Gemini);
    let mut rec = record_with(Some("a"), Some("r"));
    rec.expiry = Some(Expiry::At(2000));
    store.load_credentials(Ok(rec)).unwrap();
    let st = get_gemini_credentials(&store, 1000, s("/g"));
    assert!(st.loaded && st.has_access_token && st.has_refresh_token && st.is_valid);
    assert_eq!(st.expiry_date, Some(2000));
    let st = get_gemini_credentials(&store, 3000, s("/g"));
    assert!(!st.is_valid);
    assert_eq!(st.creds_path, "/g");
}

#[test]
fn default_paths_per_provider() {
    assert_eq!(
        ProviderKind::Kiro.default_creds_path("/home/u"),
        "/home/u/.aws/sso/cache/kiro-auth-token.json"
    );
    assert_eq!(ProviderKind::Gemini.default_creds_path("/home/u"), "/home/u/.gemini/oauth_creds.json");
}
