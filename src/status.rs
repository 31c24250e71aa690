//! Secret-safe views of a provider's credentials for display.
use vstd::prelude::*;
use crate::mask::{mask_of, mask_token};
use crate::record::{clone_text, CredentialRecord, Expiry};
use crate::store::ProviderStore;
use crate::text::{signed_decimal, signed_decimal_of};

verus! {

/// Status of the Kiro credentials.
pub struct KiroCredentialStatus {
    pub loaded: bool,
    pub has_access_token: bool,
    pub has_refresh_token: bool,
    pub region: Option<String>,
    pub auth_method: Option<String>,
    pub expires_at: Option<String>,
    pub creds_path: String,
}

/// Status of the Gemini credentials.
pub struct GeminiCredentialStatus {
    pub loaded: bool,
    pub has_access_token: bool,
    pub has_refresh_token: bool,
    pub expiry_date: Option<i64>,
    pub is_valid: bool,
    pub creds_path: String,
}

/// One exported variable. `value` is empty for a secret, whose `masked`
/// form alone is shown.
pub struct EnvVariable {
    pub key: String,
    pub value: String,
    pub masked: String,
}

/// An exported variable as text: key, value and masked form.
pub type EnvView = (Seq<char>, Seq<char>, Seq<char>);

impl EnvVariable {
    pub open spec fn view_of(self) -> EnvView {
        (self.key@, self.value@, self.masked@)
    }
}

pub open spec fn env_views(v: Seq<EnvVariable>) -> Seq<EnvView> {
    v.map_values(|e: EnvVariable| e.view_of())
}

/// The expiry as text: an opaque expiry as written, a timestamp in decimal.
pub open spec fn expiry_text_of(e: Option<Expiry>) -> Option<Seq<char>> {
    match e {
        Some(Expiry::Opaque(s)) => Some(s@),
        Some(Expiry::At(t)) => Some(signed_decimal_of(t as int)),
        None => None,
    }
}

/// The expiry as a timestamp, when it is one.
pub open spec fn expiry_date_of(e: Option<Expiry>) -> Option<i64> {
    match e {
        Some(Expiry::At(t)) => Some(t),
        _ => None,
    }
}

pub open spec fn text_view(o: Option<String>) -> Option<Seq<char>> {
    match o {
        Some(s) => Some(s@),
        None => None,
    }
}

/// The entry for one optional field: a secret shows only masked, a plain
/// field shows as it is, an absent field gives no entry.
pub open spec fn entry_of(key: Seq<char>, field: Option<Seq<char>>, secret: bool) -> Seq<EnvView> {
    match field {
        Some(v) => if secret {
            seq![(key, Seq::empty(), mask_of(v))]
        } else {
            seq![(key, v, v)]
        },
        None => Seq::empty(),
    }
}

/// The variables a store exports, in order: access token, refresh token,
/// client id and client secret (all secret), then profile ARN, region,
/// auth method and expiry timestamp.
pub open spec fn env_of(store: ProviderStore) -> Seq<EnvView> {
    let p = store.kind.spec_env_prefix();
    let c = store.credentials;
    entry_of(p + "ACCESS_TOKEN"@, text_view(c.access_token), true)
        + entry_of(p + "REFRESH_TOKEN"@, text_view(c.refresh_token), true)
        + entry_of(p + "CLIENT_ID"@, text_view(c.client_id), true)
        + entry_of(p + "CLIENT_SECRET"@, text_view(c.client_secret), true)
        + entry_of(p + "PROFILE_ARN"@, text_view(c.profile_arn), false)
        + entry_of(p + "REGION"@, text_view(c.region), false)
        + entry_of(p + "AUTH_METHOD"@, text_view(c.auth_method), false)
        + entry_of(
        p + "EXPIRY_DATE"@,
        match expiry_date_of(c.expiry) {
            Some(t) => Some(signed_decimal_of(t as int)),
            None => None,
        },
        false,
    )
}

/// An entry shows a value only when it is one of the record's plain
/// fields: profile ARN, region, auth method or expiry timestamp.
pub open spec fn entry_is_safe(e: EnvView, c: CredentialRecord) -> bool {
    e.1.len() == 0 || {
        &&& e.1 == e.2
        &&& {
            ||| Some(e.1) == text_view(c.profile_arn)
            ||| Some(e.1) == text_view(c.region)
            ||| Some(e.1) == text_view(c.auth_method)
            ||| (expiry_date_of(c.expiry) is Some && e.1 == signed_decimal_of(
                expiry_date_of(c.expiry)->Some_0 as int,
            ))
        }
    }
}

pub open spec fn all_safe(v: Seq<EnvView>, c: CredentialRecord) -> bool {
    forall|i: int| 0 <= i < v.len() ==> #[trigger] entry_is_safe(v[i], c)
}

proof fn lemma_all_safe_concat(a: Seq<EnvView>, b: Seq<EnvView>, c: CredentialRecord)
    requires
        all_safe(a, c),
        all_safe(b, c),
    ensures
        all_safe(a + b, c),
{
    assert forall|i: int| 0 <= i < (a + b).len() implies #[trigger] entry_is_safe((a + b)[i], c) by {
        if i < a.len() {
            assert((a + b)[i] == a[i]);
        } else {
            assert((a + b)[i] == b[i - a.len()]);
        }
    }
}

/// No exported variable carries a secret in its value: the access and
/// refresh tokens and the client credentials appear only masked, and every
/// value that is shown is one of the record's plain fields.
pub proof fn lemma_export_hides_secrets(store: ProviderStore)
    ensures
        all_safe(env_of(store), store.credentials),
{
    let p = store.kind.spec_env_prefix();
    let c = store.credentials;
    let e1 = entry_of(p + "ACCESS_TOKEN"@, text_view(c.access_token), true);
    let e2 = entry_of(p + "REFRESH_TOKEN"@, text_view(c.refresh_token), true);
    let e3 = entry_of(p + "CLIENT_ID"@, text_view(c.client_id), true);
    let e4 = entry_of(p + "CLIENT_SECRET"@, text_view(c.client_secret), true);
    let e5 = entry_of(p + "PROFILE_ARN"@, text_view(c.profile_arn), false);
    let e6 = entry_of(p + "REGION"@, text_view(c.region), false);
    let e7 = entry_of(p + "AUTH_METHOD"@, text_view(c.auth_method), false);
    let e8 = entry_of(
        p + "EXPIRY_DATE"@,
        match expiry_date_of(c.expiry) {
            Some(t) => Some(signed_decimal_of(t as int)),
            None => None,
        },
        false,
    );
    assert(all_safe(e1, c));
    assert(all_safe(e2, c));
    assert(all_safe(e3, c));
    assert(all_safe(e4, c));
    assert(all_safe(e5, c));
    assert(all_safe(e6, c));
    assert(all_safe(e7, c));
    assert(all_safe(e8, c));
    lemma_all_safe_concat(e1, e2, c);
    lemma_all_safe_concat(e1 + e2, e3, c);
    lemma_all_safe_concat(e1 + e2 + e3, e4, c);
    lemma_all_safe_concat(e1 + e2 + e3 + e4, e5, c);
    lemma_all_safe_concat(e1 + e2 + e3 + e4 + e5, e6, c);
    lemma_all_safe_concat(e1 + e2 + e3 + e4 + e5 + e6, e7, c);
    lemma_all_safe_concat(e1 + e2 + e3 + e4 + e5 + e6 + e7, e8, c);
}

fn expiry_text(e: &Option<Expiry>) -> (r: Option<String>)
    ensures
        text_view(r) == expiry_text_of(*e),
{
    match e {
        Some(Expiry::Opaque(s)) => Some(s.clone()),
        Some(Expiry::At(t)) => Some(signed_decimal(*t)),
        None => None,
    }
}

fn expiry_date(e: &Option<Expiry>) -> (r: Option<i64>)
    ensures
        r == expiry_date_of(*e),
{
    match e {
        Some(Expiry::At(t)) => Some(*t),
        _ => None,
    }
}

/// Appends the entry for one optional field.
fn push_entry(
    vars: &mut Vec<EnvVariable>,
    prefix: &str,
    name: &str,
    field: Option<&String>,
    secret: bool,
)
    ensures
        env_views(final(vars)@) == env_views(old(vars)@) + entry_of(
            prefix@ + name@,
            match field {
                Some(s) => Some(s@),
                None => None,
            },
            secret,
        ),
{
    let ghost before = vars@;
    match field {
        Some(v) => {
            let key = String::from_str(prefix).concat(name);
            if secret {
                vars.push(EnvVariable { key, value: String::new(), masked: mask_token(v.as_str()) });
            } else {
                vars.push(EnvVariable { key, value: v.clone(), masked: v.clone() });
            }
            assert(env_views(vars@) =~= env_views(before) + entry_of(
                prefix@ + name@,
                Some(v@),
                secret,
            ));
        },
        None => {
            assert(env_views(vars@) =~= env_views(before) + Seq::<EnvView>::empty());
        },
    }
}

/// The variables a store exports; secrets appear only masked.
pub fn get_env_variables(store: &ProviderStore) -> (r: Vec<EnvVariable>)
    ensures
        env_views(r@) == env_of(*store),
{
    let p = store.kind.env_prefix();
    let c = &store.credentials;
    let mut vars: Vec<EnvVariable> = Vec::new();
    assert(env_views(vars@) =~= Seq::<EnvView>::empty());
    push_entry(&mut vars, p, "ACCESS_TOKEN", c.access_token.as_ref(), true);
    push_entry(&mut vars, p, "REFRESH_TOKEN", c.refresh_token.as_ref(), true);
    push_entry(&mut vars, p, "CLIENT_ID", c.client_id.as_ref(), true);
    push_entry(&mut vars, p, "CLIENT_SECRET", c.client_secret.as_ref(), true);
    push_entry(&mut vars, p, "PROFILE_ARN", c.profile_arn.as_ref(), false);
    push_entry(&mut vars, p, "REGION", c.region.as_ref(), false);
    push_entry(&mut vars, p, "AUTH_METHOD", c.auth_method.as_ref(), false);
    let expiry = match expiry_date(&c.expiry) {
        Some(t) => Some(signed_decimal(t)),
        None => None,
    };
    push_entry(&mut vars, p, "EXPIRY_DATE", expiry.as_ref(), false);
    assert(env_views(vars@) =~= env_of(*store));
    vars
}

/// The Kiro status of a store whose file lives at `creds_path`.
pub fn get_kiro_credentials(store: &ProviderStore, creds_path: String) -> (r: KiroCredentialStatus)
    ensures
        r.loaded == store.credentials.is_loaded(),
        r.has_access_token == store.credentials.access_token.is_some(),
        r.has_refresh_token == store.credentials.refresh_token.is_some(),
        r.region == store.credentials.region,
        r.auth_method == store.credentials.auth_method,
        text_view(r.expires_at) == expiry_text_of(store.credentials.expiry),
        r.creds_path == creds_path,
{
    let c = &store.credentials;
    KiroCredentialStatus {
        loaded: c.loaded(),
        has_access_token: c.access_token.is_some(),
        has_refresh_token: c.refresh_token.is_some(),
        region: clone_text(&c.region),
        auth_method: clone_text(&c.auth_method),
        expires_at: expiry_text(&c.expiry),
        creds_path,
    }
}

/// The Gemini status of a store at time `now_ms`, whose file lives at
/// `creds_path`.
pub fn get_gemini_credentials(store: &ProviderStore, now_ms: i64, creds_path: String) -> (r:
    GeminiCredentialStatus)
    ensures
        r.loaded == store.credentials.is_loaded(),
        r.has_access_token == store.credentials.access_token.is_some(),
        r.has_refresh_token == store.credentials.refresh_token.is_some(),
        r.expiry_date == expiry_date_of(store.credentials.expiry),
        r.is_valid == store.spec_is_valid(now_ms),
        r.creds_path == creds_path,
{
    let c = &store.credentials;
    GeminiCredentialStatus {
        loaded: c.loaded(),
        has_access_token: c.access_token.is_some(),
        has_refresh_token: c.refresh_token.is_some(),
        expiry_date: expiry_date(&c.expiry),
        is_valid: store.is_token_valid(now_ms),
        creds_path,
    }
}

} // verus!
