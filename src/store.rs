//! One provider's credential store: its record, the rules for replacing it
//! on load and refresh, and its validity policy.
use vstd::prelude::*;
use crate::record::{CredError, CredentialRecord, Expiry, RefreshGrant};

verus! {

/// The providers whose credential files are watched.
#[derive(PartialEq, Eq, Structural, Clone, Copy, Debug)]
pub enum ProviderKind {
    /// Writes an opaque expiry text; its tokens are treated as valid once loaded.
    Kiro,
    /// Writes its expiry as milliseconds since the epoch.
    Gemini,
}

impl ProviderKind {
    /// Where the provider keeps its credential file, relative to the home
    /// directory.
    pub open spec fn spec_relative_path(self) -> Seq<char> {
        match self {
            ProviderKind::Kiro => ".aws/sso/cache/kiro-auth-token.json"@,
            ProviderKind::Gemini => ".gemini/oauth_creds.json"@,
        }
    }

    /// The prefix of the provider's exported variable names.
    pub open spec fn spec_env_prefix(self) -> Seq<char> {
        match self {
            ProviderKind::Kiro => "KIRO_"@,
            ProviderKind::Gemini => "GEMINI_"@,
        }
    }

    /// The provider's expiry check. Kiro's expiry text is not interpreted,
    /// so its tokens never count as expired.
    pub open spec fn is_expired(self, record: CredentialRecord, now_ms: i64) -> bool {
        match self {
            ProviderKind::Kiro => false,
            ProviderKind::Gemini => match record.expiry {
                Some(Expiry::At(t)) => t <= now_ms,
                _ => false,
            },
        }
    }

    pub fn relative_path(self) -> (r: &'static str)
        ensures
            r@ == self.spec_relative_path(),
    {
        match self {
            ProviderKind::Kiro => ".aws/sso/cache/kiro-auth-token.json",
            ProviderKind::Gemini => ".gemini/oauth_creds.json",
        }
    }

    pub fn env_prefix(self) -> (r: &'static str)
        ensures
            r@ == self.spec_env_prefix(),
    {
        match self {
            ProviderKind::Kiro => "KIRO_",
            ProviderKind::Gemini => "GEMINI_",
        }
    }

    pub fn expired(self, record: &CredentialRecord, now_ms: i64) -> (r: bool)
        ensures
            r == self.is_expired(*record, now_ms),
    {
        match self {
            ProviderKind::Kiro => false,
            ProviderKind::Gemini => match &record.expiry {
                Some(Expiry::At(t)) => *t <= now_ms,
                _ => false,
            },
        }
    }

    /// The canonical credential file of the provider under a home directory.
    pub open spec fn spec_default_creds_path(self, home: Seq<char>) -> Seq<char> {
        home + seq!['/'] + self.spec_relative_path()
    }

    /// Resolves the credential file's location; touches no file.
    pub fn default_creds_path(self, home: &str) -> (r: String)
        ensures
            r@ == self.spec_default_creds_path(home@),
    {
        let mut r = String::from_str(home);
        let sep = "/";
        proof {
            reveal_strlit("/");
        }
        r.append(sep);
        r.append(self.relative_path());
        assert(r@ =~= self.spec_default_creds_path(home@));
        r
    }
}

/// The credential store of one provider.
pub struct ProviderStore {
    pub kind: ProviderKind,
    pub credentials: CredentialRecord,
}

impl ProviderStore {
    pub open spec fn wf(&self) -> bool {
        self.credentials.wf()
    }

    /// Holds a token that has not expired by the provider's own check.
    pub open spec fn spec_is_valid(&self, now_ms: i64) -> bool {
        self.credentials.is_loaded() && !self.kind.is_expired(self.credentials, now_ms)
    }

    /// The record after a load whose decoding gave `decoded`.
    pub open spec fn after_load(
        self,
        decoded: Result<CredentialRecord, CredError>,
    ) -> CredentialRecord {
        match decoded {
            Ok(rec) => rec.normalized(),
            Err(_) => self.credentials,
        }
    }

    /// The record and the reply after a refresh exchange that gave
    /// `outcome`; no refresh token means no exchange was owed.
    pub open spec fn after_refresh(
        self,
        outcome: Result<RefreshGrant, String>,
    ) -> (CredentialRecord, Result<(), CredError>) {
        if self.credentials.refresh_token.is_none() {
            (self.credentials, Err(CredError::NotLoaded))
        } else {
            match outcome {
                Ok(grant) => (self.credentials.refreshed(grant), Ok(())),
                Err(d) => (self.credentials, Err(CredError::Refresh(d))),
            }
        }
    }

    /// A store with no credentials yet.
    pub fn new(kind: ProviderKind) -> (r: ProviderStore)
        ensures
            r.kind == kind,
            r.credentials == CredentialRecord::spec_empty(),
            r.wf(),
    {
        ProviderStore { kind, credentials: CredentialRecord::empty() }
    }

    pub fn is_loaded(&self) -> (r: bool)
        ensures
            r == self.credentials.is_loaded(),
    {
        self.credentials.loaded()
    }

    /// Whether the store's token can be used at time `now_ms`.
    pub fn is_token_valid(&self, now_ms: i64) -> (r: bool)
        ensures
            r == self.spec_is_valid(now_ms),
    {
        self.credentials.loaded() && !self.kind.expired(&self.credentials, now_ms)
    }

    /// Replaces the record wholesale with a freshly decoded one; a failed
    /// read or decode leaves the record as it was and is returned.
    pub fn load_credentials(&mut self, decoded: Result<CredentialRecord, CredError>) -> (r: Result<
        (),
        CredError,
    >)
        requires
            old(self).wf(),
        ensures
            final(self).wf(),
            final(self).kind == old(self).kind,
            final(self).credentials == old(self).after_load(decoded),
            match decoded {
                Ok(_) => r is Ok,
                Err(e) => r == Err::<(), CredError>(e),
            },
    {
        match decoded {
            Ok(rec) => {
                if rec.loaded() {
                    self.credentials = rec;
                } else {
                    self.credentials = CredentialRecord::empty();
                }
                Ok(())
            },
            Err(e) => Err(e),
        }
    }

    /// The token to hand to the refresh exchange, or `NotLoaded` when the
    /// store has no refresh token.
    pub fn refresh_request(&self) -> (r: Result<String, CredError>)
        ensures
            match self.credentials.refresh_token {
                Some(t) => r == Ok::<String, CredError>(t),
                None => r == Err::<String, CredError>(CredError::NotLoaded),
            },
    {
        match &self.credentials.refresh_token {
            Some(t) => Ok(t.clone()),
            None => Err(CredError::NotLoaded),
        }
    }

    /// Applies the outcome of a refresh exchange. On success the access
    /// token and expiry are replaced, and the refresh token when rotated;
    /// on failure, or with no refresh token, the record is left untouched.
    pub fn complete_refresh(&mut self, outcome: Result<RefreshGrant, String>) -> (r: Result<
        (),
        CredError,
    >)
        requires
            old(self).wf(),
        ensures
            final(self).wf(),
            final(self).kind == old(self).kind,
            (final(self).credentials, r) == old(self).after_refresh(outcome),
    {
        if self.credentials.refresh_token.is_none() {
            return Err(CredError::NotLoaded);
        }
        match outcome {
            Ok(grant) => {
                self.credentials.access_token = Some(grant.access_token);
                self.credentials.expiry = grant.expiry;
                match grant.refresh_token {
                    Some(t) => {
                        self.credentials.refresh_token = Some(t);
                    },
                    None => {},
                }
                Ok(())
            },
            Err(d) => Err(CredError::Refresh(d)),
        }
    }
}

/// No store is valid while it holds no credentials.
pub proof fn lemma_unloaded_is_invalid(store: ProviderStore, now_ms: i64)
    ensures
        !store.credentials.is_loaded() ==> !store.spec_is_valid(now_ms),
{
}

/// A refresh that fails, for want of a refresh token or because the
/// exchange failed, leaves the record exactly as it was.
pub proof fn lemma_failed_refresh_keeps_record(
    store: ProviderStore,
    outcome: Result<RefreshGrant, String>,
)
    ensures
        store.after_refresh(outcome).1 is Err ==> store.after_refresh(outcome).0
            == store.credentials,
        store.credentials.refresh_token.is_none() ==> store.after_refresh(outcome).1 == Err::<
            (),
            CredError,
        >(CredError::NotLoaded),
{
}

/// A load or refresh never leaves a mixture of two records: the record
/// afterwards is the old one whole, or the newly decoded one (normalized),
/// or the old one with the grant applied.
pub proof fn lemma_replacement_is_whole(
    store: ProviderStore,
    decoded: Result<CredentialRecord, CredError>,
    outcome: Result<RefreshGrant, String>,
)
    ensures
        store.after_load(decoded) == store.credentials || (decoded is Ok
            && store.after_load(decoded) == decoded->Ok_0.normalized()),
        store.after_refresh(outcome).0 == store.credentials || (outcome is Ok
            && store.after_refresh(outcome).0 == store.credentials.refreshed(outcome->Ok_0)),
{
}

} // verus!
