//! The decoded credential bundle of one provider, and its errors.
use vstd::prelude::*;

verus! {

/// When the access token stops being usable, in the form the provider
/// writes it.
pub enum Expiry {
    /// Milliseconds since the Unix epoch.
    At(i64),
    /// A timestamp text that is carried through but not interpreted.
    Opaque(String),
}

/// The decoded token bundle of one provider.
pub struct CredentialRecord {
    pub access_token: Option<String>,
    pub refresh_token: Option<String>,
    pub client_id: Option<String>,
    pub client_secret: Option<String>,
    pub expiry: Option<Expiry>,
    pub region: Option<String>,
    pub auth_method: Option<String>,
    pub profile_arn: Option<String>,
}

/// Why an operation on a provider's credentials failed.
#[derive(Debug, PartialEq, Eq)]
pub enum CredError {
    /// The credential file is missing or could not be read.
    Io(String),
    /// The credential file's content is malformed.
    Decode(String),
    /// The operation needs a token that is absent.
    NotLoaded,
    /// The refresh exchange was rejected or failed; carries its diagnostic.
    Refresh(String),
}

/// What a successful refresh exchange hands back.
pub struct RefreshGrant {
    pub access_token: String,
    pub expiry: Option<Expiry>,
    /// Present when the provider rotated the refresh token.
    pub refresh_token: Option<String>,
}

pub fn clone_text(o: &Option<String>) -> (r: Option<String>)
    ensures
        r == *o,
{
    match o {
        Some(s) => Some(s.clone()),
        None => None,
    }
}

impl CredentialRecord {
    /// A record holds credentials when either token is present.
    pub open spec fn is_loaded(&self) -> bool {
        self.access_token.is_some() || self.refresh_token.is_some()
    }

    /// An unloaded record has every field absent.
    pub open spec fn wf(&self) -> bool {
        !self.is_loaded() ==> {
            &&& self.client_id.is_none()
            &&& self.client_secret.is_none()
            &&& self.expiry.is_none()
            &&& self.region.is_none()
            &&& self.auth_method.is_none()
            &&& self.profile_arn.is_none()
        }
    }

    pub open spec fn spec_empty() -> CredentialRecord {
        CredentialRecord {
            access_token: None,
            refresh_token: None,
            client_id: None,
            client_secret: None,
            expiry: None,
            region: None,
            auth_method: None,
            profile_arn: None,
        }
    }

    /// The record as a store keeps it: itself when it holds a token, else
    /// the empty record.
    pub open spec fn normalized(self) -> CredentialRecord {
        if self.is_loaded() {
            self
        } else {
            CredentialRecord::spec_empty()
        }
    }

    /// The record after a successful refresh: new access token and expiry,
    /// the refresh token replaced only when the provider rotated it.
    pub open spec fn refreshed(self, grant: RefreshGrant) -> CredentialRecord {
        CredentialRecord {
            access_token: Some(grant.access_token),
            refresh_token: match grant.refresh_token {
                Some(t) => Some(t),
                None => self.refresh_token,
            },
            expiry: grant.expiry,
            ..self
        }
    }

    /// The record that a process starts with.
    pub fn empty() -> (r: CredentialRecord)
        ensures
            r == CredentialRecord::spec_empty(),
            r.wf(),
    {
        CredentialRecord {
            access_token: None,
            refresh_token: None,
            client_id: None,
            client_secret: None,
            expiry: None,
            region: None,
            auth_method: None,
            profile_arn: None,
        }
    }

    pub fn loaded(&self) -> (r: bool)
        ensures
            r == self.is_loaded(),
    {
        self.access_token.is_some() || self.refresh_token.is_some()
    }
}

impl CredError {
    /// The text shown to a caller for this error.
    pub open spec fn spec_message(&self) -> Seq<char> {
        match self {
            CredError::Io(m) => m@,
            CredError::Decode(m) => m@,
            CredError::NotLoaded => "no refresh token is available"@,
            CredError::Refresh(m) => m@,
        }
    }

    pub fn message(&self) -> (r: String)
        ensures
            r@ == self.spec_message(),
    {
        match self {
            CredError::Io(m) => m.clone(),
            CredError::Decode(m) => m.clone(),
            CredError::NotLoaded => String::from_str("no refresh token is available"),
            CredError::Refresh(m) => m.clone(),
        }
    }
}

} // verus!
