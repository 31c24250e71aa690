//! The change-detection protocol: a caller holding the last fingerprint it
//! saw asks whether the credential file changed, and a changed file is
//! reloaded into the store.
use vstd::prelude::*;
use crate::fingerprint::{fingerprint, fingerprint_of};
use crate::record::{CredError, CredentialRecord};
use crate::store::ProviderStore;

verus! {

/// The answer to one poll.
pub struct CheckResult {
    pub changed: bool,
    pub new_hash: String,
    pub reloaded: bool,
}

/// What a poll asks of its caller: report the result as it is, or reload
/// the store and then finish with `finish_reload`.
pub enum PollStep {
    Report(CheckResult),
    Reload(String),
}

/// A poll's step as plain values: `Ok((changed, new_hash))` to report
/// with nothing reloaded, `Err(new_hash)` to reload.
pub type StepView = Result<(bool, Seq<char>), Seq<char>>;

impl PollStep {
    pub open spec fn view_of(self) -> StepView {
        match self {
            PollStep::Report(c) => Ok((c.changed, c.new_hash@)),
            PollStep::Reload(h) => Err(h@),
        }
    }

    /// No report of a step claims a reload.
    pub open spec fn wf(self) -> bool {
        match self {
            PollStep::Report(c) => !c.reloaded,
            PollStep::Reload(_) => true,
        }
    }
}

/// The step owed for a caller's last fingerprint and the file's content
/// (`None` when the file does not exist). An absent file reports an empty
/// fingerprint; a first observation (empty `last_hash`) only sets the
/// baseline; a different fingerprint asks for a reload.
pub open spec fn poll_of(last_hash: Seq<char>, content: Option<Seq<u8>>) -> StepView {
    match content {
        None => Ok((false, Seq::empty())),
        Some(c) => {
            let h = fingerprint_of(c);
            if last_hash.len() > 0 && h != last_hash {
                Err(h)
            } else {
                Ok((false, h))
            }
        },
    }
}

/// The fingerprint that a step hands back to the caller.
pub open spec fn step_hash(s: StepView) -> Seq<char> {
    match s {
        Ok((_, h)) => h,
        Err(h) => h,
    }
}

/// Decides a poll from the caller's last fingerprint and the file's content.
pub fn poll_file(last_hash: &str, content: Option<&Vec<u8>>) -> (r: PollStep)
    ensures
        r.wf(),
        r.view_of() == poll_of(
            last_hash@,
            match content {
                Some(c) => Some(c@),
                None => None,
            },
        ),
{
    match content {
        None => PollStep::Report(CheckResult { changed: false, new_hash: String::new(), reloaded: false }),
        Some(c) => {
            let h = fingerprint(c.as_slice());
            let last = String::from_str(last_hash);
            if last_hash.unicode_len() > 0 && h != last {
                PollStep::Reload(h)
            } else {
                PollStep::Report(CheckResult { changed: false, new_hash: h, reloaded: false })
            }
        },
    }
}

/// Finishes a poll that asked for a reload, with the outcome of reading
/// and decoding the file. The fingerprint is kept even when the reload
/// failed; the record is then left as it was.
pub fn finish_reload(
    store: &mut ProviderStore,
    new_hash: String,
    decoded: Result<CredentialRecord, CredError>,
) -> (r: CheckResult)
    requires
        old(store).wf(),
    ensures
        final(store).wf(),
        final(store).kind == old(store).kind,
        final(store).credentials == old(store).after_load(decoded),
        r.changed,
        r.new_hash == new_hash,
        r.reloaded == decoded is Ok,
{
    let reloaded = store.load_credentials(decoded).is_ok();
    CheckResult { changed: true, new_hash, reloaded }
}

/// Polling again with the fingerprint that the last poll handed back, the
/// file unchanged, reports no change and the same fingerprint.
pub proof fn lemma_poll_idempotent(last_hash: Seq<char>, content: Option<Seq<u8>>)
    ensures
        poll_of(step_hash(poll_of(last_hash, content)), content) == Ok::<
            (bool, Seq<char>),
            Seq<char>,
        >((false, step_hash(poll_of(last_hash, content)))),
{
}

/// A first observation never asks for a reload.
pub proof fn lemma_first_poll_sets_baseline(content: Option<Seq<u8>>)
    ensures
        poll_of(Seq::empty(), content) == Ok::<(bool, Seq<char>), Seq<char>>(
            (false, match content {
                Some(c) => fingerprint_of(c),
                None => Seq::empty(),
            }),
        ),
{
}

} // verus!
