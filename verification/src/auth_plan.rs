//! Which proofs of identity are tried, and in what order.
use vstd::prelude::*;

use crate::local::{LocalIdentityStatus, LocalIdentitySummary};
use crate::target::{wf_name_len, IdentityLevel, IdentityName, IdentityTarget, RemoteTargetState};

verus! {

/// A proof that may be tried: an identity saved here, or an email address.
#[derive(Debug, PartialEq, Eq)]
pub enum AuthCandidateSpec {
    Identity(IdentityName),
    Email,
}

/// What the next proof comes to.
#[derive(Debug, PartialEq, Eq)]
pub enum CandidateEvent {
    Identity { short_name: String, full_name: String },
    Warning(String),
    Email,
    Exhausted,
}

/// The proofs for a target, in order: the target's own identity where the target exists, then
/// its parent where it has one, then email.
pub open spec fn candidates_for(target: IdentityTarget, remote: RemoteTargetState) -> Seq<
    AuthCandidateSpec,
> {
    let own = if remote == RemoteTargetState::Missing {
        Seq::<AuthCandidateSpec>::empty()
    } else {
        seq![AuthCandidateSpec::Identity(target.name)]
    };
    let parent = match (target.level, target.parent) {
        (IdentityLevel::SubIdentity, Some(parent)) => seq![AuthCandidateSpec::Identity(parent)],
        _ => Seq::<AuthCandidateSpec>::empty(),
    };
    (own + parent).push(AuthCandidateSpec::Email)
}

/// The proofs for a target, in order.
pub fn candidate_specs(target: &IdentityTarget, remote: RemoteTargetState) -> (r: Vec<
    AuthCandidateSpec,
>)
    ensures
        r@ == candidates_for(*target, remote),
{
    let mut candidates: Vec<AuthCandidateSpec> = Vec::new();
    if remote != RemoteTargetState::Missing {
        candidates.push(AuthCandidateSpec::Identity(target.name.copy()));
    }
    if target.level == IdentityLevel::SubIdentity {
        if let Some(parent) = &target.parent {
            candidates.push(AuthCandidateSpec::Identity(parent.copy()));
        }
    }
    candidates.push(AuthCandidateSpec::Email);
    candidates
}

/// Email is the last resort: it is tried once, after every identity.
pub proof fn email_is_tried_last(target: IdentityTarget, remote: RemoteTargetState, i: int)
    requires
        0 <= i < candidates_for(target, remote).len(),
    ensures
        candidates_for(target, remote)[i] == AuthCandidateSpec::Email <==> i == candidates_for(
            target,
            remote,
        ).len() - 1,
{
}

/// What was found in the profile of an identity that looked ready: the profile is gone, its
/// identity was loaded, or it could not be loaded.
#[derive(Debug)]
pub enum ExactLoad {
    NotFound,
    Loaded,
    Failed(String),
}

/// What is known about an identity after its profile was loaded. An identity that looked ready
/// but could not be loaded is invalid.
pub fn load_exact(summary: Option<LocalIdentitySummary>, outcome: ExactLoad) -> (r: Option<
    LocalIdentitySummary,
>)
    ensures
        match (summary, outcome) {
            (None, _) => r is None,
            (Some(summary), outcome) => if summary.status !is Ready {
                r == Some(summary)
            } else {
                match outcome {
                    ExactLoad::NotFound => r is None,
                    ExactLoad::Loaded => r == Some(summary),
                    ExactLoad::Failed(error) => r matches Some(changed) && changed
                        == (LocalIdentitySummary { status: changed.status, ..summary }) && (
                    changed.status matches LocalIdentityStatus::Invalid { detail } && detail@
                        == "local credentials could not be loaded: "@ + error@),
                }
            },
        },
{
    match summary {
        None => None,
        Some(mut summary) => {
            if !summary.status.is_ready() {
                return Some(summary);
            }
            match outcome {
                ExactLoad::NotFound => None,
                ExactLoad::Loaded => Some(summary),
                ExactLoad::Failed(error) => {
                    let mut detail = "local credentials could not be loaded: ".to_owned();
                    detail.append(&error);
                    summary.status = LocalIdentityStatus::Invalid { detail };
                    Some(summary)
                },
            }
        },
    }
}

/// What the walk through the proofs needs next: an identity to be loaded, or nothing, because
/// it has come to an event.
#[derive(Debug, PartialEq, Eq)]
pub enum CandidateStep {
    Load(IdentityName),
    Event(CandidateEvent),
}

/// The proofs that have not been tried.
#[derive(Debug)]
pub struct AuthCandidateRunner {
    pub pending: Vec<AuthCandidateSpec>,
}

/// Why a saved identity is no proof.
pub open spec fn unusable_reason(status: LocalIdentityStatus) -> Seq<char> {
    match status {
        LocalIdentityStatus::Expired { .. } => "its local certificate has expired"@,
        LocalIdentityStatus::Incomplete { .. } => "its local identity is incomplete"@,
        _ => "its local identity is invalid"@,
    }
}

/// What is tried after an identity that is no proof.
pub open spec fn continuation(pending: Seq<AuthCandidateSpec>) -> Seq<char> {
    if pending.len() == 0 {
        "falling back to email verification"@
    } else {
        match pending[0] {
            AuthCandidateSpec::Identity(name) => "trying "@ + name.partial(),
            AuthCandidateSpec::Email => "falling back to email verification"@,
        }
    }
}

/// The warning about a saved identity that is no proof.
pub open spec fn unusable_warning(
    summary: LocalIdentitySummary,
    pending: Seq<AuthCandidateSpec>,
) -> Seq<char> {
    "WARN: Cannot authenticate with "@ + summary.target.short() + " because "@ + unusable_reason(
        summary.status,
    ) + "; "@ + continuation(pending)
}

impl AuthCandidateRunner {
    /// All names are complete.
    pub open spec fn wf(self) -> bool {
        forall|i: int|
            0 <= i < self.pending@.len() ==> (#[trigger] self.pending@[i] matches AuthCandidateSpec::Identity(
                name,
            ) ==> name.wf())
    }

    pub fn new(candidates: Vec<AuthCandidateSpec>) -> (r: Self)
        ensures
            r.pending == candidates,
    {
        AuthCandidateRunner { pending: candidates }
    }

    /// Takes the next proof.
    pub fn next(&mut self) -> (r: CandidateStep)
        requires
            old(self).wf(),
        ensures
            final(self).wf(),
            old(self).pending@.len() == 0 ==> r == CandidateStep::Event(CandidateEvent::Exhausted)
                && final(self).pending@ == old(self).pending@,
            old(self).pending@.len() > 0 ==> final(self).pending@ == old(self).pending@.skip(1)
                && r == (match old(self).pending@[0] {
                AuthCandidateSpec::Identity(name) => CandidateStep::Load(name),
                AuthCandidateSpec::Email => CandidateStep::Event(CandidateEvent::Email),
            }),
    {
        if self.pending.len() == 0 {
            return CandidateStep::Event(CandidateEvent::Exhausted);
        }
        let ghost before = self.pending@;
        let candidate = self.pending.remove(0);
        assert(self.pending@ == before.skip(1));
        assert(forall|i: int| 0 <= i < self.pending@.len() ==> self.pending@[i] == before[i + 1]);
        match candidate {
            AuthCandidateSpec::Identity(name) => CandidateStep::Load(name),
            AuthCandidateSpec::Email => CandidateStep::Event(CandidateEvent::Email),
        }
    }

    /// Goes on after an identity was loaded: one that is not saved here is passed over, one
    /// that is ready is a proof, and of any other the user is warned.
    pub fn resolve(&mut self, loaded: Option<LocalIdentitySummary>) -> (r: CandidateStep)
        requires
            old(self).wf(),
            loaded matches Some(summary) ==> summary.target.name.wf(),
        ensures
            final(self).wf(),
            match loaded {
                None => {
                    &&& old(self).pending@.len() == 0 ==> r == CandidateStep::Event(
                        CandidateEvent::Exhausted,
                    ) && final(self).pending@ == old(self).pending@
                    &&& old(self).pending@.len() > 0 ==> final(self).pending@ == old(
                        self,
                    ).pending@.skip(1) && r == (match old(self).pending@[0] {
                        AuthCandidateSpec::Identity(name) => CandidateStep::Load(name),
                        AuthCandidateSpec::Email => CandidateStep::Event(CandidateEvent::Email),
                    })
                },
                Some(summary) => {
                    &&& *final(self) == *old(self)
                    &&& if summary.status is Ready {
                        r matches CandidateStep::Event(
                            CandidateEvent::Identity { short_name, full_name },
                        ) && short_name@ == summary.target.short() && full_name@
                            == summary.target.name.full@
                    } else {
                        r matches CandidateStep::Event(CandidateEvent::Warning(warning))
                            && warning@ == unusable_warning(summary, old(self).pending@)
                    }
                },
            },
    {
        match loaded {
            None => self.next(),
            Some(summary) => {
                proof {
                    wf_name_len(summary.target.name);
                }
                if summary.status.is_ready() {
                    CandidateStep::Event(
                        CandidateEvent::Identity {
                            short_name: summary.target.short_name().to_owned(),
                            full_name: summary.target.full_name().to_owned(),
                        },
                    )
                } else {
                    CandidateStep::Event(CandidateEvent::Warning(self.warning_for(&summary)))
                }
            },
        }
    }

    /// The warning about a saved identity that is no proof.
    pub fn warning_for(&self, summary: &LocalIdentitySummary) -> (r: String)
        requires
            self.wf(),
            summary.target.name.wf(),
            summary.status !is Ready,
        ensures
            r@ == unusable_warning(*summary, self.pending@),
    {
        proof {
            wf_name_len(summary.target.name);
        }
        let reason = match &summary.status {
            LocalIdentityStatus::Expired { .. } => "its local certificate has expired",
            LocalIdentityStatus::Incomplete { .. } => "its local identity is incomplete",
            _ => "its local identity is invalid",
        };
        let mut then_text = "falling back to email verification".to_owned();
        if self.pending.len() > 0 {
            match &self.pending[0] {
                AuthCandidateSpec::Identity(name) => {
                    proof {
                        wf_name_len(*name);
                    }
                    then_text = "trying ".to_owned();
                    then_text.append(name.as_partial());
                },
                AuthCandidateSpec::Email => {},
            }
        }
        let mut r = "WARN: Cannot authenticate with ".to_owned();
        r.append(summary.target.short_name());
        r.append(" because ");
        r.append(reason);
        r.append("; ");
        r.append(&then_text);
        r
    }
}

/// The walk through the proofs of a well formed target starts well formed.
pub proof fn candidates_are_well_formed(runner: AuthCandidateRunner, target: IdentityTarget, remote: RemoteTargetState)
    requires
        target.wf(),
        runner.pending@ == candidates_for(target, remote),
    ensures
        runner.wf(),
{
}

/// The proofs are the identity itself, unless the server does not know it, then the parent of a
/// sub-identity, then email; there is no other.
pub proof fn own_identity_comes_before_the_parent(target: IdentityTarget, remote: RemoteTargetState)
    requires
        target.wf(),
    ensures
        ({
            let proofs = candidates_for(target, remote);
            let own = remote != RemoteTargetState::Missing;
            let sub = target.level == IdentityLevel::SubIdentity;
            &&& (own && sub ==> proofs == seq![
                AuthCandidateSpec::Identity(target.name),
                AuthCandidateSpec::Identity(target.parent->0),
                AuthCandidateSpec::Email,
            ])
            &&& (own && !sub ==> proofs == seq![
                AuthCandidateSpec::Identity(target.name),
                AuthCandidateSpec::Email,
            ])
            &&& (!own && sub ==> proofs == seq![
                AuthCandidateSpec::Identity(target.parent->0),
                AuthCandidateSpec::Email,
            ])
            &&& (!own && !sub ==> proofs == seq![AuthCandidateSpec::Email])
        }),
{
    let proofs = candidates_for(target, remote);
    if target.level == IdentityLevel::SubIdentity {
        if remote != RemoteTargetState::Missing {
            assert(proofs =~= seq![
                AuthCandidateSpec::Identity(target.name),
                AuthCandidateSpec::Identity(target.parent->0),
                AuthCandidateSpec::Email,
            ]);
        } else {
            assert(proofs =~= seq![
                AuthCandidateSpec::Identity(target.parent->0),
                AuthCandidateSpec::Email,
            ]);
        }
    } else {
        if remote != RemoteTargetState::Missing {
            assert(proofs =~= seq![
                AuthCandidateSpec::Identity(target.name),
                AuthCandidateSpec::Email,
            ]);
        } else {
            assert(proofs =~= seq![AuthCandidateSpec::Email]);
        }
    }
}

/// The warning about an identity names it, and what is tried next.
pub proof fn warnings_tell_what_is_tried_next(
    summary: LocalIdentitySummary,
    name: IdentityName,
    rest: Seq<AuthCandidateSpec>,
)
    ensures
        continuation(seq![AuthCandidateSpec::Identity(name)] + rest) == "trying "@ + name.partial(),
        continuation(seq![AuthCandidateSpec::Email] + rest) == "falling back to email verification"@,
        crate::text::ends_with(
            unusable_warning(summary, seq![AuthCandidateSpec::Identity(name)] + rest),
            name.partial(),
        ),
        crate::text::starts_with(
            unusable_warning(summary, rest),
            "WARN: Cannot authenticate with "@ + summary.target.short(),
        ),
        summary.status is Expired ==> unusable_reason(summary.status)
            == "its local certificate has expired"@,
        summary.status is Incomplete ==> unusable_reason(summary.status)
            == "its local identity is incomplete"@,
        summary.status is Invalid ==> unusable_reason(summary.status)
            == "its local identity is invalid"@,
{
    let pending = seq![AuthCandidateSpec::Identity(name)] + rest;
    let text = unusable_warning(summary, pending);
    assert(text.skip(text.len() - name.partial().len()) =~= name.partial());
    let front = "WARN: Cannot authenticate with "@ + summary.target.short();
    let other = unusable_warning(summary, rest);
    assert(other.take(front.len() as int) =~= front);
}

} // verus!
