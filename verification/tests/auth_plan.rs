use gmutils::auth_plan::{
    candidate_specs, load_exact, AuthCandidateRunner, AuthCandidateSpec, CandidateEvent,
    CandidateStep, ExactLoad,
};
use gmutils::local::{IdentityUsage, LocalIdentityStatus, LocalIdentitySummary};
use gmutils::target::{IdentityName, IdentityTarget, RemoteTargetState};

fn identity(name: &str) -> AuthCandidateSpec {
    AuthCandidateSpec::Identity(IdentityName::parse(name).unwrap())
}

fn email() -> AuthCandidateSpec {
    AuthCandidateSpec::Email
}

#[test]
fn candidate_orders_cover_existing_and_missing_root_and_child() {
    let root = IdentityTarget::parse("alice.smith").unwrap();
    let child = IdentityTarget::parse("phone.alice.smith").unwrap();
    assert_eq!(
        candidate_specs(&root, RemoteTargetState::Exists),
        vec![identity("alice.smith"), email()]
    );
    assert_eq!(
        candidate_specs(&child, RemoteTargetState::Exists),
        vec![identity("phone.alice.smith"), identity("alice.smith"), email()]
    );
    assert_eq!(candidate_specs(&root, RemoteTargetState::Missing), vec![email()]);
    assert_eq!(
        candidate_specs(&child, RemoteTargetState::Missing),
        vec![identity("alice.smith"), email()]
    );
}

fn summary(name: &str, status: LocalIdentityStatus) -> LocalIdentitySummary {
    LocalIdentitySummary {
        target: IdentityTarget::parse(name).unwrap(),
        certificate_chain: Some("primary:0".to_owned()),
        usage: Some(IdentityUsage::BothClientAndServer),
        sequence: Some(0),
        valid_from: Some(1_600_000_000),
        expires_at: Some(1_900_000_000),
        issuer: None,
        status,
        dir: format!("/tmp/{name}"),
        is_default: false,
    }
}

/// Runs to the next event, loading from the given summaries.
fn run(
    runner: &mut AuthCandidateRunner,
    summaries: &[LocalIdentitySummary],
    requested: &mut Vec<String>,
) -> CandidateEvent {
    let mut step = runner.next();
    loop {
        match step {
            CandidateStep::Event(event) => return event,
            CandidateStep::Load(name) => {
                requested.push(name.as_partial().to_owned());
                let found = summaries
                    .iter()
                    .find(|summary| summary.target.short_name() == name.as_partial())
                    .map(LocalIdentitySummary::copy);
                step = runner.resolve(found);
            }
        }
    }
}

#[test]
fn successful_current_identity_never_loads_parent_or_email() {
    let ready = |name| summary(name, LocalIdentityStatus::Ready { expires_at: 1_900_000_000 });
    let target = IdentityTarget::parse("phone.alice.smith").unwrap();
    let summaries = [ready("phone.alice.smith"), ready("alice.smith")];
    let mut requested = Vec::new();
    let mut runner = AuthCandidateRunner::new(candidate_specs(&target, RemoteTargetState::Exists));

    assert!(matches!(
        run(&mut runner, &summaries, &mut requested),
        CandidateEvent::Identity { short_name, .. } if short_name == "phone.alice.smith"
    ));
    assert_eq!(requested, ["phone.alice.smith"]);
}

#[test]
fn abnormal_candidates_warn_only_when_visited() {
    let target = IdentityTarget::parse("phone.alice.smith").unwrap();
    let summaries = [
        summary("phone.alice.smith", LocalIdentityStatus::Expired { expired_at: 1_700_000_000 }),
        summary(
            "alice.smith",
            LocalIdentityStatus::Incomplete { detail: "private key is missing".to_string() },
        ),
    ];
    let mut requested = Vec::new();
    let mut runner = AuthCandidateRunner::new(candidate_specs(&target, RemoteTargetState::Exists));

    assert_eq!(
        run(&mut runner, &summaries, &mut requested),
        CandidateEvent::Warning(
            "WARN: Cannot authenticate with phone.alice.smith because its local certificate has expired; trying alice.smith".to_string()
        )
    );
    assert_eq!(requested, ["phone.alice.smith"]);
    assert_eq!(
        run(&mut runner, &summaries, &mut requested),
        CandidateEvent::Warning(
            "WARN: Cannot authenticate with alice.smith because its local identity is incomplete; falling back to email verification".to_string()
        )
    );
    assert_eq!(requested, ["phone.alice.smith", "alice.smith"]);
    assert_eq!(run(&mut runner, &summaries, &mut requested), CandidateEvent::Email);
    assert_eq!(run(&mut runner, &summaries, &mut requested), CandidateEvent::Exhausted);
}

#[test]
fn missing_candidates_advance_silently() {
    let target = IdentityTarget::parse("phone.alice.smith").unwrap();
    let mut requested = Vec::new();
    let mut runner = AuthCandidateRunner::new(candidate_specs(&target, RemoteTargetState::Exists));

    assert_eq!(run(&mut runner, &[], &mut requested), CandidateEvent::Email);
    assert_eq!(requested, ["phone.alice.smith", "alice.smith"]);
}

#[test]
fn only_a_loaded_profile_is_a_candidate() {
    let ready = summary("alice.smith", LocalIdentityStatus::Ready { expires_at: 1_900_000_000 });
    assert!(load_exact(None, ExactLoad::NotFound).is_none());
    assert_eq!(load_exact(Some(ready.copy()), ExactLoad::Loaded), Some(ready));
}
