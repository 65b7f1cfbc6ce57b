use gmutils::certificate_log::{write_after_commit, LogStep, WriteCertificateLogError};
use gmutils::target::IdentityName;

fn run(failing: Option<LogStep>) -> Result<Vec<LogStep>, WriteCertificateLogError> {
    let name = IdentityName::parse("fixture.example").unwrap();
    let mut visited = Vec::new();
    let mut step = LogStep::LoadIdentity;
    while step != LogStep::Written {
        visited.push(step);
        step = write_after_commit(
            step,
            failing != Some(step),
            &name,
            &"/home/logs".to_owned(),
            &"/home/logs/cert.log".to_owned(),
        )?;
    }
    Ok(visited)
}

#[test]
fn committed_identity_appends_one_complete_record() {
    let visited = run(None).unwrap();
    assert_eq!(visited.iter().filter(|step| **step == LogStep::Append).count(), 1);
    assert_eq!(visited.last(), Some(&LogStep::Append));
    assert_eq!(visited.len(), 8);
}

#[test]
fn logging_failure_does_not_remove_committed_material() {
    let error = run(Some(LogStep::Open)).unwrap_err();
    assert_eq!(error, WriteCertificateLogError::Open { path: "/home/logs/cert.log".to_owned() });
    assert!(error.to_text().contains("/home/logs/cert.log"), "{}", error.to_text());
}

#[test]
fn every_step_has_its_own_failure() {
    let steps = run(None).unwrap();
    let mut texts: Vec<String> =
        steps.iter().map(|step| run(Some(*step)).unwrap_err().to_text()).collect();
    assert_eq!(texts.len(), 8);
    texts.sort();
    texts.dedup();
    assert_eq!(texts.len(), 8, "{texts:?}");
}
