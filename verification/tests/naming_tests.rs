use beaver::naming::NamingSession;
use beaver::Tool;

#[test]
fn candidates_have_the_generated_shape() {
    let s = NamingSession::begin("proj".to_string());
    let c = s.candidate();
    assert!(c.starts_with("proj:beaver_datalake_"));
    assert_eq!(c.len(), "proj:beaver_datalake_".len() + 9);
    let suffix = &c["proj:beaver_datalake_".len()..];
    assert!(suffix
        .chars()
        .all(|ch| ch.is_ascii_lowercase() || ch.is_ascii_digit()));
}

#[test]
fn two_failures_then_success_returns_the_third_candidate() {
    // The remote creation is stubbed: the first two attempts fail, the third
    // succeeds; the resolver must have made exactly three attempts and must
    // return the third candidate.
    let mut s = NamingSession::begin("proj".to_string());
    let outcomes = [false, false, true];
    let mut accepted = None;
    for ok in outcomes {
        if ok {
            let third = s.candidate().clone();
            accepted = Some((s.attempts(), s.succeed()));
            assert_eq!(accepted.as_ref().unwrap().1, third);
            break;
        } else {
            s.retry();
        }
    }
    let (attempts, name) = accepted.expect("the stub succeeds on the third attempt");
    assert_eq!(attempts, 3);
    assert!(name.starts_with("proj:beaver_datalake_"));
}

#[test]
fn attempt_command_tries_the_current_candidate() {
    let s = NamingSession::begin("proj".to_string());
    let cmd = s.command();
    assert_eq!(cmd.tool, Tool::Bq);
    assert_eq!(cmd.args.len(), 3);
    assert_eq!(cmd.args[0], "mk");
    assert_eq!(cmd.args[1], "--dataset");
    assert_eq!(&cmd.args[2], s.candidate());
}

#[test]
fn retry_discards_the_candidate_and_counts_the_attempt() {
    let mut s = NamingSession::begin("proj".to_string());
    assert_eq!(s.attempts(), 1);
    s.retry();
    assert_eq!(s.attempts(), 2);
    assert!(s.candidate().starts_with("proj:beaver_datalake_"));
}
