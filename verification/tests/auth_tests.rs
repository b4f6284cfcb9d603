use scp_transfer::auth::{
    auth_action, auth_step, candidate_key_path, initial_auth_state, key_suffix, AuthAction,
    AuthEvent, AuthState,
};

#[test]
fn key_suffixes_in_priority_order() {
    assert_eq!(key_suffix(0), "/.ssh/id_rsa");
    assert_eq!(key_suffix(1), "/.ssh/id_ed25519");
    assert_eq!(key_suffix(2), "/.ssh/id_ecdsa");
}

#[test]
fn candidate_key_paths_under_home() {
    assert_eq!(candidate_key_path("/home/alice", 0), "/home/alice/.ssh/id_rsa");
    assert_eq!(
        candidate_key_path("/home/alice", 1),
        "/home/alice/.ssh/id_ed25519"
    );
    assert_eq!(
        candidate_key_path("/home/alice", 2),
        "/home/alice/.ssh/id_ecdsa"
    );
}

#[test]
fn no_home_skips_key_attempts() {
    let s = initial_auth_state(false);
    assert_eq!(s, AuthState::AwaitingPassword);
    assert_eq!(auth_action(&s), AuthAction::PromptPassword);
}

#[test]
fn no_keys_goes_straight_to_password_prompt() {
    let mut s = initial_auth_state(true);
    assert_eq!(s, AuthState::CheckingKey { idx: 0 });
    let mut passphrase_prompts = 0;
    let mut attempts = 0;
    for _ in 0..3 {
        match auth_action(&s) {
            AuthAction::CheckKeyExists { .. } => {}
            AuthAction::PromptPassphrase { .. } => passphrase_prompts += 1,
            AuthAction::TryKeyNoPassphrase { .. }
            | AuthAction::TryKeyWithPassphrase { .. }
            | AuthAction::TryPassword => attempts += 1,
            _ => {}
        }
        s = auth_step(s, AuthEvent::Exists { found: false });
    }
    assert_eq!(s, AuthState::AwaitingPassword);
    assert_eq!(auth_action(&s), AuthAction::PromptPassword);
    assert_eq!(passphrase_prompts, 0);
    assert_eq!(attempts, 0);
}

#[test]
fn failed_no_passphrase_attempt_prompts_exactly_once() {
    // Key 0 exists; both attempts with it fail; the machine asks for the
    // passphrase exactly once before moving to the next candidate.
    let mut s = initial_auth_state(true);
    s = auth_step(s, AuthEvent::Exists { found: true });
    assert_eq!(s, AuthState::TryingKeyNoPass { idx: 0 });
    s = auth_step(s, AuthEvent::Attempt { accepted: false });
    assert_eq!(auth_action(&s), AuthAction::PromptPassphrase { idx: 0 });
    s = auth_step(s, AuthEvent::PromptDone);
    assert_eq!(s, AuthState::TryingKeyWithPass { idx: 0 });
    s = auth_step(s, AuthEvent::Attempt { accepted: false });
    assert_eq!(s, AuthState::CheckingKey { idx: 1 });
    assert!(!matches!(auth_action(&s), AuthAction::PromptPassphrase { .. }));
}

#[test]
fn last_candidate_rejection_falls_back_to_password() {
    let mut s = AuthState::TryingKeyWithPass { idx: 2 };
    s = auth_step(s, AuthEvent::Attempt { accepted: false });
    assert_eq!(s, AuthState::AwaitingPassword);
}

#[test]
fn first_key_success_ends_negotiation() {
    let mut s = initial_auth_state(true);
    s = auth_step(s, AuthEvent::Exists { found: true });
    s = auth_step(s, AuthEvent::Attempt { accepted: true });
    assert_eq!(s, AuthState::Succeeded);
    assert!(s.is_terminal());
    assert_eq!(auth_action(&s), AuthAction::ReportSuccess);
    // Terminal states absorb any further report: nothing else is tried.
    let after = auth_step(s, AuthEvent::Attempt { accepted: false });
    assert_eq!(after, AuthState::Succeeded);
}

#[test]
fn first_key_success_with_passphrase_ends_negotiation() {
    let mut s = AuthState::TryingKeyNoPass { idx: 0 };
    s = auth_step(s, AuthEvent::Attempt { accepted: false });
    s = auth_step(s, AuthEvent::PromptDone);
    s = auth_step(s, AuthEvent::Attempt { accepted: true });
    assert_eq!(s, AuthState::Succeeded);
}

#[test]
fn password_success_authenticates() {
    let mut s = initial_auth_state(false);
    s = auth_step(s, AuthEvent::PromptDone);
    assert_eq!(s, AuthState::TryingPassword);
    assert_eq!(auth_action(&s), AuthAction::TryPassword);
    s = auth_step(s, AuthEvent::Attempt { accepted: true });
    assert_eq!(s, AuthState::Succeeded);
}

#[test]
fn password_failure_is_final() {
    let mut s = initial_auth_state(false);
    s = auth_step(s, AuthEvent::PromptDone);
    s = auth_step(s, AuthEvent::Attempt { accepted: false });
    assert_eq!(s, AuthState::Failed);
    assert!(s.is_terminal());
    assert_eq!(auth_action(&s), AuthAction::ReportFailure);
    // No retry: further reports leave the failure in place.
    let after = auth_step(s, AuthEvent::Attempt { accepted: true });
    assert_eq!(after, AuthState::Failed);
}

#[test]
fn full_negotiation_all_methods_rejected() {
    // Every key exists, every attempt is rejected, then the password is
    // rejected too: one passphrase prompt per key, then failure.
    let mut s = initial_auth_state(true);
    let mut passphrase_prompts = 0;
    let mut password_prompts = 0;
    for _ in 0..64 {
        if s.is_terminal() {
            break;
        }
        let e = match auth_action(&s) {
            AuthAction::CheckKeyExists { .. } => AuthEvent::Exists { found: true },
            AuthAction::TryKeyNoPassphrase { .. }
            | AuthAction::TryKeyWithPassphrase { .. }
            | AuthAction::TryPassword => AuthEvent::Attempt { accepted: false },
            AuthAction::PromptPassphrase { .. } => {
                passphrase_prompts += 1;
                AuthEvent::PromptDone
            }
            AuthAction::PromptPassword => {
                password_prompts += 1;
                AuthEvent::PromptDone
            }
            AuthAction::ReportSuccess | AuthAction::ReportFailure => unreachable!(),
        };
        s = auth_step(s, e);
    }
    assert_eq!(s, AuthState::Failed);
    assert_eq!(passphrase_prompts, 3);
    assert_eq!(password_prompts, 1);
}
