//! Authentication negotiation: an ordered sequence of key-based attempts
//! followed by a single password attempt, modelled as a state machine.
//!
//! The driver owns the live session and the terminal; this module owns the
//! decisions. Each state names the one outside step the driver must perform
//! next (check a key path, try an authentication method, prompt for a
//! secret); the driver reports the step's outcome as an event and the
//! machine moves on. First success wins; a failed password attempt is
//! terminal for the whole negotiation.

use vstd::prelude::*;

verus! {

/// How many candidate key paths are tried, in fixed order.
pub const KEY_CANDIDATES: usize = 3;

/// Path of candidate key `i`, relative to the home directory (with a
/// leading separator): the conventional key files, in priority order.
pub open spec fn spec_key_suffix(i: int) -> Seq<char> {
    if i == 0 {
        "/.ssh/id_rsa"@
    } else if i == 1 {
        "/.ssh/id_ed25519"@
    } else {
        "/.ssh/id_ecdsa"@
    }
}

/// The suffix appended to the home directory for candidate key `idx`.
pub fn key_suffix(idx: usize) -> (r: &'static str)
    requires
        idx < KEY_CANDIDATES,
    ensures
        r@ == spec_key_suffix(idx as int),
{
    if idx == 0 {
        "/.ssh/id_rsa"
    } else if idx == 1 {
        "/.ssh/id_ed25519"
    } else {
        "/.ssh/id_ecdsa"
    }
}

/// Full filesystem path of candidate key `idx` under `home`.
pub fn candidate_key_path(home: &str, idx: usize) -> (r: String)
    requires
        idx < KEY_CANDIDATES,
    ensures
        r@ == home@ + spec_key_suffix(idx as int),
{
    let mut r = String::from_str(home);
    r.append(key_suffix(idx));
    r
}

/// Where the negotiation stands. The `idx` fields index the candidate key
/// list and are below [`KEY_CANDIDATES`] in well-formed states.
#[derive(Clone, Copy, PartialEq, Eq, Structural, Debug)]
pub enum AuthState {
    /// Waiting to learn whether candidate key `idx` exists on disk.
    CheckingKey { idx: usize },
    /// Waiting for the outcome of a no-passphrase attempt with key `idx`.
    TryingKeyNoPass { idx: usize },
    /// Waiting for the user to enter a passphrase for key `idx`.
    AwaitingPassphrase { idx: usize },
    /// Waiting for the outcome of a passphrase attempt with key `idx`.
    TryingKeyWithPass { idx: usize },
    /// Waiting for the user to enter a password.
    AwaitingPassword,
    /// Waiting for the outcome of the single password attempt.
    TryingPassword,
    /// A credential was accepted; terminal.
    Succeeded,
    /// No credential was accepted; terminal.
    Failed,
}

/// The one outside step the driver must perform in a given state.
#[derive(Clone, Copy, PartialEq, Eq, Structural, Debug)]
pub enum AuthAction {
    /// Check whether candidate key `idx` exists on the local filesystem.
    CheckKeyExists { idx: usize },
    /// Attempt public-key authentication with key `idx` and no passphrase.
    TryKeyNoPassphrase { idx: usize },
    /// Prompt the user for the passphrase of key `idx` (masked input).
    PromptPassphrase { idx: usize },
    /// Attempt public-key authentication with key `idx` and the passphrase.
    TryKeyWithPassphrase { idx: usize },
    /// Prompt the user for a password (masked input).
    PromptPassword,
    /// Attempt password authentication.
    TryPassword,
    /// Report that authentication succeeded.
    ReportSuccess,
    /// Report that authentication failed.
    ReportFailure,
}

/// The driver's report on the step it performed.
#[derive(Clone, Copy, PartialEq, Eq, Structural, Debug)]
pub enum AuthEvent {
    /// Answer to a key-existence check.
    Exists { found: bool },
    /// Outcome of an authentication attempt: accepted, or rejected-or-error
    /// (the two are deliberately not distinguished, matching the tool's
    /// observed behaviour).
    Attempt { accepted: bool },
    /// A prompt completed; the driver holds the secret.
    PromptDone,
}

impl AuthState {
    /// Key indices stay within the candidate list.
    pub open spec fn wf(self) -> bool {
        match self {
            AuthState::CheckingKey { idx } => idx < KEY_CANDIDATES,
            AuthState::TryingKeyNoPass { idx } => idx < KEY_CANDIDATES,
            AuthState::AwaitingPassphrase { idx } => idx < KEY_CANDIDATES,
            AuthState::TryingKeyWithPass { idx } => idx < KEY_CANDIDATES,
            _ => true,
        }
    }

    /// The negotiation is over.
    pub open spec fn spec_is_terminal(self) -> bool {
        self == AuthState::Succeeded || self == AuthState::Failed
    }

    /// The negotiation is over.
    pub fn is_terminal(&self) -> (r: bool)
        ensures
            r == self.spec_is_terminal(),
    {
        match self {
            AuthState::Succeeded => true,
            AuthState::Failed => true,
            _ => false,
        }
    }

    /// The state belongs to a key-based attempt (existence check aside).
    pub open spec fn is_key_attempt(self) -> bool {
        match self {
            AuthState::TryingKeyNoPass { .. } => true,
            AuthState::AwaitingPassphrase { .. } => true,
            AuthState::TryingKeyWithPass { .. } => true,
            _ => false,
        }
    }
}

/// The state in which the negotiation starts: with the first candidate key
/// when a home directory is available, else directly at the password
/// prompt.
pub open spec fn spec_initial_auth_state(home_available: bool) -> AuthState {
    if home_available {
        AuthState::CheckingKey { idx: 0 }
    } else {
        AuthState::AwaitingPassword
    }
}

/// Start the negotiation.
pub fn initial_auth_state(home_available: bool) -> (r: AuthState)
    ensures
        r == spec_initial_auth_state(home_available),
        r.wf(),
{
    if home_available {
        AuthState::CheckingKey { idx: 0 }
    } else {
        AuthState::AwaitingPassword
    }
}

/// The event kind a state expects; terminal states expect none.
pub open spec fn event_fits(s: AuthState, e: AuthEvent) -> bool {
    match s {
        AuthState::CheckingKey { .. } => e is Exists,
        AuthState::TryingKeyNoPass { .. } => e is Attempt,
        AuthState::AwaitingPassphrase { .. } => e is PromptDone,
        AuthState::TryingKeyWithPass { .. } => e is Attempt,
        AuthState::AwaitingPassword => e is PromptDone,
        AuthState::TryingPassword => e is Attempt,
        AuthState::Succeeded => false,
        AuthState::Failed => false,
    }
}

/// The transition relation of the negotiation. A fitting event moves the
/// machine as the ordered-fallback algorithm dictates; any other event
/// leaves the state unchanged.
pub open spec fn spec_auth_step(s: AuthState, e: AuthEvent) -> AuthState {
    if !event_fits(s, e) {
        s
    } else {
        match (s, e) {
            (AuthState::CheckingKey { idx }, AuthEvent::Exists { found }) => {
                if found {
                    AuthState::TryingKeyNoPass { idx }
                } else if idx + 1 < KEY_CANDIDATES {
                    AuthState::CheckingKey { idx: (idx + 1) as usize }
                } else {
                    AuthState::AwaitingPassword
                }
            },
            (AuthState::TryingKeyNoPass { idx }, AuthEvent::Attempt { accepted }) => {
                if accepted {
                    AuthState::Succeeded
                } else {
                    AuthState::AwaitingPassphrase { idx }
                }
            },
            (AuthState::AwaitingPassphrase { idx }, AuthEvent::PromptDone) => {
                AuthState::TryingKeyWithPass { idx }
            },
            (AuthState::TryingKeyWithPass { idx }, AuthEvent::Attempt { accepted }) => {
                if accepted {
                    AuthState::Succeeded
                } else if idx + 1 < KEY_CANDIDATES {
                    AuthState::CheckingKey { idx: (idx + 1) as usize }
                } else {
                    AuthState::AwaitingPassword
                }
            },
            (AuthState::AwaitingPassword, AuthEvent::PromptDone) => AuthState::TryingPassword,
            (AuthState::TryingPassword, AuthEvent::Attempt { accepted }) => {
                if accepted {
                    AuthState::Succeeded
                } else {
                    AuthState::Failed
                }
            },
            _ => s,
        }
    }
}

/// Advance the negotiation by one reported outcome.
pub fn auth_step(s: AuthState, e: AuthEvent) -> (r: AuthState)
    requires
        s.wf(),
    ensures
        r == spec_auth_step(s, e),
        r.wf(),
{
    match (s, e) {
        (AuthState::CheckingKey { idx }, AuthEvent::Exists { found }) => {
            if found {
                AuthState::TryingKeyNoPass { idx }
            } else if idx + 1 < KEY_CANDIDATES {
                AuthState::CheckingKey { idx: idx + 1 }
            } else {
                AuthState::AwaitingPassword
            }
        },
        (AuthState::TryingKeyNoPass { idx }, AuthEvent::Attempt { accepted }) => {
            if accepted {
                AuthState::Succeeded
            } else {
                AuthState::AwaitingPassphrase { idx }
            }
        },
        (AuthState::AwaitingPassphrase { idx }, AuthEvent::PromptDone) => {
            AuthState::TryingKeyWithPass { idx }
        },
        (AuthState::TryingKeyWithPass { idx }, AuthEvent::Attempt { accepted }) => {
            if accepted {
                AuthState::Succeeded
            } else if idx + 1 < KEY_CANDIDATES {
                AuthState::CheckingKey { idx: idx + 1 }
            } else {
                AuthState::AwaitingPassword
            }
        },
        (AuthState::AwaitingPassword, AuthEvent::PromptDone) => AuthState::TryingPassword,
        (AuthState::TryingPassword, AuthEvent::Attempt { accepted }) => {
            if accepted {
                AuthState::Succeeded
            } else {
                AuthState::Failed
            }
        },
        (s2, _) => s2,
    }
}

/// What the driver must do in a given state.
pub open spec fn spec_auth_action(s: AuthState) -> AuthAction {
    match s {
        AuthState::CheckingKey { idx } => AuthAction::CheckKeyExists { idx },
        AuthState::TryingKeyNoPass { idx } => AuthAction::TryKeyNoPassphrase { idx },
        AuthState::AwaitingPassphrase { idx } => AuthAction::PromptPassphrase { idx },
        AuthState::TryingKeyWithPass { idx } => AuthAction::TryKeyWithPassphrase { idx },
        AuthState::AwaitingPassword => AuthAction::PromptPassword,
        AuthState::TryingPassword => AuthAction::TryPassword,
        AuthState::Succeeded => AuthAction::ReportSuccess,
        AuthState::Failed => AuthAction::ReportFailure,
    }
}

/// What the driver must do in a given state.
pub fn auth_action(s: &AuthState) -> (r: AuthAction)
    ensures
        r == spec_auth_action(*s),
{
    match *s {
        AuthState::CheckingKey { idx } => AuthAction::CheckKeyExists { idx },
        AuthState::TryingKeyNoPass { idx } => AuthAction::TryKeyNoPassphrase { idx },
        AuthState::AwaitingPassphrase { idx } => AuthAction::PromptPassphrase { idx },
        AuthState::TryingKeyWithPass { idx } => AuthAction::TryKeyWithPassphrase { idx },
        AuthState::AwaitingPassword => AuthAction::PromptPassword,
        AuthState::TryingPassword => AuthAction::TryPassword,
        AuthState::Succeeded => AuthAction::ReportSuccess,
        AuthState::Failed => AuthAction::ReportFailure,
    }
}

/// The state after consuming a whole sequence of reported outcomes.
pub open spec fn spec_auth_run(s: AuthState, evs: Seq<AuthEvent>) -> AuthState
    decreases evs.len(),
{
    if evs.len() == 0 {
        s
    } else {
        spec_auth_run(spec_auth_step(s, evs[0]), evs.subrange(1, evs.len() as int))
    }
}

/// Terminal states absorb every further event: once the negotiation has
/// succeeded or failed, nothing is attempted again.
pub proof fn lemma_terminal_absorbs(s: AuthState, evs: Seq<AuthEvent>)
    requires
        s.spec_is_terminal(),
    ensures
        spec_auth_run(s, evs) == s,
    decreases evs.len(),
{
    if evs.len() > 0 {
        assert(spec_auth_step(s, evs[0]) == s);
        lemma_terminal_absorbs(s, evs.subrange(1, evs.len() as int));
    }
}

/// When no candidate key exists, the negotiation walks the candidate list
/// and arrives directly at the password prompt: no key attempt and no
/// passphrase prompt happens on the way.
pub proof fn lemma_no_keys_goes_to_password()
    ensures
        ({
            let e = AuthEvent::Exists { found: false };
            let s0 = spec_initial_auth_state(true);
            let s1 = spec_auth_step(s0, e);
            let s2 = spec_auth_step(s1, e);
            let s3 = spec_auth_step(s2, e);
            &&& s1 == AuthState::CheckingKey { idx: 1usize }
            &&& s2 == AuthState::CheckingKey { idx: 2usize }
            &&& s3 == AuthState::AwaitingPassword
            &&& !s0.is_key_attempt() && !s1.is_key_attempt() && !s2.is_key_attempt()
                && !s3.is_key_attempt()
            &&& spec_auth_action(s3) == AuthAction::PromptPassword
        }),
{
}

/// When a key exists but its no-passphrase attempt is rejected, exactly one
/// passphrase prompt is issued for that key, and a rejected passphrase
/// attempt moves on to the next candidate (or to the password prompt after
/// the last candidate) without prompting again.
pub proof fn lemma_one_passphrase_prompt_per_key(idx: usize)
    requires
        idx < KEY_CANDIDATES,
    ensures
        ({
            let s0 = AuthState::TryingKeyNoPass { idx };
            let s1 = spec_auth_step(s0, AuthEvent::Attempt { accepted: false });
            let s2 = spec_auth_step(s1, AuthEvent::PromptDone);
            let s3 = spec_auth_step(s2, AuthEvent::Attempt { accepted: false });
            &&& s1 == AuthState::AwaitingPassphrase { idx }
            &&& spec_auth_action(s1) == AuthAction::PromptPassphrase { idx }
            &&& s2 == AuthState::TryingKeyWithPass { idx }
            &&& s3 == if idx + 1 < KEY_CANDIDATES {
                AuthState::CheckingKey { idx: (idx + 1) as usize }
            } else {
                AuthState::AwaitingPassword
            }
            &&& !(spec_auth_action(s0) is PromptPassphrase)
            &&& !(spec_auth_action(s2) is PromptPassphrase)
            &&& !(spec_auth_action(s3) is PromptPassphrase)
        }),
{
}

/// An accepted key attempt — with or without passphrase, on any candidate —
/// ends the negotiation at once: no further candidate is tried and no
/// password prompt ever occurs.
pub proof fn lemma_key_success_terminates(idx: usize, evs: Seq<AuthEvent>)
    requires
        idx < KEY_CANDIDATES,
    ensures
        spec_auth_step(AuthState::TryingKeyNoPass { idx }, AuthEvent::Attempt { accepted: true })
            == AuthState::Succeeded,
        spec_auth_step(AuthState::TryingKeyWithPass { idx }, AuthEvent::Attempt { accepted: true })
            == AuthState::Succeeded,
        spec_auth_run(AuthState::Succeeded, evs) == AuthState::Succeeded,
{
    lemma_terminal_absorbs(AuthState::Succeeded, evs);
}

/// A rejected password attempt ends the whole negotiation in failure, and
/// nothing is retried afterwards.
pub proof fn lemma_password_failure_is_final(evs: Seq<AuthEvent>)
    ensures
        spec_auth_step(AuthState::TryingPassword, AuthEvent::Attempt { accepted: false })
            == AuthState::Failed,
        spec_auth_run(AuthState::Failed, evs) == AuthState::Failed,
{
    lemma_terminal_absorbs(AuthState::Failed, evs);
}

} // verus!
