//! How one call through the ops layer is carried out, decided from the
//! command's rule before anything is sent.

use vstd::prelude::*;

use crate::duration::Duration;
use crate::ops::policy::{CommandMode, CommandRule, clone_opt_string};
use crate::ops::retry::RetryPolicy;
use crate::ops::state::default_idempotency_key;

verus! {

/// How one call through the ops layer is carried out.
#[derive(Debug)]
pub struct CallPlan {
    /// The mutual-exclusion key to hold while the call runs, if any.
    pub lock_key: Option<String>,
    /// The de-duplication key and cache lifetime, for idempotent commands.
    pub idempotency: Option<(String, Option<Duration>)>,
    /// The timeout of each attempt.
    pub timeout: Option<Duration>,
    /// How failed attempts are retried.
    pub retry: RetryPolicy,
}

/// The key a command's mode serialises calls under: the mutex key of a
/// `Mutex` command, or the optional mutex key of an `Idempotent` one.
pub open spec fn mode_lock_key(mode: CommandMode) -> Option<Seq<char>> {
    match mode {
        CommandMode::Mutex { key } => Some(key@),
        CommandMode::Idempotent { mutex_key: Some(k), .. } => Some(k@),
        _ => None,
    }
}

/// The de-duplication key of a call: the explicit key of an `Idempotent`
/// command, else the command name with the JSON text of the arguments.
pub open spec fn mode_idempotency_key(mode: CommandMode, command: Seq<char>, args: Option<Seq<char>>) -> Option<Seq<char>> {
    match mode {
        CommandMode::Idempotent { key: Some(k), .. } => Some(k@),
        CommandMode::Idempotent { key: None, .. } => Some(
            match args {
                Some(a) => command + ":"@ + a,
                None => command,
            },
        ),
        _ => None,
    }
}

/// Decide how to carry out a call of `command` under `rule`: `args` is the
/// JSON text of the arguments, `timeout` the caller's own timeout, which
/// takes precedence over the rule's.
pub fn plan_call(rule: &CommandRule, command: &str, args: Option<&str>, timeout: Option<Duration>) -> (p: CallPlan)
    ensures
        match p.lock_key {
            Some(k) => mode_lock_key(rule.mode) == Some(k@),
            None => mode_lock_key(rule.mode) is None,
        },
        match p.idempotency {
            Some((k, ttl)) => mode_idempotency_key(
                rule.mode,
                command@,
                match args {
                    Some(a) => Some(a@),
                    None => None,
                },
            ) == Some(k@) && (rule.mode matches CommandMode::Idempotent { ttl: t, .. } && ttl == t),
            None => !(rule.mode is Idempotent),
        },
        p.timeout == (match timeout {
            Some(t) => Some(t),
            None => rule.timeout,
        }),
        p.retry == rule.retry,
{
    let lock_key = match &rule.mode {
        CommandMode::Mutex { key } => Some(key.clone()),
        CommandMode::Idempotent { mutex_key, .. } => clone_opt_string(mutex_key),
        _ => None,
    };
    let idempotency = match &rule.mode {
        CommandMode::Idempotent { key, ttl, .. } => {
            let k = match key {
                Some(k) => k.clone(),
                None => default_idempotency_key(command, args),
            };
            Some((k, *ttl))
        },
        _ => None,
    };
    let timeout = match timeout {
        Some(t) => Some(t),
        None => rule.timeout,
    };
    CallPlan { lock_key, idempotency, timeout, retry: rule.retry.clone() }
}

/// An explicit idempotency key is used as it is, for every command and every
/// argument text: calls under the same explicit key are de-duplicated
/// whatever their arguments. Only a mode without a key derives one from the
/// command and the arguments, and other modes have none.
pub proof fn law_explicit_key_is_verbatim(
    mode: CommandMode,
    c1: Seq<char>,
    a1: Option<Seq<char>>,
    c2: Seq<char>,
    a2: Option<Seq<char>>,
)
    ensures
        mode matches CommandMode::Idempotent { key: Some(k), .. } ==> mode_idempotency_key(
            mode,
            c1,
            a1,
        ) == Some(k@),
        mode matches CommandMode::Idempotent { key: Some(k), .. } ==> mode_idempotency_key(
            mode,
            c1,
            a1,
        ) == mode_idempotency_key(mode, c2, a2),
        mode matches CommandMode::Idempotent { key: None, .. } ==> mode_idempotency_key(
            mode,
            c1,
            a1,
        ) == Some(
            match a1 {
                Some(a) => c1 + ":"@ + a,
                None => c1,
            },
        ),
        !(mode is Idempotent) ==> mode_idempotency_key(mode, c1, a1) is None,
{
}

} // verus!
