//! Allow-list policies and per-command execution rules.

use vstd::prelude::*;

use crate::duration::{Duration, secs_to_nanos};
use crate::error::Error;
use crate::ops::retry::{RetryPolicy, is_conservative, is_no_retry};

verus! {

/// Predefined safety profiles.
#[derive(Debug, Clone, Copy, PartialEq, Eq, Hash, Structural)]
#[non_exhaustive]
pub enum Profile {
    /// Only read-only, query-style commands.
    ReadOnly,
    /// Read-only + basic VM lifecycle operations (pause/continue/powerdown/reset).
    VmControl,
    /// No allow-list enforcement (dangerous, mostly for testing / power users).
    Unrestricted,
}

/// How a command should be executed.
#[derive(Debug, PartialEq, Eq)]
#[non_exhaustive]
pub enum CommandMode {
    /// Execute normally.
    Plain,
    /// Ensure only one command with the same `key` runs at a time.
    Mutex {
        /// Mutex key.
        key: String,
    },
    /// Treat identical calls as idempotent within a time window.
    ///
    /// This mode deduplicates concurrent calls and optionally caches the last
    /// successful result (TTL based).
    Idempotent {
        /// Optional explicit key.
        ///
        /// When `None`, a key is derived from `{command}+{arguments}`.
        key: Option<String>,
        /// Optional mutual-exclusion key (in addition to idempotency).
        mutex_key: Option<String>,
        /// Cache TTL for successful results.
        ttl: Option<Duration>,
    },
}

/// A copy of an optional string.
pub(crate) fn clone_opt_string(s: &Option<String>) -> (r: Option<String>)
    ensures
        r == *s,
{
    match s {
        Some(v) => Some(v.clone()),
        None => None,
    }
}

impl Clone for CommandMode {
    fn clone(&self) -> (r: Self)
        ensures
            r == *self,
    {
        match self {
            CommandMode::Plain => CommandMode::Plain,
            CommandMode::Mutex { key } => CommandMode::Mutex { key: key.clone() },
            CommandMode::Idempotent { key, mutex_key, ttl } => CommandMode::Idempotent {
                key: clone_opt_string(key),
                mutex_key: clone_opt_string(mutex_key),
                ttl: *ttl,
            },
        }
    }
}

/// Per-command policy.
#[derive(Debug)]
pub struct CommandRule {
    /// Execution mode.
    pub mode: CommandMode,
    /// Retry policy.
    pub retry: RetryPolicy,
    /// Optional timeout override.
    pub timeout: Option<Duration>,
}

impl Clone for CommandRule {
    fn clone(&self) -> (r: Self)
        ensures
            r == *self,
    {
        CommandRule { mode: self.mode.clone(), retry: self.retry.clone(), timeout: self.timeout }
    }
}

/// The rule used for commands that have no rule of their own, unless the
/// policy says otherwise: plain execution, no retry, no timeout override.
pub open spec fn is_default_rule(r: CommandRule) -> bool {
    &&& r.mode == CommandMode::Plain
    &&& is_no_retry(r.retry)
    &&& r.timeout is None
}

/// The rule that the `VmControl` profile gives to `stop` and `cont`:
/// serialised under the key `vm-control`, conservative retries, and a
/// ten-second timeout.
pub open spec fn is_vm_control_rule(r: CommandRule) -> bool {
    &&& r.mode matches CommandMode::Mutex { key } && key@ == "vm-control"@
    &&& is_conservative(r.retry)
    &&& r.timeout matches Some(t) && t@ == secs_to_nanos(10)
}

impl Default for CommandRule {
    fn default() -> (r: Self)
        ensures
            is_default_rule(r),
    {
        CommandRule { mode: CommandMode::Plain, retry: RetryPolicy::none(), timeout: None }
    }
}

/// The commands that the `ReadOnly` profile allows.
pub open spec fn read_only_commands() -> Seq<Seq<char>> {
    seq![
        "query-status"@,
        "query-version"@,
        "query-kvm"@,
        "query-machines"@,
        "query-cpus-fast"@,
        "query-block"@,
    ]
}

/// The commands that the `VmControl` profile allows beyond the read-only ones.
pub open spec fn vm_control_commands() -> Seq<Seq<char>> {
    seq!["stop"@, "cont"@, "system_powerdown"@, "system_reset"@]
}

/// The set of names in a sequence of names.
pub open spec fn name_set(s: Seq<Seq<char>>) -> Set<Seq<char>> {
    Set::new(|k: Seq<char>| s.contains(k))
}

/// The names held by a list of strings.
pub open spec fn string_set(s: Seq<String>) -> Set<Seq<char>> {
    Set::new(|k: Seq<char>| exists|i: int| 0 <= i < s.len() && #[trigger] s[i]@ == k)
}

/// The rule that a list of (command, rule) entries gives to `k`: the last
/// entry for `k` wins.
pub open spec fn lookup_rule(s: Seq<(String, CommandRule)>, k: Seq<char>) -> Option<CommandRule>
    decreases s.len(),
{
    if s.len() == 0 {
        None
    } else if s.last().0@ == k {
        Some(s.last().1)
    } else {
        lookup_rule(s.drop_last(), k)
    }
}

/// The map from command name to rule that a list of entries describes.
pub open spec fn rule_map(s: Seq<(String, CommandRule)>) -> Map<Seq<char>, CommandRule> {
    Map::new(|k: Seq<char>| lookup_rule(s, k) is Some, |k: Seq<char>| lookup_rule(s, k)->0)
}

/// The abstract content of a [`Policy`].
pub struct PolicyView {
    /// Whether commands outside the allow-list are rejected.
    pub enforce_allow_list: bool,
    /// The allow-list.
    pub allowed: Set<Seq<char>>,
    /// The per-command rules.
    pub rules: Map<Seq<char>, CommandRule>,
    /// The rule for commands without a rule of their own.
    pub default_rule: CommandRule,
}

/// The abstract content of a [`PolicyBuilder`].
pub struct PolicyBuilderView {
    /// The profile whose defaults `build` applies.
    pub profile: Profile,
    /// Whether commands outside the allow-list are rejected.
    pub enforce_allow_list: bool,
    /// The explicitly allowed commands.
    pub allowed: Set<Seq<char>>,
    /// The explicitly set per-command rules.
    pub rules: Map<Seq<char>, CommandRule>,
    /// The rule for commands without a rule of their own.
    pub default_rule: CommandRule,
}

/// Whether a policy lets a command through its allow-list.
pub open spec fn admits(p: PolicyView, command: Seq<char>) -> bool {
    !p.enforce_allow_list || p.allowed.contains(command)
}

/// The rule that a policy applies to a command it admits.
pub open spec fn rule_in(p: PolicyView, command: Seq<char>) -> CommandRule {
    if p.rules.contains_key(command) {
        p.rules[command]
    } else {
        p.default_rule
    }
}

/// The allow-list that `build` produces from a builder.
pub open spec fn built_allow_list(b: PolicyBuilderView) -> Set<Seq<char>> {
    match b.profile {
        Profile::ReadOnly => b.allowed + name_set(read_only_commands()),
        Profile::VmControl => b.allowed + name_set(read_only_commands()) + name_set(
            vm_control_commands(),
        ),
        Profile::Unrestricted => b.allowed,
    }
}

/// Whether `p` is the policy that `build` produces from `b`: the profile's
/// commands join the allow-list; `VmControl` gives `stop` and `cont` the
/// vm-control rule unless they have a rule already; `Unrestricted` turns the
/// allow-list off.
pub open spec fn built_from(b: PolicyBuilderView, p: PolicyView) -> bool {
    &&& p.enforce_allow_list == (b.enforce_allow_list && b.profile != Profile::Unrestricted)
    &&& p.allowed == built_allow_list(b)
    &&& p.default_rule == b.default_rule
    &&& b.profile != Profile::VmControl ==> p.rules == b.rules
    &&& b.profile == Profile::VmControl ==> {
        &&& p.rules.dom() == b.rules.dom().insert("stop"@).insert("cont"@)
        &&& forall|k: Seq<char>| #[trigger]
            b.rules.contains_key(k) ==> p.rules[k] == b.rules[k]
        &&& !b.rules.contains_key("stop"@) ==> is_vm_control_rule(p.rules["stop"@])
        &&& !b.rules.contains_key("cont"@) ==> is_vm_control_rule(p.rules["cont"@])
    }
}

/// Runtime policy.
#[derive(Debug, Clone)]
pub struct Policy {
    pub(crate) enforce_allow_list: bool,
    allowed: Vec<String>,
    rules: Vec<(String, CommandRule)>,
    default_rule: CommandRule,
}

impl View for Policy {
    type V = PolicyView;

    closed spec fn view(&self) -> PolicyView {
        PolicyView {
            enforce_allow_list: self.enforce_allow_list,
            allowed: string_set(self.allowed@),
            rules: rule_map(self.rules@),
            default_rule: self.default_rule,
        }
    }
}

/// Whether `cmd` occurs in `list`.
fn contains_name(list: &Vec<String>, cmd: &String) -> (b: bool)
    ensures
        b == string_set(list@).contains(cmd@),
{
    let mut i: usize = 0;
    while i < list.len()
        invariant
            i <= list.len(),
            forall|j: int| 0 <= j < i ==> list@[j]@ != cmd@,
        decreases list.len() - i,
    {
        if list[i] == *cmd {
            assert(list@[i as int]@ == cmd@);
            return true;
        }
        i = i + 1;
    }
    false
}

proof fn lemma_lookup_suffix(s: Seq<(String, CommandRule)>, n: int, k: Seq<char>)
    requires
        0 <= n <= s.len(),
        forall|j: int| n <= j < s.len() ==> s[j].0@ != k,
    ensures
        lookup_rule(s, k) == lookup_rule(s.take(n), k),
    decreases s.len(),
{
    if s.len() == n {
        assert(s.take(n) =~= s);
    } else {
        assert(s.drop_last().take(n) =~= s.take(n));
        lemma_lookup_suffix(s.drop_last(), n, k);
    }
}

proof fn lemma_lookup_push(s: Seq<(String, CommandRule)>, e: (String, CommandRule), k: Seq<char>)
    ensures
        lookup_rule(s.push(e), k) == (if e.0@ == k {
            Some(e.1)
        } else {
            lookup_rule(s, k)
        }),
{
    assert(s.push(e).drop_last() =~= s);
}

/// The rule that the entries give to `cmd`, if any.
fn find_rule<'a>(rules: &'a Vec<(String, CommandRule)>, cmd: &String) -> (r: Option<&'a CommandRule>)
    ensures
        match r {
            Some(rule) => lookup_rule(rules@, cmd@) == Some(*rule),
            None => lookup_rule(rules@, cmd@) is None,
        },
{
    let mut i: usize = rules.len();
    assert(rules@.take(i as int) =~= rules@);
    while i > 0
        invariant
            i <= rules.len(),
            lookup_rule(rules@, cmd@) == lookup_rule(rules@.take(i as int), cmd@),
        decreases i,
    {
        let entry = &rules[i - 1];
        if entry.0 == *cmd {
            proof {
                let t = rules@.take(i as int);
                assert(t.last() == rules@[i - 1]);
            }
            return Some(&entry.1);
        }
        proof {
            let t = rules@.take(i as int);
            assert(t.drop_last() =~= rules@.take(i - 1));
        }
        i = i - 1;
    }
    proof {
        assert(rules@.take(0).len() == 0);
    }
    None
}

impl Policy {
    /// Whether a command is allowed by the policy.
    #[must_use]
    pub fn is_allowed(&self, command: &str) -> (b: bool)
        ensures
            b == self@.allowed.contains(command@),
    {
        let cmd = command.to_owned();
        contains_name(&self.allowed, &cmd)
    }

    /// Get the rule for a command.
    ///
    /// A policy that enforces its allow-list rejects every command outside
    /// it; an admitted command gets its own rule, or the default rule.
    pub fn rule_for(&self, command: &str) -> (r: Result<CommandRule, Error>)
        ensures
            r is Ok <==> admits(self@, command@),
            r matches Ok(rule) ==> rule == rule_in(self@, command@),
            r matches Err(e) ==> e matches Error::PolicyViolation { command: c, reason } && c@
                == command@ && reason@ == "command is not allowed"@,
    {
        let cmd = command.to_owned();
        if self.enforce_allow_list && !contains_name(&self.allowed, &cmd) {
            return Err(Error::policy(cmd, "command is not allowed".to_owned()));
        }
        match find_rule(&self.rules, &cmd) {
            Some(rule) => Ok(rule.clone()),
            None => Ok(self.default_rule.clone()),
        }
    }
}

/// Builder for [`Policy`].
#[derive(Debug, Clone)]
pub struct PolicyBuilder {
    profile: Profile,
    enforce_allow_list: bool,
    allowed: Vec<String>,
    rules: Vec<(String, CommandRule)>,
    default_rule: CommandRule,
}

impl View for PolicyBuilder {
    type V = PolicyBuilderView;

    closed spec fn view(&self) -> PolicyBuilderView {
        PolicyBuilderView {
            profile: self.profile,
            enforce_allow_list: self.enforce_allow_list,
            allowed: string_set(self.allowed@),
            rules: rule_map(self.rules@),
            default_rule: self.default_rule,
        }
    }
}

/// Add `name` to the list unless it is there already.
fn insert_name(list: &mut Vec<String>, name: String)
    ensures
        string_set(final(list)@) == string_set(old(list)@).insert(name@),
{
    if !contains_name(list, &name) {
        let ghost before = list@;
        let ghost nv = name@;
        list.push(name);
        proof {
            assert(list@[before.len() as int]@ == nv);
            assert forall|k: Seq<char>| #[trigger]
                string_set(list@).contains(k) == string_set(before).insert(nv).contains(k) by {
                if string_set(before).contains(k) {
                    let j = choose|j: int| 0 <= j < before.len() && #[trigger] before[j]@ == k;
                    assert(list@[j] == before[j]);
                }
                if string_set(list@).contains(k) {
                    let j = choose|j: int| 0 <= j < list@.len() && #[trigger] list@[j]@ == k;
                    if j < before.len() {
                        assert(before[j] == list@[j]);
                    }
                }
            }
            assert(string_set(list@) =~= string_set(before).insert(nv));
        }
    } else {
        assert(string_set(list@) =~= string_set(list@).insert(name@));
    }
}

/// Add every name of `names` to the list.
fn insert_names(list: &mut Vec<String>, names: &[&str])
    ensures
        string_set(final(list)@) == string_set(old(list)@) + Set::new(
            |k: Seq<char>| exists|i: int| 0 <= i < names@.len() && #[trigger] names@[i]@ == k,
        ),
{
    let ghost start = string_set(list@);
    let ghost all = Set::new(
        |k: Seq<char>| exists|i: int| 0 <= i < names@.len() && #[trigger] names@[i]@ == k,
    );
    let mut i: usize = 0;
    while i < names.len()
        invariant
            i <= names@.len(),
            string_set(list@) == start + Set::new(
                |k: Seq<char>| exists|j: int| 0 <= j < i && #[trigger] names@[j]@ == k,
            ),
        decreases names@.len() - i,
    {
        let ghost prev = string_set(list@);
        insert_name(list, names[i].to_owned());
        proof {
            let lhs = string_set(list@);
            let rhs = start + Set::new(
                |k: Seq<char>| exists|j: int| 0 <= j < i + 1 && #[trigger] names@[j]@ == k,
            );
            assert forall|k: Seq<char>| #[trigger] lhs.contains(k) == rhs.contains(k) by {
                if k == names@[i as int]@ {
                    assert(rhs.contains(k));
                }
                if rhs.contains(k) && !start.contains(k) {
                    let j = choose|j: int| 0 <= j < i + 1 && #[trigger] names@[j]@ == k;
                    if j < i {
                        assert(prev.contains(k));
                    }
                }
            }
            assert(lhs =~= rhs);
        }
        i = i + 1;
    }
    assert(Set::new(|k: Seq<char>| exists|j: int| 0 <= j < i && #[trigger] names@[j]@ == k)
        =~= all);
}

/// Give `command` the rule `rule` unless it has one already.
fn insert_rule_if_absent(rules: &mut Vec<(String, CommandRule)>, command: String, rule: CommandRule)
    ensures
        rule_map(old(rules)@).contains_key(command@) ==> rule_map(final(rules)@) == rule_map(
            old(rules)@,
        ),
        !rule_map(old(rules)@).contains_key(command@) ==> rule_map(final(rules)@) == rule_map(
            old(rules)@,
        ).insert(command@, rule),
{
    if find_rule(rules, &command).is_none() {
        let ghost before = rules@;
        let ghost k = command@;
        rules.push((command, rule));
        proof {
            assert forall|j: Seq<char>| #[trigger] lookup_rule(rules@, j) == (if j == k {
                Some(rule)
            } else {
                lookup_rule(before, j)
            }) by {
                lemma_lookup_push(before, (rules@.last().0, rule), j);
                assert(rules@ == before.push(rules@.last()));
            }
            assert(rule_map(rules@) =~= rule_map(before).insert(k, rule));
        }
    }
}

/// The commands that the `ReadOnly` profile allows.
fn read_only_allow_list() -> (names: [&'static str; 6])
    ensures
        names@.len() == 6,
        forall|i: int| 0 <= i < 6 ==> #[trigger] names@[i]@ == read_only_commands()[i],
{
    ["query-status", "query-version", "query-kvm", "query-machines", "query-cpus-fast", "query-block"]
}

/// The commands that the `VmControl` profile adds to the read-only ones.
fn vm_control_allow_list() -> (names: [&'static str; 4])
    ensures
        names@.len() == 4,
        forall|i: int| 0 <= i < 4 ==> #[trigger] names@[i]@ == vm_control_commands()[i],
{
    ["stop", "cont", "system_powerdown", "system_reset"]
}

proof fn lemma_names_as_set(names: Seq<&str>, expected: Seq<Seq<char>>)
    requires
        names.len() == expected.len(),
        forall|i: int| 0 <= i < names.len() ==> #[trigger] names[i]@ == expected[i],
    ensures
        Set::new(|k: Seq<char>| exists|i: int| 0 <= i < names.len() && #[trigger] names[i]@ == k)
            == name_set(expected),
{
    let a = Set::new(
        |k: Seq<char>| exists|i: int| 0 <= i < names.len() && #[trigger] names[i]@ == k,
    );
    assert forall|k: Seq<char>| #[trigger] a.contains(k) == name_set(expected).contains(k) by {
        if a.contains(k) {
            let i = choose|i: int| 0 <= i < names.len() && #[trigger] names[i]@ == k;
            assert(expected[i] == k);
        }
        if name_set(expected).contains(k) {
            let i = choose|i: int| 0 <= i < expected.len() && expected[i] == k;
            assert(names[i]@ == k);
        }
    }
    assert(a =~= name_set(expected));
}

/// The rule that the `VmControl` profile gives to `stop` and `cont`.
fn vm_control_rule() -> (r: CommandRule)
    ensures
        is_vm_control_rule(r),
{
    CommandRule {
        mode: CommandMode::Mutex { key: "vm-control".to_owned() },
        retry: RetryPolicy::conservative(),
        timeout: Some(Duration::from_secs(10)),
    }
}

impl PolicyBuilder {
    /// Create a new policy builder.
    #[must_use]
    pub fn new() -> (b: Self)
        ensures
            b@.profile == Profile::ReadOnly,
            b@.enforce_allow_list,
            b@.allowed == Set::<Seq<char>>::empty(),
            b@.rules == Map::<Seq<char>, CommandRule>::empty(),
            is_default_rule(b@.default_rule),
    {
        let b = PolicyBuilder {
            profile: Profile::ReadOnly,
            enforce_allow_list: true,
            allowed: Vec::new(),
            rules: Vec::new(),
            default_rule: CommandRule::default(),
        };
        assert(string_set(b.allowed@) =~= Set::<Seq<char>>::empty());
        assert(rule_map(b.rules@) =~= Map::<Seq<char>, CommandRule>::empty());
        b
    }

    /// Use a predefined profile.
    #[must_use]
    pub fn profile(self, profile: Profile) -> (b: Self)
        ensures
            b@ == (PolicyBuilderView { profile, ..self@ }),
    {
        PolicyBuilder { profile, ..self }
    }

    /// Enable / disable allow-list enforcement.
    ///
    /// Disabling this is **dangerous**.
    #[must_use]
    pub fn enforce_allow_list(self, enabled: bool) -> (b: Self)
        ensures
            b@ == (PolicyBuilderView { enforce_allow_list: enabled, ..self@ }),
    {
        PolicyBuilder { enforce_allow_list: enabled, ..self }
    }

    /// Explicitly allow a command.
    #[must_use]
    pub fn allow(self, command: String) -> (b: Self)
        ensures
            b@ == (PolicyBuilderView { allowed: self@.allowed.insert(command@), ..self@ }),
    {
        let mut b = self;
        insert_name(&mut b.allowed, command);
        b
    }

    /// Set a per-command rule.
    #[must_use]
    pub fn rule(self, command: String, rule: CommandRule) -> (b: Self)
        ensures
            b@ == (PolicyBuilderView { rules: self@.rules.insert(command@, rule), ..self@ }),
    {
        let mut b = self;
        let ghost before = b.rules@;
        let ghost k = command@;
        b.rules.push((command, rule));
        proof {
            assert forall|j: Seq<char>| #[trigger] lookup_rule(b.rules@, j) == (if j == k {
                Some(rule)
            } else {
                lookup_rule(before, j)
            }) by {
                lemma_lookup_push(before, b.rules@.last(), j);
                assert(b.rules@ == before.push(b.rules@.last()));
            }
            assert(rule_map(b.rules@) =~= rule_map(before).insert(k, rule));
        }
        b
    }

    /// Set the default rule (used when no per-command rule exists).
    #[must_use]
    pub fn default_rule(self, rule: CommandRule) -> (b: Self)
        ensures
            b@ == (PolicyBuilderView { default_rule: rule, ..self@ }),
    {
        PolicyBuilder { default_rule: rule, ..self }
    }

    /// Build the policy.
    #[must_use]
    pub fn build(self) -> (p: Policy)
        ensures
            built_from(self@, p@),
    {
        let ghost b = self@;
        let mut s = self;
        match s.profile {
            Profile::ReadOnly => {
                let names = read_only_allow_list();
                insert_names(&mut s.allowed, &names);
                proof {
                    lemma_names_as_set(names@, read_only_commands());
                }
            },
            Profile::VmControl => {
                let names = read_only_allow_list();
                insert_names(&mut s.allowed, &names);
                proof {
                    lemma_names_as_set(names@, read_only_commands());
                }
                let more = vm_control_allow_list();
                insert_names(&mut s.allowed, &more);
                proof {
                    lemma_names_as_set(more@, vm_control_commands());
                }
                let ghost r0 = rule_map(s.rules@);
                insert_rule_if_absent(&mut s.rules, "stop".to_owned(), vm_control_rule());
                let ghost r1 = rule_map(s.rules@);
                insert_rule_if_absent(&mut s.rules, "cont".to_owned(), vm_control_rule());
                proof {
                    reveal_strlit("stop");
                    reveal_strlit("cont");
                    assert("stop"@[0] == 's' && "cont"@[0] == 'c');
                    assert("stop"@ != "cont"@);
                    assert(rule_map(s.rules@).dom() =~= r0.dom().insert("stop"@).insert(
                        "cont"@,
                    ));
                }
            },
            Profile::Unrestricted => {
                s.enforce_allow_list = false;
            },
        }
        Policy {
            enforce_allow_list: s.enforce_allow_list,
            allowed: s.allowed,
            rules: s.rules,
            default_rule: s.default_rule,
        }
    }
}

impl Default for PolicyBuilder {
    fn default() -> (b: Self)
        ensures
            b@.profile == Profile::ReadOnly,
            b@.enforce_allow_list,
            b@.allowed == Set::<Seq<char>>::empty(),
            b@.rules == Map::<Seq<char>, CommandRule>::empty(),
            is_default_rule(b@.default_rule),
    {
        Self::new()
    }
}

/// Under the `Unrestricted` profile every command passes the allow-list.
pub proof fn law_unrestricted_admits_everything(b: PolicyBuilderView, p: PolicyView, command: Seq<char>)
    requires
        built_from(b, p),
        b.profile == Profile::Unrestricted,
    ensures
        admits(p, command),
{
}

/// A command allowed explicitly on the builder is admitted by the built
/// policy, whatever the profile.
pub proof fn law_explicit_allow_is_admitted(b: PolicyBuilderView, p: PolicyView, command: Seq<char>)
    requires
        built_from(b, p),
        b.allowed.contains(command),
    ensures
        admits(p, command),
{
}

/// The `ReadOnly` and `VmControl` profiles admit every query command of the
/// read-only list.
pub proof fn law_profiles_admit_queries(b: PolicyBuilderView, p: PolicyView, i: int)
    requires
        built_from(b, p),
        b.profile == Profile::ReadOnly || b.profile == Profile::VmControl,
        0 <= i < read_only_commands().len(),
    ensures
        admits(p, read_only_commands()[i]),
{
    assert(name_set(read_only_commands()).contains(read_only_commands()[i]));
}

/// The `VmControl` profile admits the VM lifecycle commands.
pub proof fn law_vm_control_admits_lifecycle(b: PolicyBuilderView, p: PolicyView, i: int)
    requires
        built_from(b, p),
        b.profile == Profile::VmControl,
        0 <= i < vm_control_commands().len(),
    ensures
        admits(p, vm_control_commands()[i]),
{
    assert(name_set(vm_control_commands()).contains(vm_control_commands()[i]));
}

/// With its allow-list enforced, the `ReadOnly` profile rejects every command
/// that is neither on the read-only list nor allowed explicitly.
pub proof fn law_read_only_rejects_others(b: PolicyBuilderView, p: PolicyView, command: Seq<char>)
    requires
        built_from(b, p),
        b.profile == Profile::ReadOnly,
        b.enforce_allow_list,
        !b.allowed.contains(command),
        !read_only_commands().contains(command),
    ensures
        !admits(p, command),
{
}

/// A rule set on the builder is the rule the built policy applies, whatever
/// the profile.
pub proof fn law_explicit_rule_is_kept(b: PolicyBuilderView, p: PolicyView, command: Seq<char>)
    requires
        built_from(b, p),
        b.rules.contains_key(command),
    ensures
        rule_in(p, command) == b.rules[command],
{
}

/// Under `VmControl`, `stop` and `cont` are serialised under the `vm-control`
/// key unless the builder gave them a rule of their own.
pub proof fn law_vm_control_serialises_stop_and_cont(b: PolicyBuilderView, p: PolicyView)
    requires
        built_from(b, p),
        b.profile == Profile::VmControl,
    ensures
        !b.rules.contains_key("stop"@) ==> is_vm_control_rule(rule_in(p, "stop"@)),
        !b.rules.contains_key("cont"@) ==> is_vm_control_rule(rule_in(p, "cont"@)),
{
    assert(p.rules.dom().contains("stop"@));
    assert(p.rules.dom().contains("cont"@));
}

/// A command without a rule of its own, and outside the profile's rules, gets
/// the default rule.
pub proof fn law_default_rule_applies(b: PolicyBuilderView, p: PolicyView, command: Seq<char>)
    requires
        built_from(b, p),
        !b.rules.contains_key(command),
        b.profile == Profile::VmControl ==> command != "stop"@ && command != "cont"@,
    ensures
        rule_in(p, command) == b.default_rule,
{
    if b.profile == Profile::VmControl {
        assert(!p.rules.dom().contains(command));
    }
}

} // verus!
