//! The command-line tools: daemon arguments over the configuration, the
//! `leash` commands' parsing, and the files that `leash init` writes.
use vstd::prelude::*;
use crate::config::{OpenLeashConfig, TelegramConfig};
use crate::models::{ApprovalScope, Policy, ResourceType};
use crate::sandbox::{NetworkMode, SandboxLevel};
use crate::text::{join3, lowercase_text, same_text, to_lowercase, trim, trim_text};

verus! {

/// The daemon's command-line arguments (each also read from the environment).
#[derive(Debug)]
pub struct Args {
    /// Path to the configuration file
    pub config: Option<String>,
    /// Port to listen on for TCP gRPC
    pub port: Option<u16>,
    /// Host to bind for TCP gRPC
    pub host: Option<String>,
    /// Path to the Unix Domain Socket
    pub socket: Option<String>,
    /// Database URL (e.g. sqlite://leash.db)
    pub database_url: Option<String>,
    /// Path to the policies YAML file
    pub policies: Option<String>,
    pub telegram_token: Option<String>,
    pub telegram_chat_id: Option<String>,
}

/// The value of a non-empty text of decimal digits.
pub open spec fn decimal_value(s: Seq<char>) -> int
    decreases s.len(),
{
    if s.len() == 0 {
        0
    } else {
        decimal_value(s.drop_last()) * 10 + ((s.last() as u32) - ('0' as u32))
    }
}

/// Whether `s` is a non-empty text of ASCII decimal digits.
pub open spec fn all_digits(s: Seq<char>) -> bool {
    s.len() > 0 && forall|i: int| 0 <= i < s.len() ==> '0' <= #[trigger] s[i] && s[i] <= '9'
}

/// What `i64::from_str` makes of a text: an optional sign, then decimal
/// digits, within the range of `i64`.
pub open spec fn i64_of_text(s: Seq<char>) -> Option<i64> {
    let neg = s.len() > 0 && s[0] == '-';
    let signed = s.len() > 0 && (s[0] == '-' || s[0] == '+');
    let body = if signed {
        s.drop_first()
    } else {
        s
    };
    let v = if neg {
        -decimal_value(body)
    } else {
        decimal_value(body)
    };
    if all_digits(body) && i64::MIN <= v && v <= i64::MAX {
        Some(v as i64)
    } else {
        None
    }
}

proof fn lemma_decimal_grows(s: Seq<char>, i: int)
    requires
        0 <= i <= s.len(),
        forall|k: int| 0 <= k < s.len() ==> '0' <= #[trigger] s[k] && s[k] <= '9',
    ensures
        decimal_value(s.subrange(0, i)) <= decimal_value(s),
        0 <= decimal_value(s.subrange(0, i)),
    decreases s.len() - i,
{
    if i < s.len() {
        lemma_decimal_grows(s, i + 1);
        assert(s.subrange(0, i + 1).drop_last() =~= s.subrange(0, i));
    } else {
        assert(s.subrange(0, i) =~= s);
        lemma_decimal_nonneg(s);
    }
}

proof fn lemma_decimal_nonneg(s: Seq<char>)
    requires
        forall|k: int| 0 <= k < s.len() ==> '0' <= #[trigger] s[k] && s[k] <= '9',
    ensures
        0 <= decimal_value(s),
    decreases s.len(),
{
    if s.len() > 0 {
        lemma_decimal_nonneg(s.drop_last());
    }
}

/// An `i64` written in decimal with an optional sign.
pub fn parse_i64(s: &str) -> (r: Option<i64>)
    ensures
        r == i64_of_text(s@),
{
    let n = s.unicode_len();
    if n == 0 {
        return None;
    }
    let first = s.get_char(0);
    let neg = first == '-';
    let start: usize = if first == '-' || first == '+' {
        1
    } else {
        0
    };
    let ghost body = if start == 1 {
        s@.drop_first()
    } else {
        s@
    };
    proof {
        assert(body =~= s@.subrange(start as int, n as int));
    }
    if start == n {
        return None;
    }
    let bound: i128 = 9223372036854775808;
    let mut v: i128 = 0;
    let mut i: usize = start;
    while i < n
        invariant
            n == s@.len(),
            start <= i <= n,
            body == s@.subrange(start as int, n as int),
            n > 0,
            neg == (s@[0] == '-'),
            (start == 1) == (s@[0] == '-' || s@[0] == '+'),
            start == 0 || start == 1,
            bound == 9223372036854775808,
            forall|k: int| start <= k < i ==> '0' <= #[trigger] s@[k] && s@[k] <= '9',
            v == decimal_value(s@.subrange(start as int, i as int)),
            0 <= v <= bound,
        decreases n - i,
    {
        let c = s.get_char(i);
        if c < '0' || c > '9' {
            proof {
                assert(body[i - start] == c);
            }
            return None;
        }
        let d = (c as u32 - '0' as u32) as i128;
        assert(s@.subrange(start as int, i + 1).drop_last() =~= s@.subrange(start as int, i as int));
        if v > (bound - d) / 10 {
            proof {
                assert(v * 10 + d > bound) by (nonlinear_arith)
                    requires
                        v > (bound - d) / 10,
                        0 <= d <= 9,
                        bound == 9223372036854775808,
                ;
                let sub = s@.subrange(start as int, i + 1);
                assert(sub.last() == c);
                assert(decimal_value(sub) == v * 10 + d);
                if all_digits(body) {
                    let j = (i + 1 - start) as int;
                    assert(body.subrange(0, j) =~= sub);
                    lemma_decimal_grows(body, j);
                    assert(decimal_value(body) > bound);
                }
                if start == 1 {
                    assert(s@.drop_first() =~= body);
                } else {
                    assert(s@ =~= body);
                }
                assert(i64_of_text(s@) is None);
            }
            return None;
        }
        v = v * 10 + d;
        i = i + 1;
    }
    proof {
        assert(s@.subrange(start as int, n as int) =~= body);
    }
    if neg {
        Some((0 - v) as i64)
    } else if v > 9223372036854775807 {
        None
    } else {
        Some(v as i64)
    }
}

impl Args {
    /// The configuration with the arguments given on the command line in
    /// place of the file's values: port, host, socket, database URL and
    /// policies path.
    pub fn apply_to(&self, config: &mut OpenLeashConfig)
        ensures
            final(config).server.tcp_port == match self.port {
                Some(p) => p,
                None => old(config).server.tcp_port,
            },
            final(config).server.tcp_host == match self.host {
                Some(h) => h,
                None => old(config).server.tcp_host,
            },
            final(config).server.uds_path == match self.socket {
                Some(x) => x,
                None => old(config).server.uds_path,
            },
            final(config).storage.database_url == match self.database_url {
                Some(x) => x,
                None => old(config).storage.database_url,
            },
            final(config).storage.policies_path == match self.policies {
                Some(x) => Some(x),
                None => old(config).storage.policies_path,
            },
            final(config).backends == old(config).backends,
            final(config).node_bootstrap == old(config).node_bootstrap,
            final(config).telegram == old(config).telegram,
    {
        if let Some(p) = self.port {
            config.server.tcp_port = p;
        }
        if let Some(h) = &self.host {
            config.server.tcp_host = h.clone();
        }
        if let Some(x) = &self.socket {
            config.server.uds_path = x.clone();
        }
        if let Some(x) = &self.database_url {
            config.storage.database_url = x.clone();
        }
        if let Some(x) = &self.policies {
            config.storage.policies_path = Some(x.clone());
        }
    }

    /// The Telegram bot to use: the token from the arguments, else from the
    /// configuration; the chat from the arguments where it is an `i64`, else
    /// from the configuration.
    pub fn telegram_settings(&self, config: &OpenLeashConfig) -> (r: (Option<String>, Option<i64>))
        ensures
            r.0 == match self.telegram_token {
                Some(t) => Some(t),
                None => match config.telegram {
                    Some(tg) => Some(tg.token),
                    None => None,
                },
            },
            r.1 == match (
                match self.telegram_chat_id {
                    Some(c) => i64_of_text(c@),
                    None => None,
                },
                config.telegram,
            ) {
                (Some(c), _) => Some(c),
                (None, Some(tg)) => Some(tg.chat_id),
                (None, None) => None,
            },
    {
        let token = match &self.telegram_token {
            Some(t) => Some(t.clone()),
            None => match &config.telegram {
                Some(tg) => Some(tg.token.clone()),
                None => None,
            },
        };
        let parsed = match &self.telegram_chat_id {
            Some(c) => parse_i64(c.as_str()),
            None => None,
        };
        let chat = match parsed {
            Some(c) => Some(c),
            None => match &config.telegram {
                Some(tg) => Some(tg.chat_id),
                None => None,
            },
        };
        (token, chat)
    }
}

/// A `VAR=secret_id` binding of `leash exec`: the name before the first '='
/// and the secret id after it; an error naming the binding where it has no
/// '='.
pub fn secret_binding(binding: &str) -> (r: Result<(String, String), String>)
    ensures
        !binding@.contains('=') ==> (r matches Err(m) && m@ == "Invalid secret format: "@ + binding@
            + ". Use VAR=secret_id"@),
        binding@.contains('=') ==> (r matches Ok(p) && {
            let k = p.0@.len() as int;
            &&& k < binding@.len()
            &&& binding@[k] == '='
            &&& !p.0@.contains('=')
            &&& p.0@ == binding@.subrange(0, k)
            &&& p.1@ == binding@.subrange(k + 1, binding@.len() as int)
        }),
{
    let n = binding.unicode_len();
    let mut i: usize = 0;
    while i < n
        invariant
            n == binding@.len(),
            i <= n,
            forall|j: int| 0 <= j < i ==> binding@[j] != '=',
        decreases n - i,
    {
        if binding.get_char(i) == '=' {
            let name = String::from_str(binding.substring_char(0, i));
            let id = String::from_str(binding.substring_char(i + 1, n));
            proof {
                assert(binding@.contains('='));
                assert forall|j: int| 0 <= j < name@.len() implies name@[j] != '=' by {
                    assert(name@[j] == binding@[j]);
                }
            }
            return Ok((name, id));
        }
        i = i + 1;
    }
    Err(join3("Invalid secret format: ", binding, ". Use VAR=secret_id"))
}

/// Whether an answer to a yes/no prompt says yes: once trimmed and put in
/// lower case, it is "y".
pub open spec fn says_yes(answer: Seq<char>) -> bool {
    lowercase_text(trim_text(answer)) == "y"@
}

/// Whether `answer` says yes.
pub fn answers_yes(answer: &str) -> (r: bool)
    ensures
        r == says_yes(answer@),
{
    let t = trim(answer);
    let l = to_lowercase(t.as_str());
    same_text(l.as_str(), "y")
}

/// The configuration after the Telegram step of `leash init`: where the
/// trimmed chat id is an `i64`, the Telegram backend is switched on with the
/// trimmed token and that chat; otherwise nothing changes. Says whether
/// Telegram was configured.
pub fn configure_telegram(config: &mut OpenLeashConfig, token: &str, chat_id: &str) -> (r: bool)
    ensures
        r == i64_of_text(trim_text(chat_id@)).is_some(),
        r ==> {
            &&& final(config).backends.telegram.enabled
            &&& final(config).telegram matches Some(tg) && tg.token@ == trim_text(token@) && Some(
                tg.chat_id,
            ) == i64_of_text(trim_text(chat_id@))
            &&& final(config).server == old(config).server
            &&& final(config).storage == old(config).storage
            &&& final(config).node_bootstrap == old(config).node_bootstrap
            &&& final(config).backends.pip == old(config).backends.pip
            &&& final(config).backends.npm == old(config).backends.npm
            &&& final(config).backends.brew == old(config).backends.brew
            &&& final(config).backends.keychain == old(config).backends.keychain
        },
        !r ==> *final(config) == *old(config),
{
    let c = trim(chat_id);
    match parse_i64(c.as_str()) {
        Some(id) => {
            config.backends.telegram.enabled = true;
            config.telegram = Some(TelegramConfig { token: trim(token), chat_id: id });
            true
        },
        None => false,
    }
}

/// The sandbox templates, by name.
pub open spec fn profile_of_name(name: Seq<char>) -> Option<(SandboxLevel, NetworkMode)> {
    if name == "permissive-open"@ {
        Some((SandboxLevel::Permissive, NetworkMode::Open))
    } else if name == "permissive-closed"@ {
        Some((SandboxLevel::Permissive, NetworkMode::Closed))
    } else if name == "restrictive-open"@ {
        Some((SandboxLevel::Restrictive, NetworkMode::Open))
    } else if name == "restrictive-closed"@ {
        Some((SandboxLevel::Restrictive, NetworkMode::Closed))
    } else {
        None
    }
}

/// The level and network mode of a sandbox template.
pub fn profile_named(name: &str) -> (r: Option<(SandboxLevel, NetworkMode)>)
    ensures
        r == profile_of_name(name@),
{
    if same_text(name, "permissive-open") {
        Some((SandboxLevel::Permissive, NetworkMode::Open))
    } else if same_text(name, "permissive-closed") {
        Some((SandboxLevel::Permissive, NetworkMode::Closed))
    } else if same_text(name, "restrictive-open") {
        Some((SandboxLevel::Restrictive, NetworkMode::Open))
    } else if same_text(name, "restrictive-closed") {
        Some((SandboxLevel::Restrictive, NetworkMode::Closed))
    } else {
        None
    }
}

/// The sandbox templates that `leash init` writes, in order.
pub fn sandbox_templates() -> (r: Vec<(&'static str, SandboxLevel, NetworkMode)>)
    ensures
        r@.len() == 4,
        forall|i: int| 0 <= i < 4 ==> profile_of_name((#[trigger] r@[i]).0@) == Some((r@[i].1, r@[i].2)),
        r@[0].0@ == "permissive-open"@,
        r@[1].0@ == "permissive-closed"@,
        r@[2].0@ == "restrictive-open"@,
        r@[3].0@ == "restrictive-closed"@,
{
    proof {
        reveal_strlit("permissive-open");
        reveal_strlit("permissive-closed");
        reveal_strlit("restrictive-open");
        reveal_strlit("restrictive-closed");
        assert("permissive-closed"@[11] != "permissive-open"@[11]);
        assert("restrictive-open"@[0] != "permissive-open"@[0]);
        assert("restrictive-open"@[0] != "permissive-closed"@[0]);
        assert("restrictive-closed"@[0] != "permissive-open"@[0]);
        assert("restrictive-closed"@[0] != "permissive-closed"@[0]);
        assert("restrictive-closed"@[12] != "restrictive-open"@[12]);
    }
    let mut r: Vec<(&'static str, SandboxLevel, NetworkMode)> = Vec::new();
    r.push(("permissive-open", SandboxLevel::Permissive, NetworkMode::Open));
    r.push(("permissive-closed", SandboxLevel::Permissive, NetworkMode::Closed));
    r.push(("restrictive-open", SandboxLevel::Restrictive, NetworkMode::Open));
    r.push(("restrictive-closed", SandboxLevel::Restrictive, NetworkMode::Closed));
    r
}

/// The texts of a list of patterns.
pub open spec fn texts(v: Seq<String>) -> Seq<Seq<char>> {
    v.map_values(|p: String| p@)
}

/// Whether `p` has the given id, resource type, priority, patterns, maximum
/// lifetime, automatic approval and scope.
pub open spec fn policy_is(
    p: Policy,
    id: Seq<char>,
    resource_type: ResourceType,
    priority: i32,
    patterns: Seq<Seq<char>>,
    max_ttl_seconds: u64,
    auto_approve: bool,
    scope: ApprovalScope,
) -> bool {
    &&& p.id@ == id
    &&& p.resource_type == resource_type
    &&& p.priority == priority
    &&& texts(p.allowed_patterns@) == patterns
    &&& p.max_ttl_seconds == max_ttl_seconds
    &&& p.auto_approve == auto_approve
    &&& p.default_scope == scope
}

/// Whether `p` has the given name and description.
pub open spec fn described(p: Policy, name: Seq<char>, description: Seq<char>) -> bool {
    p.name@ == name && (p.description matches Some(d) && d@ == description)
}

pub(crate) fn texts_of(v: Vec<&str>) -> (r: Vec<String>)
    ensures
        texts(r@) == v@.map_values(|s: &str| s@),
{
    let mut r: Vec<String> = Vec::new();
    let n = v.len();
    let mut i: usize = 0;
    while i < n
        invariant
            n == v@.len(),
            i <= n,
            r@.len() == i,
            texts(r@) == v@.subrange(0, i as int).map_values(|s: &str| s@),
        decreases n - i,
    {
        let ghost old_r = r@;
        let item: &str = v[i];
        r.push(String::from_str(item));
        assert(item@ == v@[i as int]@);
        assert(v@.subrange(0, i + 1) =~= v@.subrange(0, i as int).push(v@[i as int]));
        assert forall|j: int| 0 <= j < i + 1 implies texts(r@)[j] == v@.subrange(0, i + 1).map_values(
            |s: &str| s@,
        )[j] by {
            if j < i {
                assert(r@[j] == old_r[j]);
                assert(texts(old_r)[j] == v@.subrange(0, i as int).map_values(|s: &str| s@)[j]);
            }
        }
        assert(texts(r@) =~= v@.subrange(0, i + 1).map_values(|s: &str| s@));
        i = i + 1;
    }
    assert(v@.subrange(0, n as int) =~= v@);
    r
}

fn make_policy(
    id: &str,
    name: &str,
    description: &str,
    resource_type: ResourceType,
    priority: i32,
    patterns: Vec<&str>,
    max_ttl_seconds: u64,
    auto_approve: bool,
) -> (r: Policy)
    ensures
        policy_is(
            r,
            id@,
            resource_type,
            priority,
            patterns@.map_values(|s: &str| s@),
            max_ttl_seconds,
            auto_approve,
            ApprovalScope::Once,
        ),
        described(r, name@, description@),
{
    Policy {
        id: String::from_str(id),
        name: String::from_str(name),
        description: Some(String::from_str(description)),
        resource_type,
        priority,
        allowed_patterns: texts_of(patterns),
        max_ttl_seconds,
        auto_approve,
        default_scope: ApprovalScope::Once,
    }
}

/// The policies `leash init` writes: common safe packages and commands are
/// allowed automatically; with Telegram, every secret needs a human's
/// approval; any other package needs approval too (the last, lowest
/// priority, policy).
pub fn init_policies(telegram_enabled: bool) -> (r: Vec<Policy>)
    ensures
        r@.len() == if telegram_enabled {
            4nat
        } else {
            3nat
        },
        policy_is(
            r@[0],
            "allow-safe-packages"@,
            ResourceType::Package,
            10,
            seq!["requests"@, "six"@, "numpy"@],
            3600,
            true,
            ApprovalScope::Once,
        ),
        policy_is(
            r@[1],
            "allow-safe-commands"@,
            ResourceType::Command,
            10,
            seq!["^ls$"@, "^cat$"@, "^grep$"@, "^echo$"@, "^python3$"@],
            0,
            true,
            ApprovalScope::Once,
        ),
        telegram_enabled ==> policy_is(
            r@[2],
            "telegram-approval-for-secrets"@,
            ResourceType::Secret,
            20,
            seq![".*"@],
            0,
            false,
            ApprovalScope::Once,
        ),
        policy_is(
            r@.last(),
            "deny-all"@,
            ResourceType::Package,
            0,
            seq![".*"@],
            0,
            false,
            ApprovalScope::Once,
        ),
        described(r@[0], "Safe Packages"@, "Allow common safe libraries"@),
        described(r@[1], "Safe Commands"@, "Allow common safe commands"@),
        telegram_enabled ==> described(
            r@[2],
            "Telegram Secret Approval"@,
            "Require Telegram approval for all secrets"@,
        ),
        described(r@.last(), "Deny All"@, "Default deny policy"@),
{
    let mut r: Vec<Policy> = Vec::new();
    let p0 = make_policy(
        "allow-safe-packages",
        "Safe Packages",
        "Allow common safe libraries",
        ResourceType::Package,
        10,
        vec!["requests", "six", "numpy"],
        3600,
        true,
    );
    assert(texts(p0.allowed_patterns@) =~= seq!["requests"@, "six"@, "numpy"@]);
    r.push(p0);
    let p1 = make_policy(
        "allow-safe-commands",
        "Safe Commands",
        "Allow common safe commands",
        ResourceType::Command,
        10,
        vec!["^ls$", "^cat$", "^grep$", "^echo$", "^python3$"],
        0,
        true,
    );
    assert(texts(p1.allowed_patterns@) =~= seq!["^ls$"@, "^cat$"@, "^grep$"@, "^echo$"@, "^python3$"@]);
    r.push(p1);
    if telegram_enabled {
        let p2 = make_policy(
            "telegram-approval-for-secrets",
            "Telegram Secret Approval",
            "Require Telegram approval for all secrets",
            ResourceType::Secret,
            20,
            vec![".*"],
            0,
            false,
        );
        assert(texts(p2.allowed_patterns@) =~= seq![".*"@]);
        r.push(p2);
    }
    let p3 = make_policy(
        "deny-all",
        "Deny All",
        "Default deny policy",
        ResourceType::Package,
        0,
        vec![".*"],
        0,
        false,
    );
    assert(texts(p3.allowed_patterns@) =~= seq![".*"@]);
    r.push(p3);
    r
}

} // verus!
