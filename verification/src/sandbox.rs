//! Sandbox profiles (SBPL, the language of macOS `sandbox-exec`) for the
//! subprocess that runs in a worktree.
//!
//! The profile allows reading everything except the `deny_read` paths,
//! denies writes except to the mount path, the temp directories, `/dev` and
//! the `allow_write` paths, allows process execution, and restricts the
//! network according to the configured mode.
use vstd::prelude::*;

use crate::config::{expand_tilde, expand_tilde_spec, opt_view, NetworkMode, SandboxConfig};
use crate::text::{chars_to_string, contains_seq, occurs_at, push_str};

verus! {

/// A rule that denies reading below `path`.
pub open spec fn deny_read_rule(path: Seq<char>) -> Seq<char> {
    "(deny file-read* (subpath \""@ + path + "\"))\n"@
}

/// A rule that allows writing below `path`.
pub open spec fn allow_write_rule(path: Seq<char>) -> Seq<char> {
    "(allow file-write* (subpath \""@ + path + "\"))\n"@
}

/// A rule that allows network traffic with `host`, on any port.
pub open spec fn allow_host_rule(host: Seq<char>) -> Seq<char> {
    "(allow network* (remote ip \""@ + host + ":*\"))\n"@
}

/// The deny rules for the configured paths, each with `~` expanded.
pub open spec fn deny_read_rules(paths: Seq<String>, home: Option<Seq<char>>) -> Seq<char>
    decreases paths.len(),
{
    if paths.len() == 0 {
        Seq::empty()
    } else {
        deny_read_rules(paths.drop_last(), home) + deny_read_rule(
            expand_tilde_spec(paths.last()@, home),
        )
    }
}

/// The write rules for the configured paths, each with `~` expanded.
pub open spec fn allow_write_rules(paths: Seq<String>, home: Option<Seq<char>>) -> Seq<char>
    decreases paths.len(),
{
    if paths.len() == 0 {
        Seq::empty()
    } else {
        allow_write_rules(paths.drop_last(), home) + allow_write_rule(
            expand_tilde_spec(paths.last()@, home),
        )
    }
}

/// The network rules for the configured hosts.
pub open spec fn allow_host_rules(hosts: Seq<String>) -> Seq<char>
    decreases hosts.len(),
{
    if hosts.len() == 0 {
        Seq::empty()
    } else {
        allow_host_rules(hosts.drop_last()) + allow_host_rule(hosts.last()@)
    }
}

/// The opening of every profile: version, default allows, reading allowed.
pub open spec fn profile_head() -> Seq<char> {
    "(version 1)\n\n; Default allows\n(allow default)\n\n; Allow reading everything by default\n(allow file-read*)\n\n"@
}

/// The section that denies reads, empty when no path is configured.
pub open spec fn deny_read_section(paths: Seq<String>, home: Option<Seq<char>>) -> Seq<char> {
    if paths.len() == 0 {
        Seq::empty()
    } else {
        "; Deny reads to sensitive paths (from deny_read config)\n"@ + deny_read_rules(paths, home)
            + "\n"@
    }
}

/// The section that denies writes and allows them to the mount path.
pub open spec fn mount_section(mount_path: Seq<char>) -> Seq<char> {
    "; Deny writes by default\n(deny file-write*)\n\n; Allow writes to mount path\n"@
        + allow_write_rule(mount_path) + "\n"@
}

/// The writes that every profile allows: temp directories and `/dev`.
pub open spec fn fixed_writes() -> Seq<char> {
    "; Allow writes to temp directories\n(allow file-write* (subpath \"/tmp\"))\n(allow file-write* (subpath \"/private/tmp\"))\n(allow file-write* (subpath \"/var/folders\"))\n\n; Allow writes to /dev for terminal and device access\n(allow file-write* (subpath \"/dev\"))\n\n"@
}

/// The section that allows further writes, empty when no path is configured.
pub open spec fn allow_write_section(paths: Seq<String>, home: Option<Seq<char>>) -> Seq<char> {
    if paths.len() == 0 {
        Seq::empty()
    } else {
        "; Allow additional user-specified write paths\n"@ + allow_write_rules(paths, home)
            + "\n"@
    }
}

/// Process execution, and the heading of the network rules.
pub open spec fn process_section() -> Seq<char> {
    "; Allow process execution\n(allow process-exec*)\n(allow process-fork)\n\n; Network rules\n"@
}

/// The network rules of a mode.
pub open spec fn network_section(mode: NetworkMode, hosts: Seq<String>) -> Seq<char> {
    match mode {
        NetworkMode::Allow => "; Network mode: allow (no restrictions)\n(allow network*)\n"@,
        NetworkMode::Localhost => "; Network mode: localhost (only localhost + allow_hosts)\n(deny network*)\n(allow network* (remote ip \"localhost:*\"))\n(allow network* (remote ip \"127.0.0.1:*\"))\n(allow network* (remote ip \"::1:*\"))\n(allow network* (local unix-socket))\n(allow network* (remote unix-socket))\n"@
            + allow_host_rules(hosts),
        NetworkMode::Deny => "; Network mode: deny (only allow_hosts)\n(deny network*)\n(allow network* (local unix-socket))\n(allow network* (remote unix-socket))\n"@
            + allow_host_rules(hosts),
    }
}

/// The whole profile for a configuration, a mount path and the home directory.
pub open spec fn sbpl_profile(
    config: SandboxConfig,
    mount_path: Seq<char>,
    home: Option<Seq<char>>,
) -> Seq<char> {
    profile_head() + deny_read_section(config.deny_read@, home) + mount_section(mount_path)
        + fixed_writes() + allow_write_section(config.allow_write@, home) + process_section()
        + network_section(config.network.mode, config.network.allow_hosts@)
}

/// A sequence found in `b` is found in `a + b + c`.
proof fn lemma_contains_in_middle(a: Seq<char>, b: Seq<char>, c: Seq<char>, p: Seq<char>)
    requires
        contains_seq(b, p),
    ensures
        contains_seq(a + b + c, p),
{
    let i = choose|i: int| occurs_at(b, p, i);
    let s = a + b + c;
    assert(s.subrange(a.len() + i, a.len() + i + p.len()) =~= b.subrange(i, i + p.len()));
    assert(occurs_at(s, p, a.len() + i));
}

/// A sequence occurs in itself.
proof fn lemma_contains_self(p: Seq<char>)
    ensures
        contains_seq(p, p),
{
    assert(p.subrange(0, p.len() as int) =~= p);
    assert(occurs_at(p, p, 0));
}

/// The deny rules hold a rule for each configured path.
proof fn lemma_deny_rules_contain(paths: Seq<String>, home: Option<Seq<char>>, k: int)
    requires
        0 <= k < paths.len(),
    ensures
        contains_seq(
            deny_read_rules(paths, home),
            deny_read_rule(expand_tilde_spec(paths[k]@, home)),
        ),
    decreases paths.len(),
{
    let rule = deny_read_rule(expand_tilde_spec(paths[k]@, home));
    let prev = deny_read_rules(paths.drop_last(), home);
    if k == paths.len() - 1 {
        lemma_contains_self(rule);
        lemma_contains_in_middle(prev, rule, Seq::empty(), rule);
        assert(prev + rule + Seq::<char>::empty() =~= deny_read_rules(paths, home));
    } else {
        lemma_deny_rules_contain(paths.drop_last(), home, k);
        let last = deny_read_rule(expand_tilde_spec(paths.last()@, home));
        lemma_contains_in_middle(Seq::empty(), prev, last, rule);
        assert(Seq::<char>::empty() + prev + last =~= deny_read_rules(paths, home));
    }
}

/// The write rules hold a rule for each configured path.
proof fn lemma_write_rules_contain(paths: Seq<String>, home: Option<Seq<char>>, k: int)
    requires
        0 <= k < paths.len(),
    ensures
        contains_seq(
            allow_write_rules(paths, home),
            allow_write_rule(expand_tilde_spec(paths[k]@, home)),
        ),
    decreases paths.len(),
{
    let rule = allow_write_rule(expand_tilde_spec(paths[k]@, home));
    let prev = allow_write_rules(paths.drop_last(), home);
    if k == paths.len() - 1 {
        lemma_contains_self(rule);
        lemma_contains_in_middle(prev, rule, Seq::empty(), rule);
        assert(prev + rule + Seq::<char>::empty() =~= allow_write_rules(paths, home));
    } else {
        lemma_write_rules_contain(paths.drop_last(), home, k);
        let last = allow_write_rule(expand_tilde_spec(paths.last()@, home));
        lemma_contains_in_middle(Seq::empty(), prev, last, rule);
        assert(Seq::<char>::empty() + prev + last =~= allow_write_rules(paths, home));
    }
}

/// The host rules hold a rule for each configured host.
proof fn lemma_host_rules_contain(hosts: Seq<String>, k: int)
    requires
        0 <= k < hosts.len(),
    ensures
        contains_seq(allow_host_rules(hosts), allow_host_rule(hosts[k]@)),
    decreases hosts.len(),
{
    let rule = allow_host_rule(hosts[k]@);
    let prev = allow_host_rules(hosts.drop_last());
    if k == hosts.len() - 1 {
        lemma_contains_self(rule);
        lemma_contains_in_middle(prev, rule, Seq::empty(), rule);
        assert(prev + rule + Seq::<char>::empty() =~= allow_host_rules(hosts));
    } else {
        lemma_host_rules_contain(hosts.drop_last(), k);
        let last = allow_host_rule(hosts.last()@);
        lemma_contains_in_middle(Seq::empty(), prev, last, rule);
        assert(Seq::<char>::empty() + prev + last =~= allow_host_rules(hosts));
    }
}

/// Every profile allows writes below the mount path.
pub proof fn lemma_profile_allows_mount_writes(
    config: SandboxConfig,
    mount_path: Seq<char>,
    home: Option<Seq<char>>,
)
    ensures
        contains_seq(sbpl_profile(config, mount_path, home), allow_write_rule(mount_path)),
{
    let rule = allow_write_rule(mount_path);
    let a = profile_head() + deny_read_section(config.deny_read@, home)
        + "; Deny writes by default\n(deny file-write*)\n\n; Allow writes to mount path\n"@;
    let c = "\n"@ + fixed_writes() + allow_write_section(config.allow_write@, home)
        + process_section() + network_section(config.network.mode, config.network.allow_hosts@);
    lemma_contains_self(rule);
    lemma_contains_in_middle(a, rule, c, rule);
    assert(a + rule + c =~= sbpl_profile(config, mount_path, home));
}

/// Every path in `deny_read` is denied for reading, with `~` expanded.
pub proof fn lemma_profile_denies_configured_reads(
    config: SandboxConfig,
    mount_path: Seq<char>,
    home: Option<Seq<char>>,
    k: int,
)
    requires
        0 <= k < config.deny_read@.len(),
    ensures
        contains_seq(
            sbpl_profile(config, mount_path, home),
            deny_read_rule(expand_tilde_spec(config.deny_read@[k]@, home)),
        ),
{
    let rule = deny_read_rule(expand_tilde_spec(config.deny_read@[k]@, home));
    let b = deny_read_rules(config.deny_read@, home);
    let a = profile_head() + "; Deny reads to sensitive paths (from deny_read config)\n"@;
    let c = "\n"@ + mount_section(mount_path) + fixed_writes() + allow_write_section(
        config.allow_write@,
        home,
    ) + process_section() + network_section(config.network.mode, config.network.allow_hosts@);
    lemma_deny_rules_contain(config.deny_read@, home, k);
    lemma_contains_in_middle(a, b, c, rule);
    assert(a + b + c =~= sbpl_profile(config, mount_path, home));
}

/// Every path in `allow_write` is allowed for writing, with `~` expanded.
pub proof fn lemma_profile_allows_configured_writes(
    config: SandboxConfig,
    mount_path: Seq<char>,
    home: Option<Seq<char>>,
    k: int,
)
    requires
        0 <= k < config.allow_write@.len(),
    ensures
        contains_seq(
            sbpl_profile(config, mount_path, home),
            allow_write_rule(expand_tilde_spec(config.allow_write@[k]@, home)),
        ),
{
    let rule = allow_write_rule(expand_tilde_spec(config.allow_write@[k]@, home));
    let b = allow_write_rules(config.allow_write@, home);
    let a = profile_head() + deny_read_section(config.deny_read@, home) + mount_section(
        mount_path,
    ) + fixed_writes() + "; Allow additional user-specified write paths\n"@;
    let c = "\n"@ + process_section() + network_section(
        config.network.mode,
        config.network.allow_hosts@,
    );
    lemma_write_rules_contain(config.allow_write@, home, k);
    lemma_contains_in_middle(a, b, c, rule);
    assert(a + b + c =~= sbpl_profile(config, mount_path, home));
}

/// Outside the `allow` mode, every host in `allow_hosts` is allowed.
pub proof fn lemma_profile_allows_configured_hosts(
    config: SandboxConfig,
    mount_path: Seq<char>,
    home: Option<Seq<char>>,
    k: int,
)
    requires
        config.network.mode != NetworkMode::Allow,
        0 <= k < config.network.allow_hosts@.len(),
    ensures
        contains_seq(
            sbpl_profile(config, mount_path, home),
            allow_host_rule(config.network.allow_hosts@[k]@),
        ),
{
    let hosts = config.network.allow_hosts@;
    let rule = allow_host_rule(hosts[k]@);
    let b = allow_host_rules(hosts);
    let intro = network_section(config.network.mode, Seq::empty());
    assert(allow_host_rules(Seq::<String>::empty()) =~= Seq::<char>::empty());
    assert(network_section(config.network.mode, hosts) =~= intro + b);
    let a = profile_head() + deny_read_section(config.deny_read@, home) + mount_section(
        mount_path,
    ) + fixed_writes() + allow_write_section(config.allow_write@, home) + process_section()
        + intro;
    lemma_host_rules_contain(hosts, k);
    lemma_contains_in_middle(a, b, Seq::empty(), rule);
    assert(a + b + Seq::<char>::empty() =~= sbpl_profile(config, mount_path, home));
}

// ---------------------------------------------------------------------------
// The order of the rules
// ---------------------------------------------------------------------------

/// `later` occurs in `s` after an occurrence of `earlier` (at or past its
/// end). SBPL lets a later rule override an earlier one, so an allow rule
/// takes effect over a blanket deny only when it comes after it.
pub open spec fn occurs_after(s: Seq<char>, earlier: Seq<char>, later: Seq<char>) -> bool {
    exists|i: int, j: int|
        occurs_at(s, earlier, i) && occurs_at(s, later, j) && i + earlier.len() <= j
}

/// The rule that denies every write.
pub open spec fn deny_all_writes() -> Seq<char> {
    "(deny file-write*)"@
}

/// The rule that allows every read.
pub open spec fn allow_all_reads() -> Seq<char> {
    "(allow file-read*)"@
}

/// `p` followed, past `b`, by a text holding `q`: `q` occurs after `p`.
proof fn lemma_occurs_after(
    a: Seq<char>,
    p: Seq<char>,
    b: Seq<char>,
    y: Seq<char>,
    c: Seq<char>,
    q: Seq<char>,
)
    requires
        contains_seq(y, q),
    ensures
        occurs_after(a + p + b + y + c, p, q),
{
    let s = a + p + b + y + c;
    assert(s.subrange(a.len() as int, (a.len() + p.len()) as int) =~= p);
    assert(occurs_at(s, p, a.len() as int));
    let i = choose|i: int| occurs_at(y, q, i);
    let off = a.len() + p.len() + b.len();
    assert(s.subrange(off + i, off + i + q.len()) =~= y.subrange(i, i + q.len()));
    assert(occurs_at(s, q, off + i));
}

/// The section that denies writes, split around its blanket deny.
proof fn lemma_mount_section_parts(mount_path: Seq<char>)
    ensures
        mount_section(mount_path) == "; Deny writes by default\n"@ + deny_all_writes()
            + "\n\n; Allow writes to mount path\n"@ + allow_write_rule(mount_path) + "\n"@,
{
    reveal_strlit("; Deny writes by default\n(deny file-write*)\n\n; Allow writes to mount path\n");
    reveal_strlit("; Deny writes by default\n");
    reveal_strlit("(deny file-write*)");
    reveal_strlit("\n\n; Allow writes to mount path\n");
    assert("; Deny writes by default\n(deny file-write*)\n\n; Allow writes to mount path\n"@
        =~= "; Deny writes by default\n"@ + "(deny file-write*)"@
        + "\n\n; Allow writes to mount path\n"@);
}

/// The opening of the profile, split around the rule that allows reads.
proof fn lemma_head_parts()
    ensures
        profile_head() == "(version 1)\n\n; Default allows\n(allow default)\n\n; Allow reading everything by default\n"@
            + allow_all_reads() + "\n\n"@,
{
    reveal_strlit("(version 1)\n\n; Default allows\n(allow default)\n\n; Allow reading everything by default\n(allow file-read*)\n\n");
    reveal_strlit("(version 1)\n\n; Default allows\n(allow default)\n\n; Allow reading everything by default\n");
    reveal_strlit("(allow file-read*)");
    reveal_strlit("\n\n");
    assert("(version 1)\n\n; Default allows\n(allow default)\n\n; Allow reading everything by default\n(allow file-read*)\n\n"@
        =~= "(version 1)\n\n; Default allows\n(allow default)\n\n; Allow reading everything by default\n"@
        + "(allow file-read*)"@ + "\n\n"@);
}

/// Every configured write path is allowed after the blanket deny of
/// writes, so the allow takes effect: the path is writable in the sandbox.
pub proof fn lemma_configured_writes_follow_the_deny(
    config: SandboxConfig,
    mount_path: Seq<char>,
    home: Option<Seq<char>>,
    k: int,
)
    requires
        0 <= k < config.allow_write@.len(),
    ensures
        occurs_after(
            sbpl_profile(config, mount_path, home),
            deny_all_writes(),
            allow_write_rule(expand_tilde_spec(config.allow_write@[k]@, home)),
        ),
{
    let rule = allow_write_rule(expand_tilde_spec(config.allow_write@[k]@, home));
    lemma_mount_section_parts(mount_path);
    lemma_write_rules_contain(config.allow_write@, home, k);
    lemma_contains_in_middle(
        "; Allow additional user-specified write paths\n"@,
        allow_write_rules(config.allow_write@, home),
        "\n"@,
        rule,
    );
    let a = profile_head() + deny_read_section(config.deny_read@, home)
        + "; Deny writes by default\n"@;
    let b = "\n\n; Allow writes to mount path\n"@ + allow_write_rule(mount_path) + "\n"@
        + fixed_writes();
    let y = allow_write_section(config.allow_write@, home);
    let c = process_section() + network_section(config.network.mode, config.network.allow_hosts@);
    lemma_occurs_after(a, deny_all_writes(), b, y, c, rule);
    assert(a + deny_all_writes() + b + y + c =~= sbpl_profile(config, mount_path, home));
}

/// The mount path is allowed after the blanket deny of writes.
pub proof fn lemma_mount_write_follows_the_deny(
    config: SandboxConfig,
    mount_path: Seq<char>,
    home: Option<Seq<char>>,
)
    ensures
        occurs_after(
            sbpl_profile(config, mount_path, home),
            deny_all_writes(),
            allow_write_rule(mount_path),
        ),
{
    let rule = allow_write_rule(mount_path);
    lemma_mount_section_parts(mount_path);
    lemma_contains_self(rule);
    let a = profile_head() + deny_read_section(config.deny_read@, home)
        + "; Deny writes by default\n"@;
    let b = "\n\n; Allow writes to mount path\n"@;
    let c = "\n"@ + fixed_writes() + allow_write_section(config.allow_write@, home)
        + process_section() + network_section(config.network.mode, config.network.allow_hosts@);
    lemma_occurs_after(a, deny_all_writes(), b, rule, c, rule);
    assert(a + deny_all_writes() + b + rule + c =~= sbpl_profile(config, mount_path, home));
}

/// Every configured read denial comes after the rule that allows all
/// reads, so the denial takes effect: the path is not readable.
pub proof fn lemma_read_denials_follow_the_allow(
    config: SandboxConfig,
    mount_path: Seq<char>,
    home: Option<Seq<char>>,
    k: int,
)
    requires
        0 <= k < config.deny_read@.len(),
    ensures
        occurs_after(
            sbpl_profile(config, mount_path, home),
            allow_all_reads(),
            deny_read_rule(expand_tilde_spec(config.deny_read@[k]@, home)),
        ),
{
    let rule = deny_read_rule(expand_tilde_spec(config.deny_read@[k]@, home));
    lemma_head_parts();
    lemma_deny_rules_contain(config.deny_read@, home, k);
    lemma_contains_in_middle(
        "; Deny reads to sensitive paths (from deny_read config)\n"@,
        deny_read_rules(config.deny_read@, home),
        "\n"@,
        rule,
    );
    let a = "(version 1)\n\n; Default allows\n(allow default)\n\n; Allow reading everything by default\n"@;
    let b = "\n\n"@;
    let y = deny_read_section(config.deny_read@, home);
    let c = mount_section(mount_path) + fixed_writes() + allow_write_section(
        config.allow_write@,
        home,
    ) + process_section() + network_section(config.network.mode, config.network.allow_hosts@);
    lemma_occurs_after(a, allow_all_reads(), b, y, c, rule);
    assert(a + allow_all_reads() + b + y + c =~= sbpl_profile(config, mount_path, home));
}

/// The rule that denies all network traffic.
pub open spec fn deny_all_network() -> Seq<char> {
    "(deny network*)"@
}

/// Outside the `allow` mode, the network rules split around their blanket
/// deny: what comes after it is the fixed allowances and the host rules.
proof fn lemma_network_parts(mode: NetworkMode, hosts: Seq<String>) -> (parts: (Seq<char>, Seq<char>))
    requires
        mode != NetworkMode::Allow,
    ensures
        network_section(mode, hosts) == parts.0 + deny_all_network() + parts.1 + allow_host_rules(
            hosts,
        ),
{
    reveal_strlit("(deny network*)");
    if mode == NetworkMode::Localhost {
        reveal_strlit("; Network mode: localhost (only localhost + allow_hosts)\n(deny network*)\n(allow network* (remote ip \"localhost:*\"))\n(allow network* (remote ip \"127.0.0.1:*\"))\n(allow network* (remote ip \"::1:*\"))\n(allow network* (local unix-socket))\n(allow network* (remote unix-socket))\n");
        reveal_strlit("; Network mode: localhost (only localhost + allow_hosts)\n");
        reveal_strlit("\n(allow network* (remote ip \"localhost:*\"))\n(allow network* (remote ip \"127.0.0.1:*\"))\n(allow network* (remote ip \"::1:*\"))\n(allow network* (local unix-socket))\n(allow network* (remote unix-socket))\n");
        let a = "; Network mode: localhost (only localhost + allow_hosts)\n"@;
        let b = "\n(allow network* (remote ip \"localhost:*\"))\n(allow network* (remote ip \"127.0.0.1:*\"))\n(allow network* (remote ip \"::1:*\"))\n(allow network* (local unix-socket))\n(allow network* (remote unix-socket))\n"@;
        assert("; Network mode: localhost (only localhost + allow_hosts)\n(deny network*)\n(allow network* (remote ip \"localhost:*\"))\n(allow network* (remote ip \"127.0.0.1:*\"))\n(allow network* (remote ip \"::1:*\"))\n(allow network* (local unix-socket))\n(allow network* (remote unix-socket))\n"@
            =~= a + "(deny network*)"@ + b);
        (a, b)
    } else {
        reveal_strlit("; Network mode: deny (only allow_hosts)\n(deny network*)\n(allow network* (local unix-socket))\n(allow network* (remote unix-socket))\n");
        reveal_strlit("; Network mode: deny (only allow_hosts)\n");
        reveal_strlit("\n(allow network* (local unix-socket))\n(allow network* (remote unix-socket))\n");
        let a = "; Network mode: deny (only allow_hosts)\n"@;
        let b = "\n(allow network* (local unix-socket))\n(allow network* (remote unix-socket))\n"@;
        assert("; Network mode: deny (only allow_hosts)\n(deny network*)\n(allow network* (local unix-socket))\n(allow network* (remote unix-socket))\n"@
            =~= a + "(deny network*)"@ + b);
        (a, b)
    }
}

/// Outside the `allow` mode, every configured host is allowed after the
/// blanket deny of network traffic, so traffic with it is allowed.
pub proof fn lemma_configured_hosts_follow_the_deny(
    config: SandboxConfig,
    mount_path: Seq<char>,
    home: Option<Seq<char>>,
    k: int,
)
    requires
        config.network.mode != NetworkMode::Allow,
        0 <= k < config.network.allow_hosts@.len(),
    ensures
        occurs_after(
            sbpl_profile(config, mount_path, home),
            deny_all_network(),
            allow_host_rule(config.network.allow_hosts@[k]@),
        ),
{
    let hosts = config.network.allow_hosts@;
    let rule = allow_host_rule(hosts[k]@);
    let parts = lemma_network_parts(config.network.mode, hosts);
    lemma_host_rules_contain(hosts, k);
    let a = profile_head() + deny_read_section(config.deny_read@, home) + mount_section(
        mount_path,
    ) + fixed_writes() + allow_write_section(config.allow_write@, home) + process_section()
        + parts.0;
    lemma_occurs_after(a, deny_all_network(), parts.1, allow_host_rules(hosts), Seq::empty(), rule);
    assert(a + deny_all_network() + parts.1 + allow_host_rules(hosts) + Seq::<char>::empty()
        =~= sbpl_profile(config, mount_path, home));
}

/// Appends one rule per configured path; `deny` selects read denial over
/// write permission.
fn push_path_rules(out: &mut Vec<char>, paths: &Vec<String>, home: Option<&str>, deny: bool)
    ensures
        deny ==> final(out)@ == old(out)@ + deny_read_rules(paths@, opt_view(home)),
        !deny ==> final(out)@ == old(out)@ + allow_write_rules(paths@, opt_view(home)),
{
    let ghost start = out@;
    let mut i: usize = 0;
    while i < paths.len()
        invariant
            i <= paths.len(),
            deny ==> out@ == start + deny_read_rules(paths@.take(i as int), opt_view(home)),
            !deny ==> out@ == start + allow_write_rules(paths@.take(i as int), opt_view(home)),
        decreases paths.len() - i,
    {
        let expanded = expand_tilde(paths[i].as_str(), home);
        assert(paths@.take(i + 1).drop_last() =~= paths@.take(i as int));
        assert(paths@.take(i + 1).last() == paths@[i as int]);
        if deny {
            push_str(out, "(deny file-read* (subpath \"");
        } else {
            push_str(out, "(allow file-write* (subpath \"");
        }
        push_str(out, expanded.as_str());
        push_str(out, "\"))\n");
        i = i + 1;
    }
    assert(paths@.take(paths.len() as int) =~= paths@);
}

/// Appends one network rule per host.
fn push_host_rules(out: &mut Vec<char>, hosts: &Vec<String>)
    ensures
        final(out)@ == old(out)@ + allow_host_rules(hosts@),
{
    let ghost start = out@;
    let mut i: usize = 0;
    while i < hosts.len()
        invariant
            i <= hosts.len(),
            out@ == start + allow_host_rules(hosts@.take(i as int)),
        decreases hosts.len() - i,
    {
        assert(hosts@.take(i + 1).drop_last() =~= hosts@.take(i as int));
        assert(hosts@.take(i + 1).last() == hosts@[i as int]);
        push_str(out, "(allow network* (remote ip \"");
        push_str(out, hosts[i].as_str());
        push_str(out, ":*\"))\n");
        i = i + 1;
    }
    assert(hosts@.take(hosts.len() as int) =~= hosts@);
}

/// Generates the SBPL profile that `sandbox-exec -p` takes.
///
/// `mount_path` is the mount path as the caller resolved it (symlinks
/// resolved where it exists, since `sandbox-exec` does not resolve them);
/// `home` is the home directory that `~` in the configured paths stands for.
pub fn generate_sbpl_profile(config: &SandboxConfig, mount_path: &str, home: Option<&str>) -> (r:
    String)
    ensures
        r@ == sbpl_profile(*config, mount_path@, opt_view(home)),
{
    let mut out: Vec<char> = Vec::new();
    push_str(
        &mut out,
        "(version 1)\n\n; Default allows\n(allow default)\n\n; Allow reading everything by default\n(allow file-read*)\n\n",
    );
    let ghost s1 = out@;
    assert(s1 == profile_head());
    if config.deny_read.len() > 0 {
        push_str(&mut out, "; Deny reads to sensitive paths (from deny_read config)\n");
        push_path_rules(&mut out, &config.deny_read, home, true);
        push_str(&mut out, "\n");
    }
    let ghost s2 = out@;
    assert(s2 == s1 + deny_read_section(config.deny_read@, opt_view(home)));
    push_str(
        &mut out,
        "; Deny writes by default\n(deny file-write*)\n\n; Allow writes to mount path\n",
    );
    push_str(&mut out, "(allow file-write* (subpath \"");
    push_str(&mut out, mount_path);
    push_str(&mut out, "\"))\n");
    push_str(&mut out, "\n");
    let ghost s3 = out@;
    assert(s3 == s2 + mount_section(mount_path@));
    push_str(
        &mut out,
        "; Allow writes to temp directories\n(allow file-write* (subpath \"/tmp\"))\n(allow file-write* (subpath \"/private/tmp\"))\n(allow file-write* (subpath \"/var/folders\"))\n\n; Allow writes to /dev for terminal and device access\n(allow file-write* (subpath \"/dev\"))\n\n",
    );
    let ghost s4 = out@;
    if config.allow_write.len() > 0 {
        push_str(&mut out, "; Allow additional user-specified write paths\n");
        push_path_rules(&mut out, &config.allow_write, home, false);
        push_str(&mut out, "\n");
    }
    let ghost s5 = out@;
    assert(s5 == s4 + allow_write_section(config.allow_write@, opt_view(home)));
    push_str(
        &mut out,
        "; Allow process execution\n(allow process-exec*)\n(allow process-fork)\n\n; Network rules\n",
    );
    let ghost s6 = out@;
    match config.network.mode {
        NetworkMode::Allow => {
            push_str(&mut out, "; Network mode: allow (no restrictions)\n(allow network*)\n");
        },
        NetworkMode::Localhost => {
            push_str(
                &mut out,
                "; Network mode: localhost (only localhost + allow_hosts)\n(deny network*)\n(allow network* (remote ip \"localhost:*\"))\n(allow network* (remote ip \"127.0.0.1:*\"))\n(allow network* (remote ip \"::1:*\"))\n(allow network* (local unix-socket))\n(allow network* (remote unix-socket))\n",
            );
            push_host_rules(&mut out, &config.network.allow_hosts);
        },
        NetworkMode::Deny => {
            push_str(
                &mut out,
                "; Network mode: deny (only allow_hosts)\n(deny network*)\n(allow network* (local unix-socket))\n(allow network* (remote unix-socket))\n",
            );
            push_host_rules(&mut out, &config.network.allow_hosts);
        },
    }
    assert(out@ == s6 + network_section(config.network.mode, config.network.allow_hosts@));
    chars_to_string(&out)
}

} // verus!
