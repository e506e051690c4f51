//! Command line settings of the crank operator.
use vstd::prelude::*;

verus! {

/// Settings of the crank operator program.
#[derive(Debug)]
pub struct Opt {
    /// RPC endpoint URL.
    pub rpc: String,
    /// Log level - `warn, info, debug, trace` etc.
    pub log_level: String,
    /// Signing keypair + payer.
    pub keypair: String,
    pub cmd: Command,
}

/// What the crank operator program does.
#[derive(Clone, Copy, Debug, PartialEq, Eq, Structural)]
pub enum Command {
    /// Initialize entropy account. Requires admin keypair.
    Init,
    /// Operate the crank. Runs indefinitely.
    OperateCrank,
}

/// The default of the RPC and keypair settings: it stands for "read this
/// setting from the environment".
pub const ENV_FALLBACK: &'static str = "poop";

/// Environment variable that holds the RPC URL when the setting is left at its default.
pub const RPC_ENV_VAR: &'static str = "RPC";

/// Environment variable that holds the keypair path when the setting is left at its default.
pub const KEYPAIR_ENV_VAR: &'static str = "CRANK_OPERATOR_KEYPAIR";

/// Character-wise equality of two strings.
pub fn str_equal(a: &str, b: &str) -> (res: bool)
    ensures
        res <==> a@ == b@,
{
    let n = a.unicode_len();
    if n != b.unicode_len() {
        return false;
    }
    let mut i: usize = 0;
    while i < n
        invariant
            i <= n,
            n == a@.len(),
            n == b@.len(),
            forall|j: int| 0 <= j < i ==> a@[j] == b@[j],
        decreases n - i,
    {
        if a.get_char(i) != b.get_char(i) {
            return false;
        }
        i = i + 1;
    }
    assert(a@ =~= b@);
    true
}

/// Whether a setting is left at its default and so comes from the environment.
pub fn uses_env_fallback(setting: &str) -> (res: bool)
    ensures
        res <==> setting@ == ENV_FALLBACK@,
{
    str_equal(setting, ENV_FALLBACK)
}

/// The value of a setting: the environment's value when the setting is
/// left at its default, the setting itself otherwise.
pub fn resolve_setting(setting: String, from_env: Option<String>) -> (res: Option<String>)
    ensures
        setting@ == ENV_FALLBACK@ ==> res == from_env,
        setting@ != ENV_FALLBACK@ ==> res == Some(setting),
{
    if uses_env_fallback(setting.as_str()) {
        from_env
    } else {
        Some(setting)
    }
}

/// `s` with every occurrence of `from` replaced by `to`, scanning from the
/// left and never overlapping.
pub open spec fn replace_all(s: Seq<char>, from: Seq<char>, to: Seq<char>) -> Seq<char>
    decreases s.len(),
{
    if s.len() == 0 {
        s
    } else if from.len() > 0 && from.len() <= s.len() && s.subrange(0, from.len() as int) == from {
        to + replace_all(s.skip(from.len() as int), from, to)
    } else {
        seq![s[0]] + replace_all(s.drop_first(), from, to)
    }
}

/// The websocket URL of an RPC URL: every `http` becomes `ws`.
pub fn ws_url(rpc_url: &str) -> (res: String)
    ensures
        res@ == replace_all(rpc_url@, "http"@, "ws"@),
{
    proof {
        reveal_strlit("http");
        reveal_strlit("ws");
    }
    let n = rpc_url.unicode_len();
    let mut res = String::new();
    let mut i: usize = 0;
    assert(rpc_url@.skip(0) =~= rpc_url@);
    while i < n
        invariant
            i <= n,
            n == rpc_url@.len(),
            "http"@ == seq!['h', 't', 't', 'p'],
            "ws"@ == seq!['w', 's'],
            res@ + replace_all(rpc_url@.skip(i as int), "http"@, "ws"@) == replace_all(rpc_url@, "http"@, "ws"@),
        decreases n - i,
    {
        let ghost rest = rpc_url@.skip(i as int);
        if n - i >= 4 && rpc_url.get_char(i) == 'h' && rpc_url.get_char(i + 1) == 't'
            && rpc_url.get_char(i + 2) == 't' && rpc_url.get_char(i + 3) == 'p' {
            assert(rest.subrange(0, 4) =~= "http"@);
            assert(rest.skip(4) =~= rpc_url@.skip(i + 4));
            let ghost before = res@;
            res.append("ws");
            assert(replace_all(rest, "http"@, "ws"@) == "ws"@ + replace_all(rest.skip(4), "http"@, "ws"@));
            assert(res@ + replace_all(rpc_url@.skip(i + 4), "http"@, "ws"@)
                =~= before + replace_all(rest, "http"@, "ws"@));
            i = i + 4;
        } else {
            proof {
                if rest.len() >= 4 {
                    assert(rest.subrange(0, 4) != "http"@) by {
                        if rest.subrange(0, 4) == "http"@ {
                            assert(rest.subrange(0, 4)[0] == 'h');
                            assert(rest.subrange(0, 4)[1] == 't');
                            assert(rest.subrange(0, 4)[2] == 't');
                            assert(rest.subrange(0, 4)[3] == 'p');
                        }
                    }
                }
            }
            let ghost before = res@;
            let c = rpc_url.substring_char(i, i + 1);
            res.append(c);
            assert(rest.drop_first() =~= rpc_url@.skip(i + 1));
            assert(c@ =~= seq![rest[0]]);
            assert(replace_all(rest, "http"@, "ws"@) == seq![rest[0]] + replace_all(rest.drop_first(), "http"@, "ws"@));
            assert(res@ + replace_all(rpc_url@.skip(i + 1), "http"@, "ws"@)
                =~= before + replace_all(rest, "http"@, "ws"@));
            i = i + 1;
        }
    }
    res
}

} // verus!
