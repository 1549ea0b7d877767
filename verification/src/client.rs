//! How the client reads the daemon's replies, and where it connects.
use vstd::prelude::*;
use crate::error::{LeashError, LeashErrorView};
use crate::text::{same_text, starts_with};

verus! {

/// The address used where none is configured.
pub open spec fn default_server_address() -> Seq<char> {
    "unix:///tmp/openleash.sock"@
}

/// The daemon's address: `OPENLEASH_SERVER` where it is set, else
/// `OPENLEASH_DAEMON_URL`, else the default Unix socket.
pub fn server_address(openleash_server: Option<String>, daemon_url: Option<String>) -> (r: String)
    ensures
        openleash_server matches Some(s) ==> r == s,
        openleash_server is None && daemon_url is Some ==> r == daemon_url.unwrap(),
        openleash_server is None && daemon_url is None ==> r@ == default_server_address(),
{
    match openleash_server {
        Some(s) => s,
        None => match daemon_url {
            Some(u) => u,
            None => String::from_str("unix:///tmp/openleash.sock"),
        },
    }
}

/// `s` with every occurrence of `pat` removed, scanning left to right (what
/// `str::replace(pat, "")` returns).
pub open spec fn remove_all(s: Seq<char>, pat: Seq<char>) -> Seq<char>
    decreases s.len(),
{
    if s.len() == 0 {
        s
    } else if pat.len() > 0 && pat.len() <= s.len() && s.subrange(0, pat.len() as int) == pat {
        remove_all(s.subrange(pat.len() as int, s.len() as int), pat)
    } else {
        seq![s[0]] + remove_all(s.drop_first(), pat)
    }
}

/// The prefix of a Unix-socket address.
pub open spec fn unix_scheme() -> Seq<char> {
    "unix://"@
}

/// The socket path of a Unix-socket address: the address without any
/// "unix://"; `None` for an address of another kind.
pub fn socket_path(address: &str) -> (r: Option<String>)
    ensures
        r is Some <==> (unix_scheme().len() <= address@.len() && address@.subrange(0, unix_scheme().len() as int)
            == unix_scheme()),
        r matches Some(p) ==> p@ == remove_all(address@, unix_scheme()),
{
    if !starts_with(address, "unix://") {
        return None;
    }
    let n = address.unicode_len();
    let pat = "unix://";
    let m = pat.unicode_len();
    let mut out = String::new();
    let mut i: usize = 0;
    proof {
        reveal_strlit("unix://");
        assert(address@.subrange(0, n as int) =~= address@);
    }
    while i < n
        invariant
            n == address@.len(),
            m == pat@.len(),
            m == 7,
            pat@ == unix_scheme(),
            i <= n,
            out@ + remove_all(address@.subrange(i as int, n as int), pat@) == remove_all(address@, pat@),
        decreases n - i,
    {
        let ghost rest = address@.subrange(i as int, n as int);
        let hit = m <= n - i && same_text(address.substring_char(i, i + m), pat);
        if hit {
            assert(rest.subrange(0, m as int) =~= address@.subrange(i as int, i + m));
            assert(rest.subrange(m as int, rest.len() as int) =~= address@.subrange(i + m, n as int));
            i = i + m;
        } else {
            assert(!(m <= rest.len() && rest.subrange(0, m as int) == pat@)) by {
                if m <= rest.len() {
                    assert(rest.subrange(0, m as int) =~= address@.subrange(i as int, i + m));
                }
            }
            let c = address.substring_char(i, i + 1);
            assert(rest.drop_first() =~= address@.subrange(i + 1, n as int));
            assert(c@ =~= seq![rest[0]]);
            out.append(c);
            assert(out@ + remove_all(address@.subrange(i + 1, n as int), pat@) =~= remove_all(address@, pat@));
            i = i + 1;
        }
    }
    proof {
        assert(address@.subrange(n as int, n as int) =~= Seq::<char>::empty());
        assert(out@ =~= remove_all(address@, pat@));
    }
    Some(out)
}

/// The reply to a package request read by the client: the lease id where the
/// package was installed ("EXECUTED" or "AUTO_APPROVED"), the daemon's message
/// as a backend error otherwise.
pub fn package_reply(status: &str, lease_id: String, error_message: String) -> (r: Result<String, LeashError>)
    ensures
        (status@ == "EXECUTED"@ || status@ == "AUTO_APPROVED"@) ==> r == Ok::<String, LeashError>(lease_id),
        !(status@ == "EXECUTED"@ || status@ == "AUTO_APPROVED"@) ==> (r matches Err(e) && e@
            == LeashErrorView::Backend(error_message@)),
{
    if same_text(status, "EXECUTED") || same_text(status, "AUTO_APPROVED") {
        Ok(lease_id)
    } else {
        Err(LeashError::Backend(error_message))
    }
}

/// The reply to a secret request read by the client: the value where it was
/// granted, a permission error with the daemon's message otherwise.
pub fn secret_reply(status: &str, value: String, error_message: String) -> (r: Result<String, LeashError>)
    ensures
        status@ == "GRANTED"@ ==> r == Ok::<String, LeashError>(value),
        status@ != "GRANTED"@ ==> (r matches Err(e) && e@ == LeashErrorView::PermissionDenied(error_message@)),
{
    if same_text(status, "GRANTED") {
        Ok(value)
    } else {
        Err(LeashError::PermissionDenied(error_message))
    }
}

/// The reply to a store request read by the client.
pub fn store_reply(success: bool, error_message: String) -> (r: Result<(), LeashError>)
    ensures
        success ==> r is Ok,
        !success ==> (r matches Err(e) && e@ == LeashErrorView::Backend(error_message@)),
{
    if success {
        Ok(())
    } else {
        Err(LeashError::Backend(error_message))
    }
}

/// The reply to a task-environment request read by the client: the
/// executables directory and scope, unless the daemon sent a message.
pub fn environment_reply(bin_path: String, scope_path: String, error_message: String) -> (r: Result<(String, String), LeashError>)
    ensures
        error_message@.len() == 0 ==> (r matches Ok(p) && p.0 == bin_path && p.1 == scope_path),
        error_message@.len() > 0 ==> (r matches Err(e) && e@ == LeashErrorView::Backend(error_message@)),
{
    if error_message.as_str().unicode_len() > 0 {
        Err(LeashError::Backend(error_message))
    } else {
        Ok((bin_path, scope_path))
    }
}

} // verus!
