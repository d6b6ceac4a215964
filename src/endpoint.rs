//! The server endpoint `host:port` and the name presented for TLS.

use vstd::prelude::*;

verus! {

/// The position of the first `c` in `s`, or `s.len()` when there is none.
pub open spec fn first_index(s: Seq<char>, c: char, i: int) -> int
    decreases s.len() - i,
{
    if i < 0 || i >= s.len() {
        s.len() as int
    } else if s[i] == c {
        i
    } else {
        first_index(s, c, i + 1)
    }
}

/// The host part of an endpoint: everything before the first `:`.
pub open spec fn host_of(url: Seq<char>) -> Seq<char> {
    url.subrange(0, first_index(url, ':', 0))
}

/// The name presented in the TLS handshake for an endpoint `host:port`: the
/// full host name (`pool.example.com:3333` gives `pool.example.com`), so
/// that certificates for hosts such as `pool.co.uk` or bare addresses are
/// checked against the name that was dialled. An endpoint with an empty
/// host has no such name.
pub fn tls_host_name(server_url: &str) -> (r: Option<String>)
    ensures
        host_of(server_url@).len() == 0 ==> r is None,
        host_of(server_url@).len() > 0 ==> r is Some && r->Some_0@ == host_of(server_url@),
{
    let n = server_url.unicode_len();
    let mut colon: usize = 0;
    while colon < n && server_url.get_char(colon) != ':'
        invariant
            n == server_url@.len(),
            0 <= colon <= n,
            first_index(server_url@, ':', colon as int) == first_index(server_url@, ':', 0),
        decreases n - colon,
    {
        colon = colon + 1;
    }
    if colon == 0 {
        return None;
    }
    Some(String::from_str(server_url.substring_char(0, colon)))
}

} // verus!
