//! Resolution of the client's address and of the request metadata stored
//! with sessions and audit entries.
//!
//! With no trusted proxy, the TCP peer address is used and
//! `X-Forwarded-For` is ignored entirely: without a trusted proxy in front
//! of the backend, a client could set that header to spoof its address.
//! With `n` trusted proxies, each appends the peer it received the request
//! from, so the real client is the entry `n` positions from the right.
use vstd::prelude::*;
use crate::entities::IpAddress;
use crate::dto::auth::SessionContext;
use crate::text::{chars_of, is_white, lemma_trim_end_clean, lemma_trim_start_clean, split_chars, split_on, string_of,
    trim, trim_end, trim_start, trim_chars};

verus! {

/// The client's IP address, if it could be resolved.
pub struct ClientIp(pub Option<IpAddress>);


/// The entries of an `X-Forwarded-For` header, each trimmed.
pub open spec fn forwarded_chain(header: Seq<char>) -> Seq<Seq<char>> {
    split_on(header, ',').map_values(|e: Seq<char>| trim(e))
}

/// Which address identifies the client.
pub enum ClientEntry {
    /// No proxy is trusted: the TCP peer is the client.
    Peer,
    /// The entry of the forwarding chain that names the client, still to be
    /// read as an address.
    Forwarded(String),
    /// The header is absent, blank, or shorter than the trusted chain.
    Unresolved,
}

/// The entry of the chain that names the client, given the header and the
/// number of trusted proxies. A missing or short chain is unresolved: it
/// never falls back to the peer once a proxy is trusted, since a missing
/// address is honest and a forged one is not.
pub open spec fn client_entry(forwarded_for: Option<Seq<char>>, trusted: nat) -> Option<Option<Seq<char>>> {
    if trusted == 0 {
        None
    } else {
        match forwarded_for {
            None => Some(None),
            Some(h) => {
                let chain = forwarded_chain(h);
                if trim(h).len() == 0 || chain.len() < trusted {
                    Some(None)
                } else {
                    Some(Some(chain[chain.len() - trusted]))
                }
            },
        }
    }
}

impl ClientEntry {
    /// `None` for the peer, `Some(None)` when unresolved, `Some(Some(e))`
    /// for a forwarded entry.
    pub open spec fn view(&self) -> Option<Option<Seq<char>>> {
        match self {
            ClientEntry::Peer => None,
            ClientEntry::Unresolved => Some(None),
            ClientEntry::Forwarded(e) => Some(Some(e@)),
        }
    }
}

/// Picks the entry naming the client out of the forwarding chain.
pub fn select_client_entry(forwarded_for: Option<&str>, trusted: usize) -> (r: ClientEntry)
    ensures
        r.view() == client_entry(
            match forwarded_for { Some(h) => Some(h@), None => None },
            trusted as nat,
        ),
{
    if trusted == 0 {
        return ClientEntry::Peer;
    }
    let header = match forwarded_for {
        Some(h) => h,
        None => return ClientEntry::Unresolved,
    };
    let chars = chars_of(header);
    let trimmed = trim_chars(&chars);
    if trimmed.len() == 0 {
        return ClientEntry::Unresolved;
    }
    let parts = split_chars(&chars, ',');
    let ghost chain = forwarded_chain(header@);
    if parts.len() < trusted {
        return ClientEntry::Unresolved;
    }
    let idx = parts.len() - trusted;
    let entry = trim_chars(&parts[idx]);
    assert(entry@ == chain[chain.len() - trusted]);
    ClientEntry::Forwarded(string_of(&entry))
}

/// The address `s` denotes, as `IpAddr`'s `FromStr` reads it: an IPv4
/// address in dotted-decimal form or an IPv6 address in its text forms,
/// nothing around it. `None` when `s` is not such an address.
pub uninterp spec fn ip_parsed(s: Seq<char>) -> Option<IpAddress>;

/// Calls `str::parse::<core::net::IpAddr>` (the address types and their
/// parser, which `std::net` re-exports) and takes the address as an integer
/// of its family's width. The result is the named `ip_parsed`.
#[verifier::external_body]
fn parse_ip(s: &str) -> (r: Option<IpAddress>)
    ensures
        r == ip_parsed(s@),
{
    match s.parse::<core::net::IpAddr>() {
        Ok(core::net::IpAddr::V4(a)) => Some(IpAddress::V4(a.to_bits())),
        Ok(core::net::IpAddr::V6(a)) => Some(IpAddress::V6(a.to_bits())),
        Err(_) => None,
    }
}

/// The client's address: the TCP peer when no proxy is trusted; else the
/// entry of `X-Forwarded-For` that names the client, read as an address.
/// A missing header, a chain shorter than the trusted one or a malformed
/// entry gives `None`, never the peer.
pub fn resolve(forwarded_for: Option<&str>, remote: IpAddress, trusted: usize) -> (r: Option<IpAddress>)
    ensures
        match client_entry(match forwarded_for { Some(h) => Some(h@), None => None }, trusted as nat) {
            None => r == Some(remote),
            Some(None) => r is None,
            Some(Some(e)) => r == ip_parsed(e),
        },
{
    match select_client_entry(forwarded_for, trusted) {
        ClientEntry::Peer => Some(remote),
        ClientEntry::Unresolved => None,
        ClientEntry::Forwarded(entry) => parse_ip(entry.as_str()),
    }
}

/// The longest user agent stored, in characters: the header is fully
/// client-controlled.
pub const USER_AGENT_MAX_CHARS: usize = 512;

/// The first `n` characters of `s`, or all of them.
pub open spec fn prefix(s: Seq<char>, n: nat) -> Seq<char> {
    if s.len() <= n {
        s
    } else {
        s.take(n as int)
    }
}

fn capped(s: &str) -> (r: String)
    ensures
        r@ == prefix(s@, USER_AGENT_MAX_CHARS as nat),
{
    let v = chars_of(s);
    if v.len() <= USER_AGENT_MAX_CHARS {
        return string_of(&v);
    }
    let mut kept: Vec<char> = Vec::new();
    let mut i: usize = 0;
    while i < USER_AGENT_MAX_CHARS
        invariant
            i <= USER_AGENT_MAX_CHARS < v@.len(),
            v@ == s@,
            kept@ == v@.take(i as int),
        decreases USER_AGENT_MAX_CHARS - i,
    {
        kept.push(v[i]);
        assert(v@.take(i as int).push(v@[i as int]) =~= v@.take(i + 1));
        i = i + 1;
    }
    string_of(&kept)
}

/// Request metadata for a session: the user agent, capped, and the client
/// address.
pub fn session_context(user_agent: Option<&str>, client_ip: Option<IpAddress>) -> (ctx: SessionContext)
    ensures
        match user_agent {
            Some(ua) => ctx.user_agent matches Some(s) && s@ == prefix(ua@, USER_AGENT_MAX_CHARS as nat),
            None => ctx.user_agent is None,
        },
        ctx.ip_address == client_ip,
{
    let user_agent = match user_agent {
        Some(ua) => Some(capped(ua)),
        None => None,
    };
    SessionContext { user_agent, ip_address: client_ip }
}

/// Request metadata for an audit entry. All fields `None` marks an action
/// that did not come from an HTTP request.
pub struct AuditContext {
    pub actor_id: Option<u128>,
    pub ip_address: Option<IpAddress>,
    pub user_agent: Option<String>,
}

/// Request metadata for the audit entry of an unauthenticated request, such
/// as the setup wizard, which has no session to attach it to.
pub fn audit_context(user_agent: Option<&str>, client_ip: Option<IpAddress>) -> (ctx: AuditContext)
    ensures
        ctx.actor_id is None,
        match user_agent {
            Some(ua) => ctx.user_agent matches Some(s) && s@ == prefix(ua@, USER_AGENT_MAX_CHARS as nat),
            None => ctx.user_agent is None,
        },
        ctx.ip_address == client_ip,
{
    let user_agent = match user_agent {
        Some(ua) => Some(capped(ua)),
        None => None,
    };
    AuditContext { actor_id: None, ip_address: client_ip, user_agent }
}

/// Without a trusted proxy the peer address is the client, whatever the
/// header claims; with proxies trusted, the peer is never the answer.
pub proof fn peer_only_without_trusted_proxy(forwarded_for: Option<Seq<char>>, trusted: nat)
    ensures
        (client_entry(forwarded_for, trusted) is None) <==> trusted == 0,
{
}

/// Splitting after one more `,`-separated piece `hop`, itself free of
/// commas, gives the pieces before it and then `hop`.
proof fn lemma_split_after_hop(h: Seq<char>, hop: Seq<char>)
    requires
        !hop.contains(','),
    ensures
        split_on(h + seq![','] + hop, ',') == split_on(h, ',').push(hop),
    decreases hop.len(),
{
    let s = h + seq![','] + hop;
    if hop.len() == 0 {
        assert(s.drop_last() =~= h);
        assert(s.last() == ',');
        assert(hop =~= Seq::<char>::empty());
    } else {
        let shorter = hop.drop_last();
        assert(!shorter.contains(',')) by {
            if shorter.contains(',') {
                let k = choose|k: int| 0 <= k < shorter.len() && shorter[k] == ',';
                assert(hop[k] == ',');
            }
        }
        lemma_split_after_hop(h, shorter);
        assert(s.drop_last() =~= h + seq![','] + shorter);
        assert(s.last() == hop.last());
        assert(hop.last() != ',') by {
            assert(hop[hop.len() - 1] == hop.last());
        }
        assert(shorter.push(hop.last()) =~= hop);
        assert(split_on(h, ',').push(shorter).update(split_on(h, ',').len() as int, hop)
            =~= split_on(h, ',').push(hop));
    }
}

/// `trim_end` keeps a non-empty text whose first character is not white
/// space non-empty.
proof fn lemma_trim_end_keeps_first(t: Seq<char>)
    requires
        t.len() > 0,
        !is_white(t[0]),
    ensures
        trim_end(t).len() > 0,
    decreases t.len(),
{
    if is_white(t.last()) {
        assert(t.len() > 1);
        assert(t.drop_last()[0] == t[0]);
        lemma_trim_end_keeps_first(t.drop_last());
    }
}

/// A text with a character that is not white space does not trim to nothing.
proof fn lemma_trim_nonblank(s: Seq<char>, k: int)
    requires
        0 <= k < s.len(),
        !is_white(s[k]),
    ensures
        trim(s).len() > 0,
    decreases s.len(),
{
    if trim_start(s).len() == 0 {
        lemma_trim_start_clean(s);
        if is_white(s[0]) {
            assert(k > 0);
            assert(s.drop_first()[k - 1] == s[k]);
            lemma_trim_nonblank(s.drop_first(), k - 1);
            lemma_trim_start_clean(s.drop_first());
            assert(trim_start(s) == trim_start(s.drop_first()));
            assert(false);
        }
    }
    lemma_trim_start_clean(s);
    lemma_trim_end_keeps_first(trim_start(s));
}

/// The forwarding chain after one more hop is the chain before it, then
/// the hop, trimmed.
proof fn lemma_chain_after_hop(h: Seq<char>, hop: Seq<char>)
    requires
        !hop.contains(','),
    ensures
        forwarded_chain(h + seq![','] + hop) == forwarded_chain(h).push(trim(hop)),
{
    lemma_split_after_hop(h, hop);
    assert(forwarded_chain(h + seq![','] + hop) =~= forwarded_chain(h).push(trim(hop)));
}

/// With one trusted proxy, the client is the last hop of the header: the
/// peer that proxy received the request from and appended.
pub proof fn one_proxy_names_the_last_hop(h: Seq<char>, hop: Seq<char>)
    requires
        !hop.contains(','),
    ensures
        client_entry(Some(h + seq![','] + hop), 1) == Some(Some(trim(hop))),
{
    let s = h + seq![','] + hop;
    assert(s[h.len() as int] == ',');
    lemma_trim_nonblank(s, h.len() as int);
    lemma_chain_after_hop(h, hop);
}

/// Each trusted proxy appends one hop, the peer it got the request from.
/// A header that went through one more trusted proxy, read with one more
/// trusted proxy, names the same client: the client is always the entry as
/// many places from the right as there are trusted proxies.
pub proof fn one_more_trusted_hop_keeps_the_client(h: Seq<char>, hop: Seq<char>, trusted: nat)
    requires
        trusted >= 1,
        trim(h).len() > 0,
        !hop.contains(','),
    ensures
        client_entry(Some(h + seq![','] + hop), trusted + 1) == client_entry(Some(h), trusted),
{
    let s = h + seq![','] + hop;
    assert(s[h.len() as int] == ',');
    lemma_trim_nonblank(s, h.len() as int);
    lemma_chain_after_hop(h, hop);
}

/// With `trusted` proxies and a header of at least that many entries, the
/// client is the entry `trusted` places from the right: the last `trusted`
/// entries of the chain are the client and then the proxies before the
/// last one.
pub proof fn client_is_trusted_places_from_the_right(h: Seq<char>, trusted: nat)
    requires
        trusted >= 1,
        trim(h).len() > 0,
        forwarded_chain(h).len() >= trusted,
    ensures
        client_entry(Some(h), trusted)
            == Some(Some(forwarded_chain(h).skip(forwarded_chain(h).len() - trusted).first())),
{
}

} // verus!
