//! Which `Host` header a handshake may carry.
//!
//! The agent may be reachable by a name that the operator points at the loopback address, so
//! that a page served over HTTPS can open the socket. A resolver can then be made to send any
//! other name to the same listener. A socket reachable by a name is reachable by exactly the
//! names the operator meant, and by nothing a resolver can invent.

use crate::text;
use crate::text::{chars_of, find_char, parse_u16, rfind_char, same_text, to_ascii_lowercase, trim};
use vstd::prelude::*;
use vstd::string::StrSliceExecFns;

verus! {

/// The Hosts a handshake may name.
#[derive(Debug, Clone, PartialEq, Eq)]
pub enum HostPolicy {
    /// Every Host. The plain listener behind a proxy that validates Host itself.
    Any,
    /// The agent's own socket: `127.0.0.1`, `localhost` and `[::1]` on exactly this port, plus
    /// the one published name, if any. The port is required in the header: a browser always
    /// sends it for a non-default port, and a Host without one is not this socket.
    Loopback { port: u16, name: Option<String> },
}

/// What a `host[:port]` text says: the name, and the port if one is given. `None` where the
/// port is not a number, or a bracketed name is not closed.
pub open spec fn host_parts(host: Seq<char>) -> Option<(Seq<char>, Option<nat>)> {
    if host.len() > 0 && host.first() == '[' {
        let end = text::first_of(host, ']');
        if end == host.len() {
            None
        } else {
            let name = host.take(end + 1);
            let rest = host.skip(end + 1);
            if rest.len() > 0 && rest.first() == ':' {
                match text::number_up_to(rest.skip(1), u16::MAX as nat) {
                    Some(port) => Some((name, Some(port))),
                    None => None,
                }
            } else {
                Some((name, None))
            }
        }
    } else {
        let colon = text::last_of(host, ':');
        if colon < 0 {
            Some((host, None))
        } else {
            match text::number_up_to(host.skip(colon + 1), u16::MAX as nat) {
                Some(port) => Some((host.take(colon), Some(port))),
                None => None,
            }
        }
    }
}

/// One of the three names of the loopback address.
pub open spec fn loopback_name(name: Seq<char>) -> bool {
    name == "127.0.0.1"@ || name == "localhost"@ || name == "[::1]"@
}

impl HostPolicy {
    /// The published name, as its characters.
    pub open spec fn published(self) -> Option<Seq<char>> {
        match self {
            HostPolicy::Loopback { port, name: Some(name) } => Some(name@),
            _ => None,
        }
    }

    /// The published name is this one, whose letters are small; its own case does not count.
    pub open spec fn named(self, host_name: Seq<char>) -> bool {
        self.published() matches Some(name) && text::lowered(name) == host_name
    }

    /// Whether a handshake carrying this `Host` header may proceed.
    pub open spec fn allows(self, host: Option<Seq<char>>) -> bool {
        match self {
            HostPolicy::Any => true,
            HostPolicy::Loopback { port, name } => match host {
                None => false,
                Some(host) => match host_parts(text::lowered(text::trimmed(host))) {
                    Some((host_name, Some(host_port))) => {
                        host_port == port && (loopback_name(host_name) || self.named(host_name))
                    },
                    _ => false,
                },
            },
        }
    }

    /// The loopback policy for a listener on `port`, optionally reachable as `name`. White space
    /// round the name and its ASCII case do not count, and an empty name is no name.
    pub fn loopback(port: u16, name: Option<&str>) -> (policy: Self)
        ensures
            policy matches HostPolicy::Loopback { port: p, name: _ } && p == port,
            policy.published() == match name {
                Some(n) => if text::trimmed(n@).len() > 0 {
                    Some(text::lowered(text::trimmed(n@)))
                } else {
                    None
                },
                None => None,
            },
    {
        let published = match name {
            Some(n) => {
                let lowercase = to_ascii_lowercase(trim(n));
                if lowercase.as_str().is_empty() {
                    None
                } else {
                    Some(lowercase)
                }
            },
            None => None,
        };
        HostPolicy::Loopback { port, name: published }
    }

    /// Whether a handshake carrying this `Host` header may proceed. Compared case-insensitively
    /// on the name, exactly on the port.
    pub fn permits(&self, host: Option<&str>) -> (permitted: bool)
        ensures
            permitted == self.allows(
                match host {
                    Some(h) => Some(h@),
                    None => None,
                },
            ),
    {
        match self {
            HostPolicy::Any => true,
            HostPolicy::Loopback { port, name } => {
                let given = match host {
                    Some(h) => h,
                    None => {
                        return false;
                    },
                };
                let lowercase = to_ascii_lowercase(trim(given));
                match split_host_port(lowercase.as_str()) {
                    Some((host_name, Some(host_port))) => {
                        if host_port != *port {
                            return false;
                        }
                        if same_text(host_name, "127.0.0.1") || same_text(host_name, "localhost")
                            || same_text(host_name, "[::1]") {
                            return true;
                        }
                        match name {
                            Some(n) => same_text(to_ascii_lowercase(n.as_str()).as_str(), host_name),
                            None => false,
                        }
                    },
                    _ => false,
                }
            },
        }
    }
}

/// `host[:port]`, with bracketed IPv6 literals kept whole. `None` when the port is not a number.
pub fn split_host_port(host: &str) -> (parts: Option<(&str, Option<u16>)>)
    ensures
        match parts {
            None => host_parts(host@) is None,
            Some((name, None)) => host_parts(host@) == Some((name@, None::<nat>)),
            Some((name, Some(port))) => host_parts(host@) == Some((name@, Some(port as nat))),
        },
{
    let chars: Vec<char> = chars_of(host);
    let len: usize = chars.len();
    if len > 0 && chars[0] == '[' {
        let end: usize = match find_char(&chars, ']') {
            Some(i) => i,
            None => {
                return None;
            },
        };
        let name = host.substring_char(0, end + 1);
        assert(name@ =~= host@.take(end + 1));
        if end + 1 < len && chars[end + 1] == ':' {
            let digits = host.substring_char(end + 2, len);
            assert(digits@ =~= host@.skip(end + 1).skip(1));
            return match parse_u16(digits) {
                Some(port) => Some((name, Some(port))),
                None => None,
            };
        }
        return Some((name, None));
    }
    match rfind_char(&chars, ':') {
        Some(colon) => {
            let name = host.substring_char(0, colon);
            assert(name@ =~= host@.take(colon as int));
            let digits = host.substring_char(colon + 1, len);
            assert(digits@ =~= host@.skip(colon + 1));
            match parse_u16(digits) {
                Some(port) => Some((name, Some(port))),
                None => None,
            }
        },
        None => Some((host, None)),
    }
}

/// A handshake is admitted for one port at most: where a loopback policy admits a Host on one
/// port, the policy for any other port refuses it, whatever names the two publish.
pub proof fn law_one_port_only(a: HostPolicy, b: HostPolicy, host: Seq<char>)
    requires
        a is Loopback,
        b is Loopback,
        a->port != b->port,
        a.allows(Some(host)),
    ensures
        !b.allows(Some(host)),
{
}

/// A loopback policy admits nothing but the three loopback names and the published one, each
/// with the listener's own port, and never a handshake without a Host.
pub proof fn law_only_own_names(policy: HostPolicy, host: Option<Seq<char>>)
    requires
        policy is Loopback,
        policy.allows(host),
    ensures
        host matches Some(h) && host_parts(text::lowered(text::trimmed(h))) matches Some((name, port)) && port
            == Some(policy->port as nat) && (loopback_name(name) || policy.named(name)),
{
}

/// The case in which the operator writes the published name does not count.
pub proof fn law_case_of_the_name_does_not_count(
    a: HostPolicy,
    b: HostPolicy,
    host: Option<Seq<char>>,
)
    requires
        a is Loopback,
        b is Loopback,
        a->port == b->port,
        match (a.published(), b.published()) {
            (Some(x), Some(y)) => text::lowered(x) == text::lowered(y),
            (None, None) => true,
            _ => false,
        },
    ensures
        a.allows(host) == b.allows(host),
{
}

/// The agent's own socket is always admitted: each loopback name, a colon and the port.
pub proof fn law_own_socket_admitted(policy: HostPolicy, name: Seq<char>)
    requires
        policy is Loopback,
        loopback_name(name),
    ensures
        policy.allows(Some(name + seq![':'] + text::decimal(policy->port as nat))),
{
    reveal_strlit("127.0.0.1");
    reveal_strlit("localhost");
    reveal_strlit("[::1]");
    let port = policy->port as nat;
    let digits = text::decimal(port);
    let host = name + seq![':'] + digits;
    text::lemma_decimal_shape(port);
    text::law_decimal_reads_back(port, u16::MAX as nat);
    assert forall|i: int| 0 <= i < host.len() implies !text::whitespace(host[i]) && text::lower(host[i])
        == host[i] by {
        if i > name.len() {
            assert(host[i] == digits[i - name.len() - 1]);
        }
    }
    text::lemma_trimmed_fixed(host);
    text::lemma_lowered_fixed(host);
    if name == "[::1]"@ {
        text::lemma_first_of(host, ']', 4);
        assert(host.take(5) =~= name);
        assert(host.skip(5).skip(1) =~= digits);
        assert(host.skip(5).first() == ':');
    } else {
        let colon = name.len() as int;
        assert forall|j: int| colon < j < host.len() implies host[j] != ':' by {
            assert(host[j] == digits[j - colon - 1]);
        }
        text::lemma_last_of(host, ':', colon);
        assert(host.take(colon) =~= name);
        assert(host.skip(colon + 1) =~= digits);
    }
}

/// The published name is admitted in whatever case it is written, with a colon and the listener's
/// port behind it, and with or without white space round it: `written` is the name up to the case
/// of its ASCII letters.
pub proof fn law_published_name_admitted(
    policy: HostPolicy,
    written: Seq<char>,
    lead: Seq<char>,
    tail: Seq<char>,
)
    requires
        policy is Loopback,
        policy->name is Some,
        written.len() > 0,
        written.len() == policy->name->0@.len(),
        forall|i: int|
            #![trigger written[i]]
            0 <= i < written.len() ==> {
                let named = policy->name->0@[i];
                written[i] == named || (65 <= written[i] as int <= 90 && named as int
                    == written[i] as int + 32) || (65 <= named as int <= 90 && written[i] as int
                    == named as int + 32)
            },
        !text::whitespace(written[0]),
        written[0] == '[' ==> written.last() == ']' && forall|i: int|
            0 <= i < written.len() - 1 ==> #[trigger] written[i] != ']',
        forall|i: int| 0 <= i < lead.len() ==> text::whitespace(#[trigger] lead[i]),
        forall|i: int| 0 <= i < tail.len() ==> text::whitespace(#[trigger] tail[i]),
    ensures
        policy.allows(
            Some(lead + (written + seq![':'] + text::decimal(policy->port as nat)) + tail),
        ),
{
    let port = policy->port as nat;
    let digits = text::decimal(port);
    let core = written + seq![':'] + digits;
    let small = text::lowered(written);
    text::lemma_decimal_shape(port);
    text::law_decimal_reads_back(port, u16::MAX as nat);
    assert(core.last() == digits.last());
    text::law_trimming(lead, core, tail);
    text::law_lower_case(written);
    text::law_case_is_all_that_is_lost(written, policy->name->0@);
    assert(text::lowered(core) =~= small + seq![':'] + digits);
    if written[0] == '[' {
        law_bracketed_host(small, seq![':'] + digits);
        assert((seq![':'] + digits).skip(1) =~= digits);
        assert forall|i: int| 0 <= i < small.len() - 1 implies #[trigger] small[i] != ']' by {
            assert(written[i] != ']');
        }
        assert(small + (seq![':'] + digits) =~= small + seq![':'] + digits);
    } else {
        if digits.contains(':') {
            let i = choose|i: int| 0 <= i < digits.len() && digits[i] == ':';
            assert('0' <= digits[i] <= '9');
        }
        law_plain_host(small, digits);
    }
}

/// Nothing else is admitted on the agent's own socket: what is admitted is one of the three
/// loopback names or the published one, a colon, and a numeral for the listener's port. A
/// handshake without a Host is not, and without such a policy every Host is.
pub proof fn law_nothing_but_own_names(policy: HostPolicy, host: Option<Seq<char>>)
    ensures
        policy is Any ==> policy.allows(host),
        policy is Loopback && host is None ==> !policy.allows(host),
        policy is Loopback && host is Some && policy.allows(host) ==> exists|
            name: Seq<char>,
            digits: Seq<char>,
        |
            text::lowered(text::trimmed(host->0)) == #[trigger] (name + seq![':'] + digits)
                && text::number_up_to(digits, u16::MAX as nat) == Some(policy->port as nat) && (name
                == "127.0.0.1"@ || name == "localhost"@ || name == "[::1]"@ || (policy->name is Some
                && name == text::lowered(policy->name->0@))),
{
    if policy is Loopback && host is Some && policy.allows(host) {
        let small = text::lowered(text::trimmed(host->0));
        if small.len() > 0 && small.first() == '[' {
            let end = text::first_of(small, ']');
            let rest = small.skip(end + 1);
            lemma_first_of_bounds(small, ']');
            assert(small =~= small.take(end + 1) + seq![':'] + rest.skip(1));
        } else {
            let colon = text::last_of(small, ':');
            lemma_last_of_bounds(small, ':');
            assert(small =~= small.take(colon) + seq![':'] + small.skip(colon + 1));
        }
    }
}

proof fn lemma_first_of_bounds(s: Seq<char>, c: char)
    ensures
        0 <= text::first_of(s, c) <= s.len(),
        text::first_of(s, c) < s.len() ==> s[text::first_of(s, c)] == c,
    decreases s.len(),
{
    if s.len() > 0 && s.first() != c {
        lemma_first_of_bounds(s.drop_first(), c);
    }
}

proof fn lemma_last_of_bounds(s: Seq<char>, c: char)
    ensures
        -1 <= text::last_of(s, c) < s.len(),
        text::last_of(s, c) >= 0 ==> s[text::last_of(s, c)] == c,
    decreases s.len(),
{
    if s.len() > 0 && s.last() != c {
        lemma_last_of_bounds(s.drop_last(), c);
    }
}

/// A host that does not begin with a bracket is parted at its last colon: what stands before it is
/// the name, and what stands behind it must be a port number. Without a colon it is all name.
pub proof fn law_plain_host(name: Seq<char>, port: Seq<char>)
    requires
        name.len() > 0 ==> name.first() != '[',
        !port.contains(':'),
    ensures
        !name.contains(':') ==> host_parts(name) == Some((name, None::<nat>)),
        host_parts(name + seq![':'] + port) == match text::number_up_to(port, 65535) {
            Some(n) => Some((name, Some(n))),
            None => None,
        },
{
    let whole = name + seq![':'] + port;
    text::law_first_and_last(name, port, ':');
    assert(whole.take(name.len() as int) =~= name);
    assert(whole.skip(name.len() as int + 1) =~= port);
}

/// A host in brackets is its name up to the first closing bracket. A colon behind it introduces a
/// port number, anything else behind it is no port, and a bracket that is not closed is no host.
pub proof fn law_bracketed_host(name: Seq<char>, rest: Seq<char>)
    requires
        name.len() > 0,
        name.first() == '[',
    ensures
        !name.contains(']') ==> host_parts(name) is None,
        name.last() == ']' && (forall|i: int|
            0 <= i < name.len() - 1 ==> #[trigger] name[i] != ']') ==> host_parts(name + rest)
            == if rest.len() > 0 && rest.first() == ':' {
            match text::number_up_to(rest.skip(1), 65535) {
                Some(n) => Some((name, Some(n))),
                None => None,
            }
        } else {
            Some((name, None::<nat>))
        },
{
    if !name.contains(']') {
        text::law_first_and_last(name, Seq::empty(), ']');
    }
    if name.last() == ']' && forall|i: int| 0 <= i < name.len() - 1 ==> #[trigger] name[i] != ']' {
        let whole = name + rest;
        text::lemma_first_of(whole, ']', name.len() - 1);
        assert(whole.take(name.len() as int) =~= name);
        assert(whole.skip(name.len() as int) =~= rest);
    }
}

/// The three names of the loopback address are its names, and nothing else is.
pub proof fn law_loopback_names(name: Seq<char>)
    ensures
        loopback_name("127.0.0.1"@),
        loopback_name("localhost"@),
        loopback_name("[::1]"@),
        loopback_name(name) ==> name == "127.0.0.1"@ || name == "localhost"@ || name == "[::1]"@,
{
}

/// The published name is the one that the policy holds.
pub proof fn law_the_published_name(policy: HostPolicy)
    ensures
        policy is Any ==> policy.published() is None,
        policy is Loopback ==> policy.published() is Some == policy->name is Some,
        policy is Loopback && policy->name is Some ==> policy.published() == Some(
            policy->name->0@,
        ),
{
}

/// The name that the operator gives a listener admits its handshakes, whatever the case in which
/// either is written: `written` is the given name, without the white space round it, up to the
/// case of its ASCII letters.
pub proof fn law_the_given_name_admits(
    port: u16,
    name: &str,
    written: Seq<char>,
    host: &str,
    policy: HostPolicy,
    permitted: bool,
)
    requires
        call_ensures(HostPolicy::loopback, (port, Some(name)), policy),
        call_ensures(HostPolicy::permits, (&policy, Some(host)), permitted),
        written.len() > 0,
        written.len() == text::trimmed(name@).len(),
        forall|i: int|
            #![trigger written[i]]
            0 <= i < written.len() ==> {
                let given = text::trimmed(name@)[i];
                written[i] == given || (65 <= written[i] as int <= 90 && given as int
                    == written[i] as int + 32) || (65 <= given as int <= 90 && written[i] as int
                    == given as int + 32)
            },
        !text::whitespace(written[0]),
        written[0] != '[',
        host@ == written + seq![':'] + text::decimal(port as nat),
    ensures
        permitted,
{
    let given = text::trimmed(name@);
    let kept = policy->name->0@;
    assert(kept == text::lowered(given));
    text::law_lower_case(given);
    assert forall|i: int| #![trigger written[i]] 0 <= i < written.len() implies ({
        let named = kept[i];
        written[i] == named || (65 <= written[i] as int <= 90 && named as int == written[i] as int
            + 32) || (65 <= named as int <= 90 && written[i] as int == named as int + 32)
    }) by {
        assert(kept[i] as int == if 65 <= given[i] as int <= 90 {
            given[i] as int + 32
        } else {
            given[i] as int
        });
    }
    law_published_name_admitted(policy, written, Seq::empty(), Seq::empty());
    assert(Seq::<char>::empty() + host@ + Seq::<char>::empty() =~= host@);
}

/// A host is parted as it is written: the name that comes out stands at its start, and a port that
/// comes out is the number behind the colon that follows the name.
pub proof fn law_a_host_is_parted_as_written(host: &str, parts: Option<(&str, Option<u16>)>)
    requires
        call_ensures(split_host_port, (host,), parts),
    ensures
        parts matches Some((name, Some(port))) ==> exists|digits: Seq<char>|
            host@ == #[trigger] (name@ + seq![':'] + digits) && text::number_up_to(digits, 65535)
                == Some(port as nat),
        parts matches Some((name, None)) ==> name@.is_prefix_of(host@),
{
    if let Some((name, port)) = parts {
        if host@.len() > 0 && host@.first() == '[' {
            let end = text::first_of(host@, ']');
            lemma_first_of_bounds(host@, ']');
            if port is Some {
                let digits = host@.skip(end + 1).skip(1);
                assert(host@ =~= name@ + seq![':'] + digits);
            } else {
                assert(host@.subrange(0, name@.len() as int) =~= name@);
            }
        } else {
            let colon = text::last_of(host@, ':');
            lemma_last_of_bounds(host@, ':');
            if port is Some {
                let digits = host@.skip(colon + 1);
                assert(host@ =~= name@ + seq![':'] + digits);
            } else {
                assert(host@.subrange(0, name@.len() as int) =~= name@);
            }
        }
    }
}

} // verus!
