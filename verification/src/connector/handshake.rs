//! Whether a handshake becomes a connection.

use crate::connector::host_policy::HostPolicy;
use crate::connector::origin_policy::OriginPolicy;
use vstd::prelude::*;

verus! {

/// The HTTP status that a refused handshake is answered with.
pub const FORBIDDEN: u16 = 403;

/// A header, as its characters.
pub open spec fn header(value: Option<&str>) -> Option<Seq<char>> {
    match value {
        Some(text) => Some(text@),
        None => None,
    }
}

/// Whether a handshake with these headers becomes a connection: both its `Origin` and its `Host`
/// must be admitted. A refusal is answered with the status that comes back.
pub fn answer_handshake(
    origins: &OriginPolicy,
    hosts: &HostPolicy,
    origin: Option<&str>,
    host: Option<&str>,
) -> (admitted: Result<(), u16>)
    ensures
        admitted == if origins.allows(header(origin)) && hosts.allows(header(host)) {
            Ok::<(), u16>(())
        } else {
            Err(FORBIDDEN)
        },
{
    if origins.permits(origin) && hosts.permits(host) {
        Ok(())
    } else {
        Err(FORBIDDEN)
    }
}

/// The host policy of a listener: one that speaks TLS is reached by its own names alone, and a
/// plain one stands behind a proxy that validates the host.
pub fn listener_hosts(tls: bool, port: u16, name: Option<&str>) -> (hosts: HostPolicy)
    ensures
        !tls ==> hosts is Any,
        tls ==> hosts is Loopback && hosts->port == port,
        tls ==> hosts.published() == match name {
            Some(n) => if crate::text::trimmed(n@).len() > 0 {
                Some(crate::text::lowered(crate::text::trimmed(n@)))
            } else {
                None
            },
            None => None,
        },
{
    if tls {
        HostPolicy::loopback(port, name)
    } else {
        HostPolicy::Any
    }
}

/// A header stands for its characters, and one that is not there for nothing.
pub proof fn law_a_header_is_its_text(value: Option<&str>)
    ensures
        value is Some ==> header(value) == Some(value->0@),
        value is None ==> header(value) is None,
{
}

/// A refused handshake is answered as forbidden.
pub proof fn law_a_refusal_is_forbidden()
    ensures
        FORBIDDEN == 403,
{
}

/// A handshake becomes a connection exactly where both its `Origin` and its `Host` are admitted;
/// any other is answered as forbidden.
pub proof fn law_both_headers_must_be_admitted(
    origins: OriginPolicy,
    hosts: HostPolicy,
    origin: Option<&str>,
    host: Option<&str>,
    origin_permitted: bool,
    host_permitted: bool,
    admitted: Result<(), u16>,
)
    requires
        call_ensures(OriginPolicy::permits, (&origins, origin), origin_permitted),
        call_ensures(HostPolicy::permits, (&hosts, host), host_permitted),
        call_ensures(answer_handshake, (&origins, &hosts, origin, host), admitted),
    ensures
        admitted is Ok <==> origin_permitted && host_permitted,
        admitted is Err ==> admitted == Err::<(), u16>(403),
{
}

/// A listener that speaks TLS is reached on its own port alone, and a plain one by any Host.
pub proof fn law_how_a_listener_is_reached(
    tls: bool,
    port: u16,
    name: Option<&str>,
    hosts: HostPolicy,
)
    requires
        call_ensures(listener_hosts, (tls, port, name), hosts),
    ensures
        hosts is Loopback <==> tls,
        tls ==> hosts->port == port,
        tls && name is None ==> hosts.published() is None,
{
}

} // verus!
