//! TURN relay configuration that a peer connection may carry, and the path it took.
//!
//! The agent has no TURN credentials of its own: the client obtains short-lived ones from its
//! workspace server and hands them over for each attempt.

use crate::text;
use crate::text::decimal_text;
use vstd::prelude::*;
use vstd::string::StringExecFns;

verus! {

/// When the relay is used for one attempt. Both peers must send the same policy.
#[derive(Debug, Clone, Copy, PartialEq, Eq, Structural)]
pub enum TurnPolicy {
    /// Try the direct (hole-punched) path first; relay only if it is impossible or fails.
    Fallback,
    /// Never attempt the direct path: the peers never learn each other's addresses.
    RelayOnly,
}

/// One relay server. `credential` is a password: no textual form of this type shows it.
#[derive(Clone, PartialEq, Eq)]
pub struct IceServer {
    pub urls: Vec<String>,
    pub username: Option<String>,
    pub credential: Option<String>,
}

/// The TURN relay configuration for one attempt to connect to a peer.
#[derive(Clone, PartialEq, Eq)]
pub struct PeerTurnConfig {
    pub policy: TurnPolicy,
    pub ice_servers: Vec<IceServer>,
    /// Unix seconds after which the credentials are no longer valid. An expired configuration is
    /// treated as no configuration at all.
    pub expires_at: u64,
}

/// The network path a peer connection's traffic takes, settled before success is reported.
#[derive(Debug, Clone, Copy, PartialEq, Eq, Structural)]
pub enum P2pPathReport {
    /// A direct (hole-punched) connection between the peers.
    Direct,
    /// Through a TURN relay; the Citadel server never carries the traffic.
    Turn,
    /// No direct connection: relayed through the Citadel server, with no datagram channel.
    ServerRelay,
}

impl TurnPolicy {
    /// The name of the policy in messages.
    pub fn wire_name(&self) -> (name: &'static str)
        ensures
            name@ == match *self {
                TurnPolicy::Fallback => "fallback"@,
                TurnPolicy::RelayOnly => "relay_only"@,
            },
    {
        match self {
            TurnPolicy::Fallback => "fallback",
            TurnPolicy::RelayOnly => "relay_only",
        }
    }

    /// The name of the policy in the code.
    pub open spec fn printed(self) -> Seq<char> {
        match self {
            TurnPolicy::Fallback => "Fallback"@,
            TurnPolicy::RelayOnly => "RelayOnly"@,
        }
    }
}

impl P2pPathReport {
    /// The name of the path in messages.
    pub fn wire_name(&self) -> (name: &'static str)
        ensures
            name@ == match *self {
                P2pPathReport::Direct => "direct"@,
                P2pPathReport::Turn => "turn"@,
                P2pPathReport::ServerRelay => "server_relay"@,
            },
    {
        match self {
            P2pPathReport::Direct => "direct",
            P2pPathReport::Turn => "turn",
            P2pPathReport::ServerRelay => "server_relay",
        }
    }
}

/// A text between double quotes, with quotes, backslashes and unprintable characters escaped.
pub uninterp spec fn quoted(s: Seq<char>) -> Seq<char>;

/// `format!` with `{:?}` on a `str`, the way Rust prints a string for programmers. The result is
/// the quoted form of the text, which this names and does not define.
#[verifier::external_body]
fn quoted_text(s: &str) -> (r: String)
    ensures
        r@ == quoted(s@),
{
    format!("{:?}", s)
}

/// An optional text as Rust prints it.
pub open spec fn optional_printed(value: Option<Seq<char>>) -> Seq<char> {
    match value {
        Some(s) => "Some("@ + quoted(s) + ")"@,
        None => "None"@,
    }
}

/// A secret as it may be printed: whether there is one, and nothing else of it.
pub open spec fn secret_printed(present: bool) -> Seq<char> {
    if present {
        "Some(<redacted>)"@
    } else {
        "None"@
    }
}

/// The items, with a comma and a space between neighbours.
pub open spec fn joined(items: Seq<Seq<char>>) -> Seq<char>
    decreases items.len(),
{
    if items.len() == 0 {
        Seq::empty()
    } else if items.len() == 1 {
        items[0]
    } else {
        joined(items.drop_last()) + ", "@ + items.last()
    }
}

/// A secret as it may be printed: whether there is one, and nothing else of it.
pub fn secret_opt_text(value: &Option<String>) -> (r: String)
    ensures
        r@ == secret_printed(value is Some),
{
    match value {
        Some(_) => "Some(<redacted>)".to_owned(),
        None => "None".to_owned(),
    }
}

impl IceServer {
    /// The server as it may be printed.
    pub open spec fn printed(self) -> Seq<char> {
        "IceServer { urls: ["@ + joined(
            text::texts(self.urls@).map_values(|url: Seq<char>| quoted(url)),
        ) + "], username: "@ + optional_printed(
            match self.username {
                Some(name) => Some(name@),
                None => None,
            },
        ) + ", credential: "@ + secret_printed(self.credential is Some) + " }"@
    }

    /// The server as it may be printed: the credential shows only whether there is one.
    pub fn debug_text(&self) -> (r: String)
        ensures
            r@ == self.printed(),
    {
        let ghost quoted_urls = text::texts(self.urls@).map_values(|url: Seq<char>| quoted(url));
        let mut list: String = String::new();
        let mut i: usize = 0;
        while i < self.urls.len()
            invariant
                i <= self.urls.len(),
                quoted_urls == text::texts(self.urls@).map_values(|url: Seq<char>| quoted(url)),
                list@ == joined(quoted_urls.take(i as int)),
            decreases self.urls.len() - i,
        {
            let url = quoted_text(self.urls[i].as_str());
            assert(url@ == quoted_urls[i as int]);
            assert(quoted_urls.take(i + 1).drop_last() =~= quoted_urls.take(i as int));
            if i > 0 {
                list.append(", ");
                list.append(url.as_str());
            } else {
                list = url;
            }
            i = i + 1;
        }
        assert(quoted_urls.take(i as int) =~= quoted_urls);
        let username = match &self.username {
            Some(name) => "Some(".to_owned().concat(quoted_text(name.as_str()).as_str()).concat(
                ")",
            ),
            None => "None".to_owned(),
        };
        "IceServer { urls: [".to_owned().concat(list.as_str()).concat("], username: ").concat(
            username.as_str(),
        ).concat(", credential: ").concat(secret_opt_text(&self.credential).as_str()).concat(" }")
    }
}

/// The servers, each as it may be printed.
pub open spec fn servers_printed(servers: Seq<IceServer>) -> Seq<Seq<char>> {
    servers.map_values(|server: IceServer| server.printed())
}

impl PeerTurnConfig {
    /// The configuration as it may be printed.
    pub open spec fn printed(self) -> Seq<char> {
        "PeerTurnConfig { policy: "@ + self.policy.printed() + ", ice_servers: ["@ + joined(
            servers_printed(self.ice_servers@),
        ) + "], expires_at: "@ + text::decimal(self.expires_at as nat) + " }"@
    }

    /// The configuration as it may be printed: of each credential only whether there is one.
    pub fn debug_text(&self) -> (r: String)
        ensures
            r@ == self.printed(),
    {
        let ghost all = servers_printed(self.ice_servers@);
        let mut list: String = String::new();
        let mut i: usize = 0;
        while i < self.ice_servers.len()
            invariant
                i <= self.ice_servers.len(),
                all == servers_printed(self.ice_servers@),
                list@ == joined(all.take(i as int)),
            decreases self.ice_servers.len() - i,
        {
            let server = self.ice_servers[i].debug_text();
            assert(server@ == all[i as int]);
            assert(all.take(i + 1).drop_last() =~= all.take(i as int));
            if i > 0 {
                list.append(", ");
                list.append(server.as_str());
            } else {
                list = server;
            }
            i = i + 1;
        }
        assert(all.take(i as int) =~= all);
        let policy = match self.policy {
            TurnPolicy::Fallback => "Fallback",
            TurnPolicy::RelayOnly => "RelayOnly",
        };
        "PeerTurnConfig { policy: ".to_owned().concat(policy).concat(", ice_servers: [").concat(
            list.as_str(),
        ).concat("], expires_at: ").concat(decimal_text(self.expires_at).as_str()).concat(" }")
    }
}

/// The two servers differ in nothing but the credential they hold.
pub open spec fn same_but_credential(a: IceServer, b: IceServer) -> bool {
    &&& text::texts(a.urls@) == text::texts(b.urls@)
    &&& a.username is Some == b.username is Some
    &&& a.username is Some ==> a.username->0@ == b.username->0@
    &&& a.credential is Some == b.credential is Some
}

/// A credential is never printed: two servers that differ in nothing but the credential they
/// hold print alike.
pub proof fn law_credential_not_printed(a: IceServer, b: IceServer)
    requires
        same_but_credential(a, b),
    ensures
        a.printed() == b.printed(),
{
}

/// Nor does a configuration print the credentials of its servers.
pub proof fn law_credentials_not_printed(a: PeerTurnConfig, b: PeerTurnConfig)
    requires
        a.policy == b.policy,
        a.expires_at == b.expires_at,
        a.ice_servers@.len() == b.ice_servers@.len(),
        forall|i: int|
            0 <= i < a.ice_servers@.len() ==> same_but_credential(
                #[trigger] a.ice_servers@[i],
                b.ice_servers@[i],
            ),
    ensures
        a.printed() == b.printed(),
{
    assert forall|i: int| 0 <= i < a.ice_servers@.len() implies (
    #[trigger] a.ice_servers@[i]).printed() == b.ice_servers@[i].printed() by {
        law_credential_not_printed(a.ice_servers@[i], b.ice_servers@[i]);
    }
    assert(servers_printed(a.ice_servers@) =~= servers_printed(b.ice_servers@));
}

/// An optional text is printed between quotes where there is one, and a secret only as to whether
/// there is one.
pub proof fn law_what_is_printed_of_an_option(s: Seq<char>)
    ensures
        optional_printed(Some(s)) == "Some("@ + quoted(s) + ")"@,
        optional_printed(None) == "None"@,
        secret_printed(true) == "Some(<redacted>)"@,
        secret_printed(false) == "None"@,
{
}

/// Items are joined in their order, with a comma and a space between two of them and nowhere else.
pub proof fn law_items_are_joined_in_order(items: Seq<Seq<char>>, item: Seq<char>)
    ensures
        joined(Seq::<Seq<char>>::empty()) == Seq::<char>::empty(),
        joined(seq![item]) == item,
        items.len() > 0 ==> joined(items.push(item)) == joined(items) + ", "@ + item,
{
    if items.len() > 0 {
        assert(items.push(item).drop_last() =~= items);
    }
}

/// Everything of a server is printed but its credential: its addresses in their order, and its
/// username.
pub proof fn law_a_server_is_printed_in_full(server: IceServer)
    ensures
        server.printed() == "IceServer { urls: ["@ + joined(
            Seq::new(server.urls@.len(), |i: int| quoted(server.urls@[i]@)),
        ) + "], username: "@ + (if server.username is Some {
            "Some("@ + quoted(server.username->0@) + ")"@
        } else {
            "None"@
        }) + ", credential: "@ + (if server.credential is Some {
            "Some(<redacted>)"@
        } else {
            "None"@
        }) + " }"@,
{
    assert(text::texts(server.urls@).map_values(|url: Seq<char>| quoted(url)) =~= Seq::new(
        server.urls@.len(),
        |i: int| quoted(server.urls@[i]@),
    ));
}

/// Everything of a configuration is printed: its policy by name, its servers in their order, and
/// when it expires.
pub proof fn law_a_configuration_is_printed_in_full(config: PeerTurnConfig)
    ensures
        config.printed() == "PeerTurnConfig { policy: "@ + (match config.policy {
            TurnPolicy::Fallback => "Fallback"@,
            TurnPolicy::RelayOnly => "RelayOnly"@,
        }) + ", ice_servers: ["@ + joined(
            Seq::new(config.ice_servers@.len(), |i: int| config.ice_servers@[i].printed()),
        ) + "], expires_at: "@ + text::decimal(config.expires_at as nat) + " }"@,
{
    assert(servers_printed(config.ice_servers@) =~= Seq::new(
        config.ice_servers@.len(),
        |i: int| config.ice_servers@[i].printed(),
    ));
}

/// The names on the wire, one for each policy and each path, and no two alike.
pub proof fn law_names_on_the_wire(
    policy: TurnPolicy,
    path: P2pPathReport,
    policy_name: &'static str,
    path_name: &'static str,
)
    requires
        call_ensures(TurnPolicy::wire_name, (&policy,), policy_name),
        call_ensures(P2pPathReport::wire_name, (&path,), path_name),
    ensures
        policy is Fallback ==> policy_name@ == "fallback"@,
        policy is RelayOnly ==> policy_name@ == "relay_only"@,
        path is Direct ==> path_name@ == "direct"@,
        path is Turn ==> path_name@ == "turn"@,
        path is ServerRelay ==> path_name@ == "server_relay"@,
{
}

} // verus!
