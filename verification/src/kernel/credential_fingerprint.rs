//! Proving that a caller knows the password a session was opened with.
//!
//! A connect request for a username whose session is already live never reaches the server, so
//! nobody checks its password there. The session therefore remembers the fingerprint of the
//! password that opened it, and a request to reuse the session must present the same one.

use vstd::prelude::*;

verus! {

/// Whether a freshly derived fingerprint proves knowledge of the recorded one.
///
/// `None` on either side is a refusal, never a pass: a session with no recorded fingerprint must
/// be authenticated again rather than handed over on the strength of a username.
///
/// The comparison visits every byte: an early exit would show how many leading bytes a guess
/// got right.
pub fn matches(recorded: Option<&Vec<u8>>, presented: Option<&Vec<u8>>) -> (proven: bool)
    ensures
        proven == (recorded is Some && presented is Some && recorded->0@ == presented->0@),
{
    let (recorded, presented) = match (recorded, presented) {
        (Some(r), Some(p)) => (r, p),
        _ => {
            return false;
        },
    };
    if recorded.len() != presented.len() {
        return false;
    }
    let mut difference: u8 = 0;
    let mut i: usize = 0;
    while i < recorded.len()
        invariant
            i <= recorded.len() == presented.len(),
            difference == 0 <==> forall|j: int|
                0 <= j < i ==> #[trigger] recorded@[j] == presented@[j],
        decreases recorded.len() - i,
    {
        let a: u8 = recorded[i];
        let b: u8 = presented[i];
        assert((difference | (a ^ b)) == 0 <==> difference == 0 && a == b) by (bit_vector);
        difference = difference | (a ^ b);
        i = i + 1;
    }
    assert(difference == 0 <==> recorded@ =~= presented@);
    difference == 0
}

/// Whether a fingerprint may be derived at all for an account.
///
/// A transient (passwordless) account has no secret to know, so its fingerprint would be a
/// constant that every caller can produce; no account, or no credentials for it, leave nothing
/// to derive one from. `hashed` is the client-side hash of the password, where the account
/// yields one.
pub fn derive(known_account: bool, transient: bool, hashed: Option<Vec<u8>>) -> (fingerprint:
    Option<Vec<u8>>)
    ensures
        fingerprint == if known_account && !transient {
            hashed
        } else {
            None
        },
{
    if !known_account || transient {
        return None;
    }
    hashed
}

/// A fingerprint proves itself and nothing else, whichever of the two is asked for; and none on
/// either side proves nothing.
pub proof fn law_only_the_same_fingerprint_proves(
    recorded: Vec<u8>,
    presented: Vec<u8>,
    none: Option<&Vec<u8>>,
    proven: bool,
    turned: bool,
    without: bool,
    other: bool,
)
    requires
        call_ensures(self::matches, (Some(&recorded), Some(&presented)), proven),
        call_ensures(self::matches, (Some(&presented), Some(&recorded)), turned),
        none is None,
        call_ensures(self::matches, (none, Some(&presented)), without),
        call_ensures(self::matches, (Some(&recorded), none), other),
    ensures
        proven <==> recorded@.len() == presented@.len() && forall|i: int|
            0 <= i < recorded@.len() ==> recorded@[i] == #[trigger] presented@[i],
        proven == turned,
        !without,
        !other,
{
    assert(proven <==> recorded@ =~= presented@);
}

/// A fingerprint is the account's hash, and there is none without an account, without a hash, or
/// of an account without a secret.
pub proof fn law_no_fingerprint_without_a_secret(
    known_account: bool,
    transient: bool,
    hashed: Option<Vec<u8>>,
    fingerprint: Option<Vec<u8>>,
)
    requires
        call_ensures(derive, (known_account, transient, hashed), fingerprint),
    ensures
        fingerprint is Some <==> known_account && !transient && hashed is Some,
        fingerprint is Some ==> fingerprint == hashed,
{
}

} // verus!
