//! Which browser origins may open a control connection to this agent.
//!
//! A WebSocket is exempt from the same-origin policy and from CORS preflight, so any page a
//! user happened to visit could open the agent's socket. A browser sets `Origin` on the
//! handshake itself and page script cannot change it, so for a hostile page this is a real
//! boundary.
//!
//! It is not a boundary against a native process on the same machine, which writes whatever
//! `Origin` it likes, or none. A handshake without one is therefore admitted: refusing it would
//! lock out native clients and stop no one who can already run code locally.

use crate::text;
use crate::text::{lists, split, starts_with, trim};
use vstd::prelude::*;
use vstd::string::StrSliceExecFns;
use vstd::string::StringExecFns;

verus! {

/// The configured decision. There is no default: an operator must say which origins are theirs.
#[derive(Debug, Clone, PartialEq, Eq)]
pub enum OriginPolicy {
    /// Only these exact origins, compared character for character.
    Allow(Vec<String>),
    /// Every origin. Explicit opt-in only: `*` in the configuration.
    Any,
}

/// The entries of a comma-separated list: trimmed, the empty ones left out.
pub open spec fn listed(spec: Seq<char>) -> Seq<Seq<char>> {
    text::pieces(spec, ',').map_values(|piece: Seq<char>| text::trimmed(piece)).filter(
        |entry: Seq<char>| entry.len() > 0,
    )
}

/// `entry` ends in a slash.
pub open spec fn slash_ended(entry: Seq<char>) -> bool {
    entry.len() > 0 && entry.last() == '/'
}

/// `entry` has neither of the schemes that an `Origin` header can have.
pub open spec fn without_scheme(entry: Seq<char>) -> bool {
    !text::begins_with(entry, "http://"@) && !text::begins_with(entry, "https://"@)
}

/// The first entry that is bad, if any is.
pub open spec fn first_bad(
    entries: Seq<Seq<char>>,
    bad: spec_fn(Seq<char>) -> bool,
) -> Option<Seq<char>>
    decreases entries.len(),
{
    if entries.len() == 0 {
        None
    } else if bad(entries.first()) {
        Some(entries.first())
    } else {
        first_bad(entries.drop_first(), bad)
    }
}

/// What a specification means: the list of admitted origins (`None` for every origin), or the
/// text that says what is wrong with it.
pub open spec fn meaning(spec: Seq<char>) -> Result<Option<Seq<Seq<char>>>, Seq<char>> {
    let entries = listed(spec);
    if entries.len() == 0 {
        Err("no origins given: pass an explicit list, or `*` to accept any origin"@)
    } else if entries.contains("*"@) {
        if entries.len() > 1 {
            Err("`*` cannot be combined with specific origins: it already allows them"@)
        } else {
            Ok(None)
        }
    } else if let Some(bad) = first_bad(entries, |e: Seq<char>| slash_ended(e)) {
        Err("origin `"@ + bad + "` has a trailing slash; browsers send no path component"@)
    } else if let Some(bad) = first_bad(entries, |e: Seq<char>| without_scheme(e)) {
        Err(
            "origin `"@ + bad
                + "` has no scheme; an Origin header is always scheme://host[:port]"@,
        )
    } else {
        Ok(Some(entries))
    }
}

proof fn lemma_first_bad(
    entries: Seq<Seq<char>>,
    bad: spec_fn(Seq<char>) -> bool,
    i: int,
)
    requires
        0 <= i <= entries.len(),
        forall|j: int| 0 <= j < i ==> !bad(#[trigger] entries[j]),
        i < entries.len() ==> bad(entries[i]),
    ensures
        first_bad(entries, bad) == if i < entries.len() {
            Some(entries[i])
        } else {
            None
        },
    decreases i,
{
    if i > 0 {
        assert(!bad(entries[0]));
        assert forall|j: int| 0 <= j < i - 1 implies !bad(#[trigger] entries.drop_first()[j]) by {
            assert(!bad(entries[j + 1]));
        }
        lemma_first_bad(entries.drop_first(), bad, i - 1);
    }
}

/// The entries of a comma-separated list.
fn entries_of(spec: &str) -> (entries: Vec<String>)
    ensures
        text::texts(entries@) == listed(spec@),
{
    let pieces: Vec<String> = split(spec, ',');
    let ghost keep = |entry: Seq<char>| entry.len() > 0;
    let ghost all = text::pieces(spec@, ',').map_values(|piece: Seq<char>| text::trimmed(piece));
    let mut entries: Vec<String> = Vec::new();
    let mut i: usize = 0;
    assert(all.take(0).filter(keep) =~= Seq::<Seq<char>>::empty()) by {
        reveal(Seq::filter);
    }
    assert(text::texts(entries@) =~= all.take(0).filter(keep));
    while i < pieces.len()
        invariant
            i <= pieces.len(),
            text::texts(pieces@) == text::pieces(spec@, ','),
            keep == (|entry: Seq<char>| entry.len() > 0),
            all == text::pieces(spec@, ',').map_values(
                |piece: Seq<char>| text::trimmed(piece),
            ),
            text::texts(entries@) == all.take(i as int).filter(keep),
        decreases pieces.len() - i,
    {
        assert(text::texts(pieces@)[i as int] == pieces@[i as int]@);
        let entry = trim(pieces[i].as_str());
        assert(all[i as int] == entry@);
        assert(all.take(i + 1).drop_last() =~= all.take(i as int));
        let ghost before = entries@;
        proof {
            reveal(Seq::filter);
        }
        if !entry.is_empty() {
            entries.push(entry.to_owned());
            assert(text::texts(entries@) =~= text::texts(before).push(entry@));
        }
        i = i + 1;
    }
    assert(all.take(i as int) =~= all);
    entries
}

impl OriginPolicy {
    /// The admitted origins, as their characters; `None` for every origin.
    pub open spec fn admitted(self) -> Option<Seq<Seq<char>>> {
        match self {
            OriginPolicy::Allow(entries) => Some(text::texts(entries@)),
            OriginPolicy::Any => None,
        }
    }

    /// Whether a handshake carrying this `Origin` may proceed.
    pub open spec fn allows(self, origin: Option<Seq<char>>) -> bool {
        match (self.admitted(), origin) {
            (Some(entries), Some(origin)) => entries.contains(origin),
            _ => true,
        }
    }

    /// Parse a comma-separated specification.
    ///
    /// `*` alone means [`OriginPolicy::Any`]. Anything else is a list of exact origins, e.g.
    /// `http://localhost:5291,https://app.example.com`.
    pub fn parse(spec: &str) -> (parsed: Result<Self, String>)
        ensures
            match parsed {
                Ok(policy) => meaning(spec@) == Ok::<_, Seq<char>>(policy.admitted()),
                Err(problem) => meaning(spec@) == Err::<Option<Seq<Seq<char>>>, _>(problem@),
            },
    {
        let entries: Vec<String> = entries_of(spec);
        let ghost list = listed(spec@);
        let n: usize = entries.len();
        if n == 0 {
            return Err(
                "no origins given: pass an explicit list, or `*` to accept any origin".to_owned(),
            );
        }
        if lists(&entries, "*") {
            if n > 1 {
                // Such a list reads as "these, plus a wildcard", which is the wildcard.
                return Err(
                    "`*` cannot be combined with specific origins: it already allows them".to_owned(),
                );
            }
            return Ok(OriginPolicy::Any);
        }
        // A trailing slash is the classic mismatch: browsers send no path, so such an entry
        // never matches and the failure looks like the agent being down.
        let ghost slash = |e: Seq<char>| slash_ended(e);
        let mut i: usize = 0;
        while i < n
            invariant
                i <= n == entries.len(),
                n > 0,
                list == listed(spec@),
                text::texts(entries@) == list,
                !list.contains("*"@),
                slash == (|e: Seq<char>| slash_ended(e)),
                forall|j: int| 0 <= j < i ==> !slash(#[trigger] list[j]),
            decreases n - i,
        {
            assert(list[i as int] == entries@[i as int]@);
            let len: usize = entries[i].as_str().unicode_len();
            if len > 0 && entries[i].as_str().get_char(len - 1) == '/' {
                proof {
                    lemma_first_bad(list, slash, i as int);
                }
                return Err(
                    "origin `".to_owned().concat(entries[i].as_str()).concat(
                        "` has a trailing slash; browsers send no path component",
                    ),
                );
            }
            i = i + 1;
        }
        proof {
            lemma_first_bad(list, slash, n as int);
        }
        let ghost bare = |e: Seq<char>| without_scheme(e);
        i = 0;
        while i < n
            invariant
                i <= n == entries.len(),
                n > 0,
                list == listed(spec@),
                text::texts(entries@) == list,
                !list.contains("*"@),
                slash == (|e: Seq<char>| slash_ended(e)),
                first_bad(list, slash) is None,
                bare == (|e: Seq<char>| without_scheme(e)),
                forall|j: int| 0 <= j < i ==> !bare(#[trigger] list[j]),
            decreases n - i,
        {
            assert(list[i as int] == entries@[i as int]@);
            let entry = entries[i].as_str();
            if !starts_with(entry, "http://") && !starts_with(entry, "https://") {
                proof {
                    lemma_first_bad(list, bare, i as int);
                }
                return Err(
                    "origin `".to_owned().concat(entry).concat(
                        "` has no scheme; an Origin header is always scheme://host[:port]",
                    ),
                );
            }
            i = i + 1;
        }
        proof {
            lemma_first_bad(list, bare, n as int);
        }
        Ok(OriginPolicy::Allow(entries))
    }

    /// May a handshake carrying this `Origin` proceed?
    pub fn permits(&self, origin: Option<&str>) -> (permitted: bool)
        ensures
            permitted == self.allows(
                match origin {
                    Some(o) => Some(o@),
                    None => None,
                },
            ),
    {
        match self {
            OriginPolicy::Any => true,
            OriginPolicy::Allow(entries) => {
                match origin {
                    Some(given) => lists(entries, given),
                    None => true,
                }
            },
        }
    }
}

/// A specification that names origins admits exactly those: an origin passes if and only if it
/// is one of the entries, each of which has a scheme and no trailing slash.
pub proof fn law_exactly_the_listed(spec: Seq<char>, policy: OriginPolicy, origin: Seq<char>)
    requires
        policy is Allow,
        meaning(spec) == Ok::<_, Seq<char>>(policy.admitted()),
    ensures
        policy.allows(Some(origin)) == listed(spec).contains(origin),
        policy.allows(Some(origin)) ==> !slash_ended(origin) && !without_scheme(origin) && origin
            != "*"@,
{
    let entries = listed(spec);
    let slash = |e: Seq<char>| slash_ended(e);
    let bare = |e: Seq<char>| without_scheme(e);
    if entries.contains(origin) {
        let i = choose|i: int| 0 <= i < entries.len() && entries[i] == origin;
        lemma_none_bad(entries, slash, i);
        lemma_none_bad(entries, bare, i);
    }
}

proof fn lemma_none_bad(entries: Seq<Seq<char>>, bad: spec_fn(Seq<char>) -> bool, i: int)
    requires
        0 <= i < entries.len(),
        first_bad(entries, bad) is None,
    ensures
        !bad(entries[i]),
    decreases entries.len(),
{
    if i > 0 {
        lemma_none_bad(entries.drop_first(), bad, i - 1);
    }
}

/// Every origin is admitted only where the wildcard is the whole specification.
pub proof fn law_wildcard_stands_alone(spec: Seq<char>)
    ensures
        meaning(spec) == Ok::<Option<Seq<Seq<char>>>, Seq<char>>(None) <==> listed(spec) == seq![
            "*"@,
        ],
{
    let entries = listed(spec);
    if entries.contains("*"@) && entries.len() == 1 {
        assert(entries =~= seq!["*"@]);
    }
    if entries == seq!["*"@] {
        assert(entries[0] == "*"@);
    }
}

/// A specification that lists nothing is refused: it is never an empty list.
pub proof fn law_no_empty_list(spec: Seq<char>)
    ensures
        meaning(spec) matches Ok(Some(entries)) ==> entries.len() > 0,
{
}

/// A list is read entry by entry: without a comma it is one entry, the text without the white
/// space round it, or none where that is empty; and a comma parts the entries of what stands
/// before it from those of what stands behind it.
pub proof fn law_entries_between_commas(x: Seq<char>, y: Seq<char>)
    ensures
        !x.contains(',') ==> listed(x) == if text::trimmed(x).len() == 0 {
            Seq::<Seq<char>>::empty()
        } else {
            seq![text::trimmed(x)]
        },
        listed(x + seq![','] + y) == listed(x) + listed(y),
{
    let trim = |piece: Seq<char>| text::trimmed(piece);
    let keep = |entry: Seq<char>| entry.len() > 0;
    text::law_pieces(x, y, ',');
    let a = text::pieces(x, ',');
    let b = text::pieces(y, ',');
    assert((a + b).map_values(trim) =~= a.map_values(trim) + b.map_values(trim));
    Seq::filter_distributes_over_add(a.map_values(trim), b.map_values(trim), keep);
    if !x.contains(',') {
        let one = a.map_values(trim);
        assert(one =~= seq![text::trimmed(x)]);
        reveal(Seq::filter);
        assert(one.drop_last() =~= Seq::<Seq<char>>::empty());
        assert(one.drop_last().filter(keep) =~= Seq::<Seq<char>>::empty());
        assert(one.last() == text::trimmed(x));
        assert(listed(x) =~= if text::trimmed(x).len() == 0 {
            Seq::<Seq<char>>::empty()
        } else {
            seq![text::trimmed(x)]
        });
    }
}

/// An origin that the operator lists is admitted, wherever in the list it stands and whatever
/// white space is round it.
pub proof fn law_a_listed_origin_is_admitted(
    spec: Seq<char>,
    policy: OriginPolicy,
    before: Seq<char>,
    lead: Seq<char>,
    origin: Seq<char>,
    tail: Seq<char>,
    behind: Seq<char>,
)
    requires
        meaning(spec) == Ok::<_, Seq<char>>(policy.admitted()),
        spec == before + seq![','] + (lead + origin + tail + seq![','] + behind),
        origin.len() > 0,
        !text::whitespace(origin.first()),
        !text::whitespace(origin.last()),
        !(lead + origin + tail).contains(','),
        forall|i: int| 0 <= i < lead.len() ==> text::whitespace(#[trigger] lead[i]),
        forall|i: int| 0 <= i < tail.len() ==> text::whitespace(#[trigger] tail[i]),
    ensures
        listed(spec).contains(origin),
        policy.allows(Some(origin)),
{
    let written = lead + origin + tail;
    text::law_trimming(lead, origin, tail);
    law_entries_between_commas(before, written + seq![','] + behind);
    law_entries_between_commas(written, behind);
    let at = listed(before).len() as int;
    assert(listed(written)[0] == origin);
    assert(listed(spec)[at] == origin);
}

/// What each specification means. Nothing listed, or the wildcard with anything beside it, is
/// refused; so is the first entry that ends in a slash, and, where none does, the first that has
/// no scheme. `i` is where that entry stands.
pub proof fn law_what_a_specification_means(spec: Seq<char>, i: int)
    ensures
        listed(spec).len() == 0 ==> meaning(spec) == Err::<Option<Seq<Seq<char>>>, _>(
            "no origins given: pass an explicit list, or `*` to accept any origin"@,
        ),
        listed(spec).contains("*"@) && listed(spec).len() > 1 ==> meaning(spec) == Err::<
            Option<Seq<Seq<char>>>,
            _,
        >("`*` cannot be combined with specific origins: it already allows them"@),
        !listed(spec).contains("*"@) && 0 <= i < listed(spec).len() && listed(spec)[i].len() > 0
            && listed(spec)[i].last() == '/' && (forall|j: int|
            0 <= j < i ==> !((#[trigger] listed(spec)[j]).len() > 0 && listed(spec)[j].last()
                == '/')) ==> meaning(spec) == Err::<Option<Seq<Seq<char>>>, _>(
            "origin `"@ + listed(spec)[i]
                + "` has a trailing slash; browsers send no path component"@,
        ),
        !listed(spec).contains("*"@) && 0 <= i < listed(spec).len() && (forall|j: int|
            0 <= j < listed(spec).len() ==> !((#[trigger] listed(spec)[j]).len() > 0 && listed(
                spec,
            )[j].last() == '/')) && !"http://"@.is_prefix_of(listed(spec)[i])
            && !"https://"@.is_prefix_of(listed(spec)[i]) && (forall|j: int|
            0 <= j < i ==> "http://"@.is_prefix_of(#[trigger] listed(spec)[j])
                || "https://"@.is_prefix_of(listed(spec)[j])) ==> meaning(spec) == Err::<
            Option<Seq<Seq<char>>>,
            _,
        >(
            "origin `"@ + listed(spec)[i]
                + "` has no scheme; an Origin header is always scheme://host[:port]"@,
        ),
        listed(spec).len() > 0 && !listed(spec).contains("*"@) && (forall|j: int|
            0 <= j < listed(spec).len() ==> !((#[trigger] listed(spec)[j]).len() > 0 && listed(
                spec,
            )[j].last() == '/') && ("http://"@.is_prefix_of(listed(spec)[j])
                || "https://"@.is_prefix_of(listed(spec)[j]))) ==> meaning(spec) == Ok::<
            Option<Seq<Seq<char>>>,
            Seq<char>,
        >(Some(listed(spec))),
{
    let entries = listed(spec);
    let slash = |e: Seq<char>| slash_ended(e);
    let bare = |e: Seq<char>| without_scheme(e);
    let n = entries.len() as int;
    if 0 <= i < n && slash(entries[i]) && (forall|j: int| 0 <= j < i ==> !slash(
        #[trigger] entries[j],
    )) {
        lemma_first_bad(entries, slash, i);
    }
    if forall|j: int| 0 <= j < n ==> !slash(#[trigger] entries[j]) {
        lemma_first_bad(entries, slash, n);
        if 0 <= i < n && bare(entries[i]) && (forall|j: int| 0 <= j < i ==> !bare(
            #[trigger] entries[j],
        )) {
            lemma_first_bad(entries, bare, i);
        }
        if forall|j: int| 0 <= j < n ==> !bare(#[trigger] entries[j]) {
            lemma_first_bad(entries, bare, n);
        }
    }
}

/// A list of origins admits those that are on it, compared character for character, and every
/// handshake that names none; without a list every handshake is admitted.
pub proof fn law_who_is_admitted(policy: OriginPolicy, origin: Option<Seq<char>>)
    ensures
        policy is Any ==> policy.allows(origin),
        origin is None ==> policy.allows(origin),
        policy matches OriginPolicy::Allow(list) ==> (origin is Some ==> (policy.allows(origin)
            <==> exists|i: int| 0 <= i < list@.len() && (#[trigger] list@[i])@ == origin->0)),
        policy matches OriginPolicy::Allow(list) ==> policy.admitted() is Some,
        policy is Any ==> policy.admitted() is None,
{
    if let OriginPolicy::Allow(list) = policy {
        if let Some(given) = origin {
            let entries = text::texts(list@);
            text::law_texts(list@);
            if policy.allows(origin) {
                let i = choose|i: int| 0 <= i < entries.len() && entries[i] == given;
                assert(list@[i]@ == given);
            }
            if exists|i: int| 0 <= i < list@.len() && (#[trigger] list@[i])@ == given {
                let i = choose|i: int| 0 <= i < list@.len() && (#[trigger] list@[i])@ == given;
                assert(entries[i] == given);
            }
        }
    }
}

/// One origin that the operator gives, with whatever white space round it, is admitted, and no
/// other origin is; a handshake without an origin is.
pub proof fn law_the_one_given_origin_admits(
    spec: &str,
    policy: OriginPolicy,
    origin: &str,
    permitted: bool,
    without: bool,
    none: Option<&str>,
)
    requires
        call_ensures(OriginPolicy::parse, (spec,), Ok::<OriginPolicy, String>(policy)),
        !spec@.contains(','),
        text::trimmed(spec@) != "*"@,
        call_ensures(OriginPolicy::permits, (&policy, Some(origin)), permitted),
        none is None,
        call_ensures(OriginPolicy::permits, (&policy, none), without),
    ensures
        permitted <==> origin@ == text::trimmed(spec@),
        without,
{
    law_entries_between_commas(spec@, Seq::empty());
    let entries = listed(spec@);
    if text::trimmed(spec@).len() > 0 {
        assert(entries[0] == text::trimmed(spec@));
        assert(entries.contains(origin@) <==> origin@ == text::trimmed(spec@));
        assert(!entries.contains("*"@));
    }
}

} // verus!
