//! Which failures of a connect are worth repeating.

use crate::kernel::reconnect::policy::FailureKind;
use crate::text;
use crate::text::{chars_of, starts_with};
use vstd::prelude::*;
use vstd::string::StrSliceExecFns;

verus! {

/// The error of a connect, as far as it matters here.
#[derive(Debug, Clone, Copy, PartialEq, Eq, Structural)]
pub enum ErrorCode {
    AccountClientNonExists,
    AccountServerNonExists,
    AccountInvalidUsername,
    AccountInvalidPassword,
    AccountDisengaged,
    /// The server refused, and its own error is in the message.
    RemoteConnectFailed,
    /// Any other error.
    Other,
}

impl ErrorCode {
    /// An account error that a retry cannot fix.
    pub open spec fn refusal(self) -> bool {
        match self {
            ErrorCode::AccountClientNonExists => true,
            ErrorCode::AccountServerNonExists => true,
            ErrorCode::AccountInvalidUsername => true,
            ErrorCode::AccountInvalidPassword => true,
            ErrorCode::AccountDisengaged => true,
            _ => false,
        }
    }

    /// Whether this is an account error that a retry cannot fix.
    pub fn is_refusal(&self) -> (r: bool)
        ensures
            r == self.refusal(),
    {
        match self {
            ErrorCode::AccountClientNonExists => true,
            ErrorCode::AccountServerNonExists => true,
            ErrorCode::AccountInvalidUsername => true,
            ErrorCode::AccountInvalidPassword => true,
            ErrorCode::AccountDisengaged => true,
            _ => false,
        }
    }
}

/// The part of a message template before its first placeholder.
pub open spec fn lead(template: Seq<char>) -> Seq<char>
    decreases template.len(),
{
    if template.len() == 0 || (template.len() >= 2 && template[0] == '{' && template[1] == '}') {
        Seq::empty()
    } else {
        seq![template[0]] + lead(template.drop_first())
    }
}

proof fn lemma_lead(template: Seq<char>, i: int)
    requires
        0 <= i <= template.len(),
        forall|j: int|
            0 <= j < i ==> !(j + 1 < template.len() && #[trigger] template[j] == '{' && template[j
                + 1] == '}'),
        i < template.len() ==> i + 1 < template.len() && template[i] == '{' && template[i + 1]
            == '}',
    ensures
        lead(template) == template.take(i),
    decreases i,
{
    if i > 0 {
        let rest = template.drop_first();
        assert(!(1 < template.len() && template[0] == '{' && template[1] == '}'));
        assert forall|j: int| 0 <= j < i - 1 implies !(j + 1 < rest.len() && #[trigger] rest[j]
            == '{' && rest[j + 1] == '}') by {
            assert(rest[j] == template[j + 1]);
            if j + 1 < rest.len() {
                assert(rest[j + 1] == template[j + 1 + 1]);
            }
            assert(!(j + 1 + 1 < template.len() && template[j + 1] == '{' && template[j + 1 + 1]
                == '}'));
        }
        lemma_lead(rest, i - 1);
        assert(template.take(i) =~= seq![template[0]] + rest.take(i - 1));
    } else {
        assert(template.take(0) =~= Seq::<char>::empty());
    }
}

/// The part of a message template before its first placeholder.
fn lead_text(template: &str) -> (part: &str)
    ensures
        part@ == lead(template@),
{
    let chars: Vec<char> = chars_of(template);
    let mut i: usize = 0;
    while i < chars.len() && !(i + 1 < chars.len() && chars[i] == '{' && chars[i + 1] == '}')
        invariant
            i <= chars.len(),
            chars@ == template@,
            forall|j: int|
                0 <= j < i ==> !(j + 1 < template@.len() && #[trigger] template@[j] == '{'
                    && template@[j + 1] == '}'),
        decreases chars.len() - i,
    {
        i = i + 1;
    }
    proof {
        lemma_lead(template@, i as int);
    }
    let part = template.substring_char(0, i);
    assert(part@ =~= template@.take(i as int));
    part
}

/// A message that begins as one of the templates does.
pub open spec fn begins_as_one_of(message: Seq<char>, templates: Seq<Seq<char>>) -> bool {
    exists|i: int|
        0 <= i < templates.len() && lead(#[trigger] templates[i]).len() > 0 && text::begins_with(
            message,
            lead(templates[i]),
        )
}

/// Whether a failed connect is worth repeating. `refusals` are the texts of the account errors
/// above, with their placeholders.
///
/// A refusal raised on this side keeps its code. One that the server sends arrives under a code of
/// its own and carries the server's text, so it is recognised by what the text begins with.
pub fn classify(code: ErrorCode, message: &str, refusals: &Vec<String>) -> (kind: FailureKind)
    ensures
        kind == if code.refusal() || (code == ErrorCode::RemoteConnectFailed && begins_as_one_of(
            message@,
            text::texts(refusals@),
        )) {
            FailureKind::Refused
        } else {
            FailureKind::Transient
        },
{
    if code.is_refusal() {
        return FailureKind::Refused;
    }
    if code != ErrorCode::RemoteConnectFailed {
        return FailureKind::Transient;
    }
    let ghost templates = text::texts(refusals@);
    let mut i: usize = 0;
    while i < refusals.len()
        invariant
            i <= refusals.len(),
            templates == text::texts(refusals@),
            code == ErrorCode::RemoteConnectFailed,
            forall|j: int|
                0 <= j < i ==> !(lead(#[trigger] templates[j]).len() > 0 && text::begins_with(
                    message@,
                    lead(templates[j]),
                )),
        decreases refusals.len() - i,
    {
        let part = lead_text(refusals[i].as_str());
        assert(templates[i as int] == refusals@[i as int]@);
        if !part.is_empty() && starts_with(message, part) {
            return FailureKind::Refused;
        }
        i = i + 1;
    }
    FailureKind::Transient
}

/// The account errors, and they alone, are refusals by their code.
pub proof fn law_refusals(code: ErrorCode)
    ensures
        match code {
            ErrorCode::AccountClientNonExists => code.refusal(),
            ErrorCode::AccountServerNonExists => code.refusal(),
            ErrorCode::AccountInvalidUsername => code.refusal(),
            ErrorCode::AccountInvalidPassword => code.refusal(),
            ErrorCode::AccountDisengaged => code.refusal(),
            ErrorCode::RemoteConnectFailed => !code.refusal(),
            ErrorCode::Other => !code.refusal(),
        },
{
}

/// The lead of a template is all that stands before its first placeholder, and all of it where it
/// has none.
pub proof fn law_the_lead_ends_at_the_first_placeholder(before: Seq<char>, behind: Seq<char>)
    requires
        forall|j: int|
            0 <= j < before.len() - 1 ==> !(#[trigger] before[j] == '{' && before[j + 1] == '}'),
    ensures
        lead(before) == before,
        lead(before + seq!['{', '}'] + behind) == before,
{
    lemma_lead(before, before.len() as int);
    assert(before.take(before.len() as int) =~= before);
    let whole = before + seq!['{', '}'] + behind;
    let n = before.len() as int;
    assert forall|j: int| 0 <= j < n implies !(j + 1 < whole.len() && #[trigger] whole[j] == '{'
        && whole[j + 1] == '}') by {
        assert(whole[j] == before[j]);
        if j + 1 < n {
            assert(whole[j + 1] == before[j + 1]);
            assert(!(before[j] == '{' && before[j + 1] == '}'));
        }
    }
    lemma_lead(whole, n);
    assert(whole.take(n) =~= before);
}

/// A message is recognised by any one of the templates, wherever in the list it stands, whose
/// lead is not empty and is what the message begins with; where none is, it is not recognised.
pub proof fn law_recognised_by_any_template(
    message: Seq<char>,
    templates: Seq<Seq<char>>,
    rest: Seq<char>,
    i: int,
)
    ensures
        0 <= i < templates.len() && lead(templates[i]).len() > 0 ==> begins_as_one_of(
            lead(templates[i]) + rest,
            templates,
        ),
        begins_as_one_of(message, templates) ==> exists|k: int|
            0 <= k < templates.len() && lead(#[trigger] templates[k]).len() > 0
                && lead(templates[k]).len() <= message.len() && message.take(
                lead(templates[k]).len() as int,
            ) == lead(templates[k]),
{
    if 0 <= i < templates.len() && lead(templates[i]).len() > 0 {
        text::law_begins_with(message, lead(templates[i]), rest);
        assert(text::begins_with(lead(templates[i]) + rest, lead(templates[i])));
    }
    if begins_as_one_of(message, templates) {
        let k = choose|k: int|
            0 <= k < templates.len() && lead(#[trigger] templates[k]).len() > 0
                && text::begins_with(message, lead(templates[k]));
        text::law_begins_with(message, lead(templates[k]), rest);
        assert(message.take(lead(templates[k]).len() as int) =~= lead(templates[k]));
    }
}

/// Only what the server will say again ends the attempts: an account error by its code, or a
/// refusal of the server whose text begins as that of one of them does.
pub proof fn law_what_is_worth_repeating(
    code: ErrorCode,
    message: &str,
    refusals: Vec<String>,
    kind: FailureKind,
)
    requires
        call_ensures(classify, (code, message, &refusals), kind),
    ensures
        code.refusal() ==> kind is Refused,
        code is Other ==> kind is Transient,
        code is RemoteConnectFailed ==> (kind is Refused <==> begins_as_one_of(
            message@,
            text::texts(refusals@),
        )),
{
}

} // verus!
