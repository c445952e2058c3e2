//! HTTP Basic authentication of a push, keyed on owner, repository and token.
//!
//! The decision has two steps with a store lookup between them:
//! [`basic_auth`] reads the request and either settles it or names the triple
//! to look for among the tokens of the owner in the path; [`authorize`]
//! compares the store's answer with that triple.
use vstd::prelude::*;
use vstd::string::StringSliceAdditionalSpecFns;
use vstd::utf8::{decode_utf8, valid_utf8};
use crate::codec::{base64_decode, base64_decoded, base64_limit, utf8_string};
use crate::http::{Response, ResponseView};
use crate::repo::{canonical_name, canonical_repo};
use crate::text::{field, nth_field, nth_word, same, word};

verus! {

/// One token of the store: the project it belongs to, that project's owner,
/// and the token itself.
#[derive(Debug, Clone, PartialEq, Eq)]
pub struct TokenRow {
    pub project_name: String,
    pub project_owner: String,
    pub token: String,
}

/// What a request has to be matched against.
#[derive(Debug, Clone, PartialEq, Eq)]
pub struct Credentials {
    /// The owner in the path of the request.
    pub owner: String,
    /// The repository of the request, without a trailing `.git`.
    pub repo: String,
    /// The token from the `Authorization` header.
    pub token: String,
}

/// The mathematical content of [`Credentials`] and of a [`TokenRow`].
pub struct Triple {
    pub owner: Seq<char>,
    pub repo: Seq<char>,
    pub token: Seq<char>,
}

impl View for Credentials {
    type V = Triple;

    open spec fn view(&self) -> Triple {
        Triple { owner: self.owner@, repo: self.repo@, token: self.token@ }
    }
}

impl View for TokenRow {
    type V = Triple;

    open spec fn view(&self) -> Triple {
        Triple { owner: self.project_owner@, repo: self.project_name@, token: self.token@ }
    }
}

/// What [`basic_auth`] decides.
#[derive(Debug, Clone, PartialEq, Eq)]
pub enum AuthStep {
    /// Authentication is switched off: the request goes through.
    Pass,
    /// The request is answered at once.
    Reject(Response),
    /// The tokens of `owner` are needed to decide.
    Lookup(Credentials),
}

/// The mathematical content of an [`AuthStep`].
pub enum AuthStepView {
    Pass,
    Reject(ResponseView),
    Lookup(Triple),
}

impl View for AuthStep {
    type V = AuthStepView;

    open spec fn view(&self) -> AuthStepView {
        match self {
            AuthStep::Pass => AuthStepView::Pass,
            AuthStep::Reject(r) => AuthStepView::Reject(r@),
            AuthStep::Lookup(c) => AuthStepView::Lookup(c@),
        }
    }
}

/// What the store answered when asked for an owner's tokens.
#[derive(Debug, Clone, PartialEq, Eq)]
pub enum TokenLookup {
    /// The tokens of the owner's projects.
    Rows(Vec<TokenRow>),
    /// The store knows no such row.
    NotFound,
    /// The store failed.
    Failed,
}

/// A 401 that asks for Basic credentials in `realm`.
pub open spec fn unauthorized(realm_header: Seq<char>) -> ResponseView {
    ResponseView {
        status: 401,
        headers: seq![("WWW-Authenticate"@, realm_header)],
        body: Seq::empty(),
    }
}

/// The answer to a request without usable credentials.
pub open spec fn auth_required() -> ResponseView {
    unauthorized("Basic realm=\"git\""@)
}

/// The answer to a request whose credentials match no token.
pub open spec fn auth_failed() -> ResponseView {
    unauthorized("Basic realm=\"failed to login\""@)
}

/// What follows from the decoded credentials of a request for the
/// repository `repo` of `owner`. They must be UTF-8. The token is what stands
/// between the first colon and the second, or the end; credentials without a
/// colon carry the empty token. What stands before the first colon, the
/// user, is not compared with anything: the owner to match is the one in the
/// path.
pub open spec fn credentials_step(
    owner: Seq<char>,
    repo: Seq<char>,
    decoded: Option<Seq<u8>>,
) -> AuthStepView {
    match decoded {
        Some(bytes) if valid_utf8(bytes) => AuthStepView::Lookup(
            Triple {
                owner,
                repo: canonical_name(repo),
                token: field(decode_utf8(bytes), ':', 1),
            },
        ),
        _ => AuthStepView::Reject(auth_required()),
    }
}

/// What is decided on the request alone.
pub open spec fn auth_step(
    git_auth: bool,
    owner: Seq<char>,
    repo: Seq<char>,
    authorization: Option<Seq<char>>,
) -> AuthStepView {
    if !git_auth {
        AuthStepView::Pass
    } else {
        match authorization {
            None => AuthStepView::Reject(auth_required()),
            Some(header) => {
                let encoded = vstd::utf8::encode_utf8(word(header, 1));
                if word(header, 0) != "Basic"@ || encoded.len() > base64_limit() {
                    AuthStepView::Reject(auth_required())
                } else {
                    credentials_step(owner, repo, base64_decoded(encoded))
                }
            },
        }
    }
}

/// Whether some row of the store is the triple that the request supplied.
pub open spec fn has_match(rows: Seq<TokenRow>, wanted: Triple) -> bool {
    exists|i: int| 0 <= i < rows.len() && (#[trigger] rows[i])@ == wanted
}

/// The answer that the store's reply leads to; `None` lets the request
/// through.
pub open spec fn verdict(wanted: Triple, tokens: TokenLookup) -> Option<ResponseView> {
    match tokens {
        TokenLookup::Rows(rows) => if has_match(rows@, wanted) {
            None
        } else {
            Some(auth_failed())
        },
        TokenLookup::NotFound => Some(auth_failed()),
        TokenLookup::Failed => Some(auth_required()),
    }
}

fn reject(realm_header: &str) -> (r: Response)
    ensures
        r@ == unauthorized(realm_header@),
{
    let r = Response::new(401).header("WWW-Authenticate", realm_header);
    assert(r@.headers =~= seq![("WWW-Authenticate"@, realm_header@)]);
    r
}

/// Reads the token out of the decoded credentials of a request for the
/// repository `repo` of `owner`, and names the triple to look for.
pub fn credentials_from(owner: &str, repo: &str, decoded: Option<Vec<u8>>) -> (step: AuthStep)
    ensures
        step@ == credentials_step(
            owner@,
            repo@,
            match decoded {
                Some(bytes) => Some(bytes@),
                None => None,
            },
        ),
{
    let bytes = match decoded {
        Some(bytes) => bytes,
        None => { return AuthStep::Reject(reject("Basic realm=\"git\"")); },
    };
    match utf8_string(bytes) {
        None => AuthStep::Reject(reject("Basic realm=\"git\"")),
        Some(text) => AuthStep::Lookup(
            Credentials {
                owner: owner.to_owned(),
                repo: canonical_repo(repo),
                token: nth_field(text.as_str(), ':', 1),
            },
        ),
    }
}

/// Decides on the request alone, for the repository `repo` of `owner` as the
/// path names them. With authentication switched off every request passes.
/// Otherwise the `Authorization` header must be there, name the scheme
/// `Basic`, and carry base64 of `user:token`; if so the tokens of `owner` are
/// to be looked up, and if not the request is answered with 401 in the realm
/// `git`.
pub fn basic_auth(git_auth: bool, owner: &str, repo: &str, authorization: Option<&str>) -> (step:
    AuthStep)
    ensures
        step@ == auth_step(
            git_auth,
            owner@,
            repo@,
            match authorization {
                Some(header) => Some(header@),
                None => None,
            },
        ),
{
    if !git_auth {
        return AuthStep::Pass;
    }
    let header = match authorization {
        Some(header) => header,
        None => { return AuthStep::Reject(reject("Basic realm=\"git\"")); },
    };
    let scheme = nth_word(header, 0);
    let encoded = nth_word(header, 1);
    if !same(scheme.as_str(), "Basic") {
        return AuthStep::Reject(reject("Basic realm=\"git\""));
    }
    let input = encoded.as_str().as_bytes();
    if input.len() > usize::MAX / 8 {
        return AuthStep::Reject(reject("Basic realm=\"git\""));
    }
    credentials_from(owner, repo, base64_decode(input))
}

/// Whether `row` is the triple that the request supplied.
fn row_matches(row: &TokenRow, wanted: &Credentials) -> (b: bool)
    ensures
        b == (row@ == wanted@),
{
    same(row.token.as_str(), wanted.token.as_str()) && same(
        row.project_name.as_str(),
        wanted.repo.as_str(),
    ) && same(row.project_owner.as_str(), wanted.owner.as_str())
}

/// Decides on the store's answer: the request passes, with `None`, exactly
/// if one of the rows holds the project, owner and token that it supplied.
/// No match, and a store that knows no such row, give 401 in the realm
/// `failed to login`; a store that failed gives 401 in the realm `git`.
pub fn authorize(wanted: &Credentials, tokens: &TokenLookup) -> (r: Option<Response>)
    ensures
        match r {
            Some(response) => verdict(wanted@, *tokens) == Some(response@),
            None => verdict(wanted@, *tokens) is None,
        },
{
    match tokens {
        TokenLookup::Rows(rows) => {
            let mut i: usize = 0;
            while i < rows.len()
                invariant
                    i <= rows.len(),
                    *tokens == TokenLookup::Rows(*rows),
                    forall|j: int| 0 <= j < i ==> (#[trigger] rows@[j])@ != wanted@,
                decreases rows.len() - i,
            {
                if row_matches(&rows[i], wanted) {
                    assert(rows@[i as int]@ == wanted@);
                    return None;
                }
                i += 1;
            }
            Some(reject("Basic realm=\"failed to login\""))
        },
        TokenLookup::NotFound => Some(reject("Basic realm=\"failed to login\"")),
        TokenLookup::Failed => Some(reject("Basic realm=\"git\"")),
    }
}

/// With authentication switched on no request passes on its own word: one
/// without an `Authorization` header, or with another scheme than `Basic`,
/// is answered with 401 in the realm `git`, and so is every request that is
/// answered before the store is asked. Where the store is asked, it is asked
/// for the triple of the owner and the repository in the path and the token
/// in the header. Once the store has given the owner's tokens, the request
/// passes exactly if one of them is that triple, and is answered with 401 in
/// the realm `failed to login` otherwise: a token of another owner, or for
/// another project, opens nothing.
pub proof fn lemma_auth_gate(
    owner: Seq<char>,
    repo: Seq<char>,
    authorization: Option<Seq<char>>,
    rows: Vec<TokenRow>,
)
    ensures
        !(auth_step(true, owner, repo, authorization) is Pass),
        authorization is None ==> auth_step(true, owner, repo, authorization)
            == AuthStepView::Reject(auth_required()),
        authorization is Some && word(authorization->0, 0) != "Basic"@ ==> auth_step(
            true,
            owner,
            repo,
            authorization,
        ) == AuthStepView::Reject(auth_required()),
        auth_step(true, owner, repo, authorization) is Reject ==> auth_step(
            true,
            owner,
            repo,
            authorization,
        ) == AuthStepView::Reject(auth_required()),
        auth_step(true, owner, repo, authorization) matches AuthStepView::Lookup(wanted) ==> {
            &&& wanted.owner == owner
            &&& wanted.repo == canonical_name(repo)
            &&& (verdict(wanted, TokenLookup::Rows(rows)) is None <==> exists|i: int|
                0 <= i < rows@.len() && (#[trigger] rows@[i]).project_owner@ == owner
                    && rows@[i].project_name@ == canonical_name(repo) && rows@[i].token@
                    == wanted.token)
            &&& (verdict(wanted, TokenLookup::Rows(rows)) is Some ==> verdict(
                wanted,
                TokenLookup::Rows(rows),
            ) == Some(auth_failed()))
        },
        auth_required().status == 401,
        auth_failed().status == 401,
        auth_required().headers == seq![("WWW-Authenticate"@, "Basic realm=\"git\""@)],
        auth_failed().headers == seq![("WWW-Authenticate"@, "Basic realm=\"failed to login\""@)],
{
    match auth_step(true, owner, repo, authorization) {
        AuthStepView::Lookup(wanted) => {
            if has_match(rows@, wanted) {
                let i = choose|i: int| 0 <= i < rows@.len() && (#[trigger] rows@[i])@ == wanted;
                assert(rows@[i].project_owner@ == owner);
            }
            if exists|i: int|
                0 <= i < rows@.len() && (#[trigger] rows@[i]).project_owner@ == owner
                    && rows@[i].project_name@ == canonical_name(repo) && rows@[i].token@
                    == wanted.token {
                let i = choose|i: int|
                    0 <= i < rows@.len() && (#[trigger] rows@[i]).project_owner@ == owner
                        && rows@[i].project_name@ == canonical_name(repo) && rows@[i].token@
                        == wanted.token;
                assert(rows@[i]@ == wanted);
            }
        },
        _ => {},
    }
}

} // verus!
