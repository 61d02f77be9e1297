//! The token codec: claims of three kinds, signed with one secret and told
//! apart by a flag that the signed payload carries.

use crate::ids::{parse_user_id, simple_id_text, simple_text, uuid_parsed};
use crate::text::same_text;
use vstd::prelude::*;
use vstd::string::*;

verus! {

/// What a token is for.
#[derive(Clone, Copy, Debug, PartialEq, Eq, Structural)]
pub enum ClaimKind {
    /// Authorizes calls as the subject.
    Access,
    /// Exchanged for a new pair of access and refresh tokens.
    Refresh,
    /// Authorizes confirming the newly registered subject.
    Confirm,
}

/// The payload of a token: its purpose and the user it speaks of.
#[derive(Clone, Copy, Debug, PartialEq, Eq, Structural)]
pub struct Claim {
    pub kind: ClaimKind,
    pub subject: u128,
}

/// The value of one member of a signed payload.
#[derive(Clone, Debug, PartialEq, Eq)]
pub enum ClaimValue {
    Text(String),
    Flag(bool),
    /// Any value that is neither text nor a flag.
    Other,
}

/// One named member of a signed payload.
#[derive(Clone, Debug, PartialEq, Eq)]
pub struct ClaimField {
    pub name: String,
    pub value: ClaimValue,
}

/// The single error of decoding: it never says which step failed.
#[derive(Clone, Copy, Debug, PartialEq, Eq, Structural)]
pub struct InvalidToken;

pub enum ClaimValueView {
    Text(Seq<char>),
    Flag(bool),
    Other,
}

pub struct ClaimFieldView {
    pub name: Seq<char>,
    pub value: ClaimValueView,
}

impl View for ClaimValue {
    type V = ClaimValueView;

    open spec fn view(&self) -> ClaimValueView {
        match self {
            ClaimValue::Text(text) => ClaimValueView::Text(text@),
            ClaimValue::Flag(flag) => ClaimValueView::Flag(*flag),
            ClaimValue::Other => ClaimValueView::Other,
        }
    }
}

impl DeepView for ClaimValue {
    type V = ClaimValueView;

    open spec fn deep_view(&self) -> ClaimValueView {
        self@
    }
}

impl View for ClaimField {
    type V = ClaimFieldView;

    open spec fn view(&self) -> ClaimFieldView {
        ClaimFieldView { name: self.name@, value: self.value@ }
    }
}

impl DeepView for ClaimField {
    type V = ClaimFieldView;

    open spec fn deep_view(&self) -> ClaimFieldView {
        self@
    }
}

/// The name under which a payload carries its subject.
pub const SUBJECT_FIELD: &'static str = "sub";

/// The flag that marks an access token.
pub const ACCESS_FLAG: &'static str = "access_token";

/// The flag that marks a refresh token.
pub const REFRESH_FLAG: &'static str = "refresh_token";

/// The flag that marks a confirm token.
pub const CONFIRM_FLAG: &'static str = "confirm_token";

/// The name of the flag that marks a token of the given kind.
pub open spec fn flag_name(kind: ClaimKind) -> Seq<char> {
    match kind {
        ClaimKind::Access => ACCESS_FLAG@,
        ClaimKind::Refresh => REFRESH_FLAG@,
        ClaimKind::Confirm => CONFIRM_FLAG@,
    }
}

/// The value of the first member called `name`, if there is one.
pub open spec fn field_value(fields: Seq<ClaimFieldView>, name: Seq<char>) -> Option<
    ClaimValueView,
>
    decreases fields.len(),
{
    if fields.len() == 0 {
        None
    } else if fields[0].name == name {
        Some(fields[0].value)
    } else {
        field_value(fields.drop_first(), name)
    }
}

/// No two members share a name.
pub open spec fn distinct_names(fields: Seq<ClaimFieldView>) -> bool {
    forall|i: int, j: int|
        0 <= i < j < fields.len() ==> (#[trigger] fields[i]).name != (#[trigger] fields[j]).name
}

/// Two payloads give every name the same value.
pub open spec fn same_claims(a: Seq<ClaimFieldView>, b: Seq<ClaimFieldView>) -> bool {
    forall|name: Seq<char>| #[trigger] field_value(a, name) == field_value(b, name)
}

/// The payload that is signed for a claim: its subject in simple notation and
/// the flag of its kind, set.
pub open spec fn claim_fields(claim: Claim) -> Seq<ClaimFieldView> {
    seq![
        ClaimFieldView {
            name: SUBJECT_FIELD@,
            value: ClaimValueView::Text(simple_text(claim.subject)),
        },
        ClaimFieldView { name: flag_name(claim.kind), value: ClaimValueView::Flag(true) },
    ]
}

/// The claim of the expected kind that a payload holds: its subject must be
/// text that reads as an identifier, and the flag of that kind must be there
/// and set.
pub open spec fn claim_of(fields: Seq<ClaimFieldView>, expected: ClaimKind) -> Option<Claim> {
    match (field_value(fields, SUBJECT_FIELD@), field_value(fields, flag_name(expected))) {
        (Some(ClaimValueView::Text(subject)), Some(ClaimValueView::Flag(true))) => {
            match uuid_parsed(subject) {
                Some(id) => Some(Claim { kind: expected, subject: id }),
                None => None,
            }
        },
        _ => None,
    }
}

/// What `jsonwebtoken::encode` returns for a payload with these members, the
/// default header (HS256) and `key` as the HMAC secret; `None` where it
/// reports an error.
pub uninterp spec fn jwt_signed(key: Seq<u8>, claims: Seq<ClaimFieldView>) -> Option<Seq<char>>;

/// The members of the payload that `jsonwebtoken::decode` returns for `token`
/// with `key` as the HMAC secret, HS256 as the only algorithm and no check of
/// any registered claim; `None` where it reports an error.
pub uninterp spec fn jwt_verified(key: Seq<u8>, token: Seq<char>) -> Option<Seq<ClaimFieldView>>;

#[verifier::external_type_specification]
#[verifier::external_body]
pub struct ExJwtError(jsonwebtoken::errors::Error);

/// Calls `jsonwebtoken::encode` on a JSON object with the given members
/// (`Other` is written as `null`). The contract names the result and claims
/// that `jsonwebtoken::decode`, under the same secret, accepts the token and
/// returns an object that gives every name the value signed: the signature it
/// recomputes is the one just made, and the payload is parsed from the JSON
/// just written.
#[verifier::external_body]
fn jwt_sign(key: &[u8], claims: &Vec<ClaimField>) -> (r: Result<
    String,
    jsonwebtoken::errors::Error,
>)
    requires
        distinct_names(claims.deep_view()),
    ensures
        match r {
            Ok(token) => {
                &&& jwt_signed(key@, claims.deep_view()) == Some(token@)
                &&& jwt_verified(key@, token@) matches Some(back) && same_claims(
                    back,
                    claims.deep_view(),
                )
            },
            Err(_) => jwt_signed(key@, claims.deep_view()) is None,
        },
{
    let mut object = serde_json::Map::new();
    for field in claims.iter() {
        let value = match &field.value {
            ClaimValue::Text(text) => serde_json::Value::String(text.clone()),
            ClaimValue::Flag(flag) => serde_json::Value::Bool(*flag),
            ClaimValue::Other => serde_json::Value::Null,
        };
        object.insert(field.name.clone(), value);
    }
    let secret = jsonwebtoken::EncodingKey::from_secret(key);
    jsonwebtoken::encode(&jsonwebtoken::Header::default(), &object, &secret)
}

/// Calls `jsonwebtoken::decode` for a JSON object, with HS256 as the only
/// algorithm and with the checks of `exp`, `nbf` and `aud` switched off, so
/// that the answer depends on the token and the secret alone. The members
/// come out one for one, in the order in which the object holds them; no two
/// of them share a name.
#[verifier::external_body]
fn jwt_verify(key: &[u8], token: &str) -> (r: Result<Vec<ClaimField>, jsonwebtoken::errors::Error>)
    ensures
        match r {
            Ok(claims) => {
                &&& jwt_verified(key@, token@) == Some(claims.deep_view())
                &&& distinct_names(claims.deep_view())
            },
            Err(_) => jwt_verified(key@, token@) is None,
        },
{
    let mut rules = jsonwebtoken::Validation::new(jsonwebtoken::Algorithm::HS256);
    rules.required_spec_claims.clear();
    rules.validate_exp = false;
    rules.validate_aud = false;
    let secret = jsonwebtoken::DecodingKey::from_secret(key);
    let data = jsonwebtoken::decode::<serde_json::Map<String, serde_json::Value>>(token, &secret, &rules)?;
    Ok(data.claims.into_iter().map(|(name, value)| ClaimField {
        name,
        value: match value {
            serde_json::Value::String(text) => ClaimValue::Text(text),
            serde_json::Value::Bool(flag) => ClaimValue::Flag(flag),
            _ => ClaimValue::Other,
        },
    }).collect())
}

/// The names of a claim's payload differ from one another.
pub proof fn lemma_field_names_differ()
    ensures
        SUBJECT_FIELD@ != ACCESS_FLAG@,
        SUBJECT_FIELD@ != REFRESH_FLAG@,
        SUBJECT_FIELD@ != CONFIRM_FLAG@,
        ACCESS_FLAG@ != REFRESH_FLAG@,
        ACCESS_FLAG@ != CONFIRM_FLAG@,
        REFRESH_FLAG@ != CONFIRM_FLAG@,
        forall|kind: ClaimKind| SUBJECT_FIELD@ != #[trigger] flag_name(kind),
        forall|a: ClaimKind, b: ClaimKind| a != b ==> #[trigger] flag_name(a) != #[trigger] flag_name(b),
{
    reveal_strlit("sub");
    reveal_strlit("access_token");
    reveal_strlit("refresh_token");
    reveal_strlit("confirm_token");
    assert(SUBJECT_FIELD@.len() == 3);
    assert(ACCESS_FLAG@.len() == 12);
    assert(REFRESH_FLAG@.len() == 13);
    assert(CONFIRM_FLAG@.len() == 13);
    assert(REFRESH_FLAG@[0] == 'r');
    assert(CONFIRM_FLAG@[0] == 'c');
}

/// The name of the flag that marks a token of the given kind.
pub fn flag_of(kind: ClaimKind) -> (name: &'static str)
    ensures
        name@ == flag_name(kind),
{
    match kind {
        ClaimKind::Access => ACCESS_FLAG,
        ClaimKind::Refresh => REFRESH_FLAG,
        ClaimKind::Confirm => CONFIRM_FLAG,
    }
}

/// Writes a claim as the payload to sign.
pub fn claim_to_fields(claim: &Claim) -> (fields: Vec<ClaimField>)
    ensures
        fields.deep_view() == claim_fields(*claim),
        distinct_names(fields.deep_view()),
        uuid_parsed(simple_text(claim.subject)) == Some(claim.subject),
{
    let subject = simple_id_text(claim.subject);
    let mut fields: Vec<ClaimField> = Vec::new();
    fields.push(ClaimField { name: SUBJECT_FIELD.to_owned(), value: ClaimValue::Text(subject) });
    fields.push(
        ClaimField { name: flag_of(claim.kind).to_owned(), value: ClaimValue::Flag(true) },
    );
    proof {
        lemma_field_names_differ();
        assert(fields.deep_view() =~= claim_fields(*claim));
    }
    fields
}

/// The token for a claim under `key`, or the empty text where signing fails.
pub open spec fn minted(key: Seq<u8>, claim: Claim) -> Seq<char> {
    match jwt_signed(key, claim_fields(claim)) {
        Some(token) => token,
        None => Seq::empty(),
    }
}

/// `token` was signed for `claim` under `key`: it is what signing gives, it
/// verifies under the same key to a payload with the claim's members, and the
/// subject written in it reads back as the claim's subject.
pub open spec fn issued(key: Seq<u8>, token: Seq<char>, claim: Claim) -> bool {
    &&& jwt_signed(key, claim_fields(claim)) == Some(token)
    &&& jwt_verified(key, token) matches Some(back) && same_claims(back, claim_fields(claim))
    &&& uuid_parsed(simple_text(claim.subject)) == Some(claim.subject)
}

/// Signs `claim` under `key`. Signing fails only inside the signing library;
/// the token is then the empty text.
pub fn encode_token(key: &[u8], claim: &Claim) -> (token: String)
    ensures
        token@ == minted(key@, *claim),
        jwt_signed(key@, claim_fields(*claim)) is Some ==> issued(key@, token@, *claim),
{
    let fields = claim_to_fields(claim);
    match jwt_sign(key, &fields) {
        Ok(token) => token,
        Err(_) => String::new(),
    }
}

/// The value of the first member of `fields` called `name`.
pub fn find_field<'a>(fields: &'a Vec<ClaimField>, name: &str) -> (found: Option<&'a ClaimValue>)
    ensures
        match found {
            Some(value) => field_value(fields.deep_view(), name@) == Some(value@),
            None => field_value(fields.deep_view(), name@) is None,
        },
{
    let ghost all = fields.deep_view();
    let mut i: usize = 0;
    assert(all.skip(0) =~= all);
    while i < fields.len()
        invariant
            i <= fields.len(),
            all == fields.deep_view(),
            field_value(all, name@) == field_value(all.skip(i as int), name@),
        decreases fields.len() - i,
    {
        proof {
            assert(all.skip(i as int)[0] == fields[i as int]@);
            assert(all.skip(i as int).drop_first() =~= all.skip(i + 1));
        }
        if same_text(fields[i].name.as_str(), name) {
            return Some(&fields[i].value);
        }
        i += 1;
    }
    proof {
        assert(all.skip(i as int).len() == 0);
    }
    None
}

/// The claim of the expected kind that a verified payload holds, if it holds
/// one.
pub fn claim_from_fields(fields: &Vec<ClaimField>, expected: ClaimKind) -> (claim: Option<Claim>)
    ensures
        claim == claim_of(fields.deep_view(), expected),
{
    let subject = match find_field(fields, SUBJECT_FIELD) {
        Some(ClaimValue::Text(text)) => text,
        _ => { return None; },
    };
    match find_field(fields, flag_of(expected)) {
        Some(ClaimValue::Flag(true)) => {},
        _ => { return None; },
    }
    match parse_user_id(subject.as_str()) {
        Some(id) => Some(Claim { kind: expected, subject: id }),
        None => None,
    }
}

/// The claim that `token` yields where one of the given kind is expected:
/// the token must verify under `key`, and its payload must hold such a claim.
pub open spec fn decoded_claim(key: Seq<u8>, token: Seq<char>, expected: ClaimKind) -> Option<
    Claim,
> {
    match jwt_verified(key, token) {
        Some(fields) => claim_of(fields, expected),
        None => None,
    }
}

/// The subject of `token` where a token of the given kind is expected.
pub open spec fn token_subject(key: Seq<u8>, token: Seq<char>, expected: ClaimKind) -> Option<
    u128,
> {
    match decoded_claim(key, token, expected) {
        Some(claim) => Some(claim.subject),
        None => None,
    }
}

/// Verifies `token` under `key` and reads the claim of the expected kind from
/// it. Whatever fails, the error is the same.
pub fn decode_token(key: &[u8], token: &str, expected: ClaimKind) -> (r: Result<
    Claim,
    InvalidToken,
>)
    ensures
        match r {
            Ok(claim) => decoded_claim(key@, token@, expected) == Some(claim),
            Err(_) => decoded_claim(key@, token@, expected) is None,
        },
{
    match jwt_verify(key, token) {
        Ok(fields) => match claim_from_fields(&fields, expected) {
            Some(claim) => Ok(claim),
            None => Err(InvalidToken),
        },
        Err(_) => Err(InvalidToken),
    }
}

/// The user that a confirm token speaks of, or nothing for any other text.
pub fn validate_confirm_token(key: &[u8], token: &str) -> (id: Option<u128>)
    ensures
        id == token_subject(key@, token@, ClaimKind::Confirm),
{
    match decode_token(key, token, ClaimKind::Confirm) {
        Ok(claim) => Some(claim.subject),
        Err(_) => None,
    }
}

/// The user that an access token speaks of, or nothing for any other text.
pub fn validate_access_token(key: &[u8], token: &str) -> (id: Option<u128>)
    ensures
        id == token_subject(key@, token@, ClaimKind::Access),
{
    match decode_token(key, token, ClaimKind::Access) {
        Ok(claim) => Some(claim.subject),
        Err(_) => None,
    }
}

/// The user that a refresh token speaks of, or nothing for any other text.
pub fn validate_refresh_token(key: &[u8], token: &str) -> (id: Option<u128>)
    ensures
        id == token_subject(key@, token@, ClaimKind::Refresh),
{
    match decode_token(key, token, ClaimKind::Refresh) {
        Ok(claim) => Some(claim.subject),
        Err(_) => None,
    }
}

/// A payload with the members of a claim holds that claim under its own kind
/// and no claim under any other kind.
pub proof fn lemma_claim_of_own_fields(fields: Seq<ClaimFieldView>, claim: Claim, expected: ClaimKind)
    requires
        same_claims(fields, claim_fields(claim)),
        uuid_parsed(simple_text(claim.subject)) == Some(claim.subject),
    ensures
        expected == claim.kind ==> claim_of(fields, expected) == Some(claim),
        expected != claim.kind ==> claim_of(fields, expected) is None,
{
    lemma_field_names_differ();
    let own = claim_fields(claim);
    assert(own.drop_first() =~= seq![own[1]]);
    assert(own.drop_first().drop_first() =~= Seq::<ClaimFieldView>::empty());
    assert(field_value(fields, SUBJECT_FIELD@) == field_value(own, SUBJECT_FIELD@));
    assert(field_value(fields, flag_name(expected)) == field_value(own, flag_name(expected)));
    assert(field_value(own, SUBJECT_FIELD@) == Some(
        ClaimValueView::Text(simple_text(claim.subject)),
    ));
    if expected == claim.kind {
        assert(field_value(own, flag_name(expected)) == Some(ClaimValueView::Flag(true)));
    } else {
        assert(flag_name(expected) != flag_name(claim.kind));
        assert(field_value(own.drop_first(), flag_name(expected)) is None) by {
            assert(field_value(own.drop_first().drop_first(), flag_name(expected)) is None);
        }
        assert(field_value(own, flag_name(expected)) is None);
    }
}

/// Round trip: a token issued for a claim decodes, under the claim's own
/// kind, to that claim unchanged.
pub proof fn lemma_decode_returns_claim(key: Seq<u8>, token: Seq<char>, claim: Claim)
    requires
        issued(key, token, claim),
    ensures
        decoded_claim(key, token, claim.kind) == Some(claim),
        token_subject(key, token, claim.kind) == Some(claim.subject),
{
    lemma_claim_of_own_fields(jwt_verified(key, token)->0, claim, claim.kind);
}

/// A token issued for a claim of one kind does not decode where another kind
/// is expected.
pub proof fn lemma_decode_rejects_other_kind(
    key: Seq<u8>,
    token: Seq<char>,
    claim: Claim,
    expected: ClaimKind,
)
    requires
        issued(key, token, claim),
        expected != claim.kind,
    ensures
        decoded_claim(key, token, expected) is None,
        token_subject(key, token, expected) is None,
{
    lemma_claim_of_own_fields(jwt_verified(key, token)->0, claim, expected);
}

} // verus!
