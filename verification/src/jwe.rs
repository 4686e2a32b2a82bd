//! Sealing of a result: the claims are signed, and the signed token is then
//! encrypted as the single claim of an outer token. The order is fixed, so
//! that the claims can be read only with the decryption key and the signer
//! can still be checked afterwards.

use vstd::prelude::*;
use crate::attributes::AttributeMap;
use crate::validator::{Outcome, OutcomeView};
use josekit::jwe::alg::ecdh_es::EcdhEsJweEncrypter;
use josekit::jwe::alg::rsaes::RsaesJweEncrypter;
use josekit::jwe::JweHeader;
use josekit::jws::alg::ecdsa::EcdsaJwsSigner;
use josekit::jws::alg::rsassa::RsassaJwsSigner;
use josekit::jws::JwsHeader;
use josekit::jwt::JwtPayload;
use josekit::JoseError;

verus! {

/// `josekit::JoseError`, carried through as it is.
#[verifier::external_type_specification]
#[verifier::external_body]
pub struct ExJoseError(JoseError);

/// `josekit::jwt::JwtPayload`: the claims of a token. `payload_claims`
/// names what it holds.
#[verifier::external_type_specification]
#[verifier::external_body]
pub struct ExJwtPayload(JwtPayload);

/// `josekit::jws::JwsHeader`: the header of a signed token.
#[verifier::external_type_specification]
#[verifier::external_body]
pub struct ExJwsHeader(JwsHeader);

/// `josekit::jwe::JweHeader`: the header of an encrypted token.
#[verifier::external_type_specification]
#[verifier::external_body]
pub struct ExJweHeader(JweHeader);

/// `josekit`'s signer for the RSASSA-PKCS1-v1_5 algorithms.
#[verifier::external_type_specification]
#[verifier::external_body]
pub struct ExRsassaJwsSigner(RsassaJwsSigner);

/// `josekit`'s signer for the ECDSA algorithms.
#[verifier::external_type_specification]
#[verifier::external_body]
pub struct ExEcdsaJwsSigner(EcdsaJwsSigner);

/// `josekit`'s encrypter for the RSAES algorithms.
#[verifier::external_type_specification]
#[verifier::external_body]
pub struct ExRsaesJweEncrypter(RsaesJweEncrypter);

/// `josekit`'s encrypter for the ECDH-ES algorithms.
#[verifier::external_type_specification]
#[verifier::external_body]
pub struct ExEcdhEsJweEncrypter(EcdhEsJweEncrypter);

/// The value of one claim: a text, a number, or a table of texts by name.
pub enum Claim {
    Text(Seq<char>),
    Number(u64),
    Table(Map<Seq<char>, Seq<char>>),
}

/// A value to set a claim to.
pub enum ClaimValue<'a> {
    Text(&'a str),
    Number(u64),
    Table(&'a AttributeMap),
}

impl<'a> View for ClaimValue<'a> {
    type V = Claim;

    open spec fn view(&self) -> Claim {
        match self {
            ClaimValue::Text(text) => Claim::Text(text@),
            ClaimValue::Number(n) => Claim::Number(*n),
            ClaimValue::Table(table) => Claim::Table(table@),
        }
    }
}

/// The claims that a payload holds, by name.
pub uninterp spec fn payload_claims(payload: JwtPayload) -> Map<Seq<char>, Claim>;

/// The claims that the header of a signed token holds, by name.
pub uninterp spec fn jws_header_claims(header: JwsHeader) -> Map<Seq<char>, Seq<char>>;

/// The claims that the header of an encrypted token holds, by name.
pub uninterp spec fn jwe_header_claims(header: JweHeader) -> Map<Seq<char>, Seq<char>>;

/// Whether a payload refuses the value under the name: the registered
/// names `iss`, `sub`, `jti` and `aud` take a text, the three dates `exp`,
/// `nbf` and `iat` a number, and every other name takes any value.
pub open spec fn claim_refused(key: Seq<char>, value: Claim) -> bool {
    if key == "iss"@ || key == "sub"@ || key == "jti"@ || key == "aud"@ {
        !(value is Text)
    } else if key == "exp"@ || key == "nbf"@ || key == "iat"@ {
        !(value is Number)
    } else {
        false
    }
}

/// `JwtPayload::new`: a payload without claims.
#[verifier::external_body]
fn payload_new() -> (r: JwtPayload)
    ensures
        payload_claims(r) == (Map::<Seq<char>, Claim>::empty()),
{
    JwtPayload::new()
}

/// `JwtPayload::set_subject`: sets the claim `sub` to the given text.
#[verifier::external_body]
fn payload_set_subject(payload: &mut JwtPayload, value: &str)
    ensures
        payload_claims(*final(payload)) == payload_claims(*old(payload)).insert(
            "sub"@,
            Claim::Text(value@),
        ),
{
    payload.set_subject(value)
}

/// `JwtPayload::set_claim` with a JSON string, number or object of
/// strings: sets the claim `key` to the value, unless the payload refuses
/// the value under that name; then the payload is left as it was and the
/// error is returned.
#[verifier::external_body]
fn payload_set_claim(payload: &mut JwtPayload, key: &str, value: &ClaimValue) -> (r: Result<
    (),
    JoseError,
>)
    ensures
        r is Err <==> claim_refused(key@, value@),
        payload_claims(*final(payload)) == if r is Ok {
            payload_claims(*old(payload)).insert(key@, value@)
        } else {
            payload_claims(*old(payload))
        },
{
    let json = match value {
        ClaimValue::Text(text) => serde_json::Value::String(text.to_string()),
        ClaimValue::Number(n) => serde_json::Value::Number((*n).into()),
        ClaimValue::Table(table) => serde_json::Value::Object(
            table.entries().iter().map(|e| (e.0.clone(), serde_json::Value::String(e.1.clone()))).collect(),
        ),
    };
    payload.set_claim(key, Some(json))
}

/// `JwsHeader::new`: a header without claims.
#[verifier::external_body]
fn jws_header_new() -> (r: JwsHeader)
    ensures
        jws_header_claims(r) == (Map::<Seq<char>, Seq<char>>::empty()),
{
    JwsHeader::new()
}

/// `JwsHeader::set_token_type`: sets the header claim `typ`.
#[verifier::external_body]
fn jws_header_set_token_type(header: &mut JwsHeader, value: &str)
    ensures
        jws_header_claims(*final(header)) == jws_header_claims(*old(header)).insert("typ"@, value@),
{
    header.set_token_type(value)
}

/// `JweHeader::new`: a header without claims.
#[verifier::external_body]
fn jwe_header_new() -> (r: JweHeader)
    ensures
        jwe_header_claims(r) == (Map::<Seq<char>, Seq<char>>::empty()),
{
    JweHeader::new()
}

/// `JweHeader::set_token_type`: sets the header claim `typ`.
#[verifier::external_body]
fn jwe_header_set_token_type(header: &mut JweHeader, value: &str)
    ensures
        jwe_header_claims(*final(header)) == jwe_header_claims(*old(header)).insert("typ"@, value@),
{
    header.set_token_type(value)
}

/// `JweHeader::set_content_type`: sets the header claim `cty`.
#[verifier::external_body]
fn jwe_header_set_content_type(header: &mut JweHeader, value: &str)
    ensures
        jwe_header_claims(*final(header)) == jwe_header_claims(*old(header)).insert("cty"@, value@),
{
    header.set_content_type(value)
}

/// `JweHeader::set_content_encryption`: sets the header claim `enc`.
#[verifier::external_body]
fn jwe_header_set_content_encryption(header: &mut JweHeader, value: &str)
    ensures
        jwe_header_claims(*final(header)) == jwe_header_claims(*old(header)).insert("enc"@, value@),
{
    header.set_content_encryption(value)
}

/// The family of algorithms that a key belongs to.
#[derive(Debug, PartialEq, Eq, Structural, Clone, Copy)]
pub enum KeyFamily {
    Rsa,
    Ec,
}

/// The capability to sign a token; the private key is inside.
#[derive(Debug)]
pub enum Signer {
    Rsa(RsassaJwsSigner),
    Ec(EcdsaJwsSigner),
}

/// The capability to encrypt a token to the holder of a private key.
#[derive(Debug)]
pub enum Encrypter {
    Rsa(RsaesJweEncrypter),
    Ec(EcdhEsJweEncrypter),
}

/// Why a result could not be sealed, or a key not be read.
#[derive(Debug)]
pub enum Error {
    JWT(JoseError),
}

impl Error {
    /// Human-readable description of the error: what its cause displays.
    pub fn message(&self) -> (r: String)
        ensures
            self.displays(r),
    {
        match self {
            Error::JWT(e) => e.to_string(),
        }
    }

    /// `text` is what the cause of the error displays of itself.
    pub open spec fn displays(&self, text: String) -> bool {
        match self {
            Error::JWT(e) => vstd::string::to_string_from_display_ensures::<JoseError>(e, text),
        }
    }
}

/// `RS256.signer_from_pem` of `josekit::jws`: reads an RSA private key in
/// PEM form. Nothing is claimed of which texts are keys.
#[verifier::external_body]
fn rsa_signer_from_pem(pem: &str) -> (r: Result<RsassaJwsSigner, JoseError>) {
    josekit::jws::RS256.signer_from_pem(pem)
}

/// `ES256.signer_from_pem` of `josekit::jws`: reads an EC private key in
/// PEM form. Nothing is claimed of which texts are keys.
#[verifier::external_body]
fn ec_signer_from_pem(pem: &str) -> (r: Result<EcdsaJwsSigner, JoseError>) {
    josekit::jws::ES256.signer_from_pem(pem)
}

/// `RSA_OAEP.encrypter_from_pem` of `josekit::jwe`: reads an RSA public
/// key in PEM form. Nothing is claimed of which texts are keys.
#[verifier::external_body]
fn rsa_encrypter_from_pem(pem: &str) -> (r: Result<RsaesJweEncrypter, JoseError>) {
    josekit::jwe::RSA_OAEP.encrypter_from_pem(pem)
}

/// `ECDH_ES.encrypter_from_pem` of `josekit::jwe`: reads an EC public key
/// in PEM form. Nothing is claimed of which texts are keys.
#[verifier::external_body]
fn ec_encrypter_from_pem(pem: &str) -> (r: Result<EcdhEsJweEncrypter, JoseError>) {
    josekit::jwe::ECDH_ES.encrypter_from_pem(pem)
}

/// The number of dots in a text. The compact form of a token is made of
/// parts in URL-safe base64, which holds no dot, with dots between them:
/// three parts where it is signed, five where it is encrypted.
pub open spec fn dots(text: Seq<char>) -> nat {
    text.filter(|c: char| c == '.').len()
}

/// `josekit::jwt::encode_with_signer`: the compact form of the token with
/// the given claims and header, signed: header, claims and signature with
/// a dot after the first and after the second. The signature depends on
/// the key and, for some algorithms, on chance: no more is claimed of the
/// text. The sizes computed inside are a few times the length of the
/// claims' text, which no memory lets overflow.
#[verifier::external_body]
fn encode_with_signer(payload: &JwtPayload, header: &JwsHeader, signer: &Signer) -> (r: Result<
    String,
    JoseError,
>)
    ensures
        r matches Ok(token) ==> dots(token@) == 2,
{
    let signer: &dyn josekit::jws::JwsSigner = match signer {
        Signer::Rsa(s) => s,
        Signer::Ec(s) => s,
    };
    josekit::jwt::encode_with_signer(payload, header, signer)
}

/// `josekit::jwt::encode_with_encrypter`: the compact form of the token
/// with the given claims and header, encrypted: header, key, nonce, cipher
/// text and tag with a dot between each two. The content key is drawn at
/// random: no more is claimed of the text. The sizes computed inside are a
/// few times the length of the claims' text, which no memory lets overflow.
#[verifier::external_body]
fn encode_with_encrypter(
    payload: &JwtPayload,
    header: &JweHeader,
    encrypter: &Encrypter,
) -> (r: Result<String, JoseError>)
    ensures
        r matches Ok(token) ==> dots(token@) == 4,
{
    let encrypter: &dyn josekit::jwe::JweEncrypter = match encrypter {
        Encrypter::Rsa(e) => e,
        Encrypter::Ec(e) => e,
    };
    josekit::jwt::encode_with_encrypter(payload, header, encrypter)
}

impl Signer {
    pub open spec fn family(self) -> KeyFamily {
        match self {
            Signer::Rsa(_) => KeyFamily::Rsa,
            Signer::Ec(_) => KeyFamily::Ec,
        }
    }

    /// Reads a private signing key of the given family from its PEM form.
    /// A signer that comes back is of the family asked for.
    pub fn from_pem(family: KeyFamily, pem: &str) -> (r: Result<Signer, Error>)
        ensures
            r matches Ok(signer) ==> signer.family() == family,
    {
        match family {
            KeyFamily::Rsa => signer_of_rsa(rsa_signer_from_pem(pem)),
            KeyFamily::Ec => signer_of_ec(ec_signer_from_pem(pem)),
        }
    }
}

/// The signer, or the error, that reading an RSA key gave.
pub fn signer_of_rsa(read: Result<RsassaJwsSigner, JoseError>) -> (r: Result<Signer, Error>)
    ensures
        match read {
            Ok(s) => r == Ok::<Signer, Error>(Signer::Rsa(s)),
            Err(e) => r == Err::<Signer, Error>(Error::JWT(e)),
        },
{
    match read {
        Ok(s) => Ok(Signer::Rsa(s)),
        Err(e) => Err(Error::JWT(e)),
    }
}

/// The signer, or the error, that reading an EC key gave.
pub fn signer_of_ec(read: Result<EcdsaJwsSigner, JoseError>) -> (r: Result<Signer, Error>)
    ensures
        match read {
            Ok(s) => r == Ok::<Signer, Error>(Signer::Ec(s)),
            Err(e) => r == Err::<Signer, Error>(Error::JWT(e)),
        },
{
    match read {
        Ok(s) => Ok(Signer::Ec(s)),
        Err(e) => Err(Error::JWT(e)),
    }
}

impl Encrypter {
    pub open spec fn family(self) -> KeyFamily {
        match self {
            Encrypter::Rsa(_) => KeyFamily::Rsa,
            Encrypter::Ec(_) => KeyFamily::Ec,
        }
    }

    /// Reads a public encryption key of the given family from its PEM
    /// form. An encrypter that comes back is of the family asked for.
    pub fn from_pem(family: KeyFamily, pem: &str) -> (r: Result<Encrypter, Error>)
        ensures
            r matches Ok(encrypter) ==> encrypter.family() == family,
    {
        match family {
            KeyFamily::Rsa => encrypter_of_rsa(rsa_encrypter_from_pem(pem)),
            KeyFamily::Ec => encrypter_of_ec(ec_encrypter_from_pem(pem)),
        }
    }
}

/// The encrypter, or the error, that reading an RSA key gave.
pub fn encrypter_of_rsa(read: Result<RsaesJweEncrypter, JoseError>) -> (r: Result<Encrypter, Error>)
    ensures
        match read {
            Ok(k) => r == Ok::<Encrypter, Error>(Encrypter::Rsa(k)),
            Err(e) => r == Err::<Encrypter, Error>(Error::JWT(e)),
        },
{
    match read {
        Ok(k) => Ok(Encrypter::Rsa(k)),
        Err(e) => Err(Error::JWT(e)),
    }
}

/// The encrypter, or the error, that reading an EC key gave.
pub fn encrypter_of_ec(read: Result<EcdhEsJweEncrypter, JoseError>) -> (r: Result<Encrypter, Error>)
    ensures
        match read {
            Ok(k) => r == Ok::<Encrypter, Error>(Encrypter::Ec(k)),
            Err(e) => r == Err::<Encrypter, Error>(Error::JWT(e)),
        },
{
    match read {
        Ok(k) => Ok(Encrypter::Ec(k)),
        Err(e) => Err(Error::JWT(e)),
    }
}

/// The subject of every signed result: what the token is for.
pub open spec fn subject_text() -> Seq<char> {
    "id-contact-attributes"@
}

/// The claims that are signed for a table of attributes alone.
pub open spec fn attribute_claims(values: Map<Seq<char>, Seq<char>>) -> Map<Seq<char>, Claim> {
    Map::<Seq<char>, Claim>::empty().insert("sub"@, Claim::Text(subject_text())).insert(
        "attributes"@,
        Claim::Table(values),
    )
}

/// The claims that are signed for an outcome: the subject and the status,
/// `success` with the attributes or `failed` with the reason.
pub open spec fn outcome_claims(outcome: OutcomeView) -> Map<Seq<char>, Claim> {
    let base = Map::<Seq<char>, Claim>::empty().insert("sub"@, Claim::Text(subject_text()));
    match outcome {
        OutcomeView::Success(values) => base.insert("status"@, Claim::Text("success"@)).insert(
            "attributes"@,
            Claim::Table(values),
        ),
        OutcomeView::Failed(reason) => base.insert("status"@, Claim::Text("failed"@)).insert(
            "reason"@,
            Claim::Text(reason.name_spec()),
        ),
    }
}

/// The claims that are encrypted: the signed token, whole, as `njwt`.
pub open spec fn sealed_claims(token: Seq<char>) -> Map<Seq<char>, Claim> {
    Map::<Seq<char>, Claim>::empty().insert("njwt"@, Claim::Text(token))
}

/// The header of the signed token.
pub open spec fn signing_header_claims() -> Map<Seq<char>, Seq<char>> {
    Map::<Seq<char>, Seq<char>>::empty().insert("typ"@, "JWT"@)
}

/// The header of the encrypted token.
pub open spec fn sealing_header_claims() -> Map<Seq<char>, Seq<char>> {
    Map::<Seq<char>, Seq<char>>::empty().insert("typ"@, "JWT"@).insert("cty"@, "JWT"@).insert(
        "enc"@,
        "A128CBC-HS256"@,
    )
}

/// None of the claim names used here is one that a payload refuses.
proof fn lemma_claim_names_accepted()
    ensures
        forall|value: Claim| !claim_refused("attributes"@, value),
        forall|value: Claim| !claim_refused("status"@, value),
        forall|value: Claim| !claim_refused("reason"@, value),
        forall|value: Claim| !claim_refused("njwt"@, value),
        forall|value: Claim| !claim_refused("continuation"@, value),
        forall|value: Claim| !claim_refused("qr"@, value),
        forall|n: u64| !claim_refused("iat"@, Claim::Number(n)),
{
    reveal_strlit("attributes");
    reveal_strlit("status");
    reveal_strlit("reason");
    reveal_strlit("njwt");
    reveal_strlit("continuation");
    reveal_strlit("qr");
    reveal_strlit("iss");
    reveal_strlit("sub");
    reveal_strlit("jti");
    reveal_strlit("aud");
    reveal_strlit("exp");
    reveal_strlit("nbf");
    reveal_strlit("iat");
    assert("attributes"@.len() == 10 && "status"@.len() == 6 && "reason"@.len() == 6);
    assert("njwt"@.len() == 4 && "continuation"@.len() == 12 && "qr"@.len() == 2);
    assert("iss"@.len() == 3 && "sub"@.len() == 3 && "jti"@.len() == 3 && "aud"@.len() == 3);
    assert("exp"@.len() == 3 && "nbf"@.len() == 3 && "iat"@.len() == 3);
    assert("iat"@[0] == 'i' && "iat"@[1] == 'a');
    assert("iss"@[1] == 's' && "sub"@[0] == 's' && "jti"@[0] == 'j' && "aud"@[0] == 'a');
}

/// The payload, or the error, after the last claim was set.
fn payload_or_error(payload: JwtPayload, set: Result<(), JoseError>) -> (r: Result<JwtPayload, Error>)
    ensures
        match set {
            Ok(_) => r == Ok::<JwtPayload, Error>(payload),
            Err(e) => r == Err::<JwtPayload, Error>(Error::JWT(e)),
        },
{
    match set {
        Ok(_) => Ok(payload),
        Err(e) => Err(Error::JWT(e)),
    }
}

/// The payload that is signed for a table of attributes.
pub fn attributes_payload(attributes: &AttributeMap) -> (r: Result<JwtPayload, Error>)
    ensures
        r matches Ok(payload) && payload_claims(payload) == attribute_claims(attributes@),
{
    proof {
        lemma_claim_names_accepted();
    }
    let mut payload = payload_new();
    payload_set_subject(&mut payload, "id-contact-attributes");
    let set = payload_set_claim(&mut payload, "attributes", &ClaimValue::Table(attributes));
    payload_or_error(payload, set)
}

/// The payload that is signed for an outcome.
pub fn outcome_payload(outcome: &Outcome) -> (r: Result<JwtPayload, Error>)
    ensures
        r matches Ok(payload) && payload_claims(payload) == outcome_claims(outcome@),
{
    proof {
        lemma_claim_names_accepted();
    }
    let mut payload = payload_new();
    payload_set_subject(&mut payload, "id-contact-attributes");
    match outcome {
        Outcome::Success(values) => {
            match payload_set_claim(&mut payload, "status", &ClaimValue::Text("success")) {
                Err(e) => Err(Error::JWT(e)),
                Ok(_) => {
                    let set = payload_set_claim(&mut payload, "attributes", &ClaimValue::Table(values));
                    payload_or_error(payload, set)
                },
            }
        },
        Outcome::Failed(reason) => {
            match payload_set_claim(&mut payload, "status", &ClaimValue::Text("failed")) {
                Err(e) => Err(Error::JWT(e)),
                Ok(_) => {
                    let set = payload_set_claim(&mut payload, "reason", &ClaimValue::Text(reason.name()));
                    payload_or_error(payload, set)
                },
            }
        },
    }
}

/// The payload that is encrypted: the signed token as its one claim.
pub fn sealing_payload(token: &str) -> (r: Result<JwtPayload, Error>)
    ensures
        r matches Ok(payload) && payload_claims(payload) == sealed_claims(token@),
{
    proof {
        lemma_claim_names_accepted();
    }
    let mut payload = payload_new();
    let set = payload_set_claim(&mut payload, "njwt", &ClaimValue::Text(token));
    payload_or_error(payload, set)
}

/// The header under which a result is signed.
pub fn signing_header() -> (r: JwsHeader)
    ensures
        jws_header_claims(r) == signing_header_claims(),
{
    let mut header = jws_header_new();
    jws_header_set_token_type(&mut header, "JWT");
    header
}

/// The header under which a signed result is encrypted.
pub fn sealing_header() -> (r: JweHeader)
    ensures
        jwe_header_claims(r) == sealing_header_claims(),
{
    let mut header = jwe_header_new();
    jwe_header_set_token_type(&mut header, "JWT");
    jwe_header_set_content_type(&mut header, "JWT");
    jwe_header_set_content_encryption(&mut header, "A128CBC-HS256");
    header
}

/// The claims that are signed for the page that shows a session: when
/// they were issued, where to continue, and the session pointer.
pub open spec fn irma_params_claims(
    continuation: Seq<char>,
    qr: Seq<char>,
    issued_at: u64,
) -> Map<Seq<char>, Claim> {
    Map::<Seq<char>, Claim>::empty().insert("iat"@, Claim::Number(issued_at)).insert(
        "continuation"@,
        Claim::Text(continuation),
    ).insert("qr"@, Claim::Text(qr))
}

/// The payload that is signed for the page that shows a session.
/// `issued_at` is the time in seconds since the Unix epoch.
pub fn irma_params_payload(continuation: &str, qr: &str, issued_at: u64) -> (r: Result<
    JwtPayload,
    Error,
>)
    ensures
        r matches Ok(payload) && payload_claims(payload) == irma_params_claims(
            continuation@,
            qr@,
            issued_at,
        ),
{
    proof {
        lemma_claim_names_accepted();
    }
    let mut payload = payload_new();
    match payload_set_claim(&mut payload, "iat", &ClaimValue::Number(issued_at)) {
        Err(e) => Err(Error::JWT(e)),
        Ok(_) => match payload_set_claim(&mut payload, "continuation", &ClaimValue::Text(continuation)) {
            Err(e) => Err(Error::JWT(e)),
            Ok(_) => {
                let set = payload_set_claim(&mut payload, "qr", &ClaimValue::Text(qr));
                payload_or_error(payload, set)
            },
        },
    }
}

/// Signs, under an empty header, where to continue and the session
/// pointer, for the page that shows the session to the user.
pub fn sign_irma_params(continuation: &str, qr: &str, issued_at: u64, signer: &Signer) -> (r: Result<
    String,
    Error,
>)
    ensures
        r matches Ok(token) ==> dots(token@) == 2,
{
    match irma_params_payload(continuation, qr, issued_at) {
        Err(e) => Err(e),
        Ok(payload) => {
            let header = jws_header_new();
            token_or_error(encode_with_signer(&payload, &header, signer))
        },
    }
}

/// The token, or the error, that signing or encrypting gave.
pub fn token_or_error(encoded: Result<String, JoseError>) -> (r: Result<String, Error>)
    ensures
        match encoded {
            Ok(token) => r == Ok::<String, Error>(token),
            Err(e) => r == Err::<String, Error>(Error::JWT(e)),
        },
{
    match encoded {
        Ok(token) => Ok(token),
        Err(e) => Err(Error::JWT(e)),
    }
}

/// Signs the payload, then encrypts the signed token as the one claim of
/// an outer token. An error of either step is the result; no token comes
/// back unless both steps succeeded, and the token that comes back has the
/// form of an encrypted one.
pub fn seal(payload: &JwtPayload, signer: &Signer, encrypter: &Encrypter) -> (r: Result<
    String,
    Error,
>)
    ensures
        r matches Ok(token) ==> dots(token@) == 4,
{
    let header = signing_header();
    match token_or_error(encode_with_signer(payload, &header, signer)) {
        Err(e) => Err(e),
        Ok(signed) => match sealing_payload(signed.as_str()) {
            Err(e) => Err(e),
            Ok(outer) => {
                let outer_header = sealing_header();
                token_or_error(encode_with_encrypter(&outer, &outer_header, encrypter))
            },
        },
    }
}

/// Seals a table of attributes: signed under the fixed subject, then
/// encrypted.
pub fn sign_and_encrypt_attributes(
    attributes: &AttributeMap,
    signer: &Signer,
    encrypter: &Encrypter,
) -> (r: Result<String, Error>)
    ensures
        r matches Ok(token) ==> dots(token@) == 4,
{
    match attributes_payload(attributes) {
        Err(e) => Err(e),
        Ok(payload) => seal(&payload, signer, encrypter),
    }
}

/// Seals an outcome, success or failure alike: signed under the fixed
/// subject, then encrypted.
pub fn sign_and_encrypt_outcome(outcome: &Outcome, signer: &Signer, encrypter: &Encrypter) -> (r:
    Result<String, Error>)
    ensures
        r matches Ok(token) ==> dots(token@) == 4,
{
    match outcome_payload(outcome) {
        Err(e) => Err(e),
        Ok(payload) => seal(&payload, signer, encrypter),
    }
}

} // verus!
