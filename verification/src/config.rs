//! The bridge's configuration and the two rules that rest on it: turning
//! logical attribute names into a disclosure request, and checking what a
//! session disclosed against that request.

use vstd::prelude::*;
use crate::attributes::{contains_name, AttributeMap, AttributeMapping};
use crate::irma::{Attribute, ConDisCon, IrmaResult, IrmaServer, IrmaserverConfig};
use crate::jwe::{Encrypter, KeyFamily, Signer};

verus! {

/// Why a request or a response does not fit the configuration, or why the
/// configuration itself is not in order.
#[derive(Debug)]
pub enum Error {
    UnknownAttribute(String),
    NotMatching(&'static str),
    InvalidResponse(&'static str),
    Jwt(crate::jwe::Error),
}

/// An `Error` with its texts as sequences of characters.
pub enum ErrorView {
    UnknownAttribute(Seq<char>),
    NotMatching(Seq<char>),
    InvalidResponse(Seq<char>),
    Jwt,
}

impl View for Error {
    type V = ErrorView;

    open spec fn view(&self) -> ErrorView {
        match self {
            Error::UnknownAttribute(name) => ErrorView::UnknownAttribute(name@),
            Error::NotMatching(text) => ErrorView::NotMatching(text@),
            Error::InvalidResponse(text) => ErrorView::InvalidResponse(text@),
            Error::Jwt(_) => ErrorView::Jwt,
        }
    }
}

impl ErrorView {
    /// The text of an error of the bridge's own. An error of a key has the
    /// text of its cause, which is not the bridge's to say.
    pub open spec fn message(self) -> Option<Seq<char>> {
        match self {
            ErrorView::UnknownAttribute(name) => Some("Unknown attribute "@ + name),
            ErrorView::NotMatching(text) => Some(text),
            ErrorView::InvalidResponse(text) => Some("Invalid irma response: "@ + text),
            ErrorView::Jwt => None,
        }
    }
}

impl Error {
    /// Human-readable description of the error.
    pub fn message(&self) -> (r: String)
        ensures
            self@.message() matches Some(text) ==> r@ == text,
    {
        match self {
            Error::UnknownAttribute(name) => "Unknown attribute ".to_owned().concat(name.as_str()),
            Error::NotMatching(text) => (*text).to_owned(),
            Error::InvalidResponse(text) => "Invalid irma response: ".to_owned().concat(*text),
            Error::Jwt(e) => e.message(),
        }
    }
}

pub open spec fn mismatch_text() -> Seq<char> {
    "mismatch between request and response"@
}

pub open spec fn group_size_text() -> Seq<char> {
    "Incorrect number of attributes in inner conjunction"@
}

pub open spec fn wrong_attribute_text() -> Seq<char> {
    "Incorrect attribute in inner conjunction"@
}

/// The choice offered for one logical attribute: one conjunction of a
/// single identifier for each accepted identifier, in the configured order.
pub open spec fn disjunction(ids: Seq<Seq<char>>) -> Seq<Seq<Seq<char>>> {
    Seq::new(ids.len(), |i: int| seq![ids[i]])
}

/// The request for a list of names: the disjunction of each name, in the
/// order of the names.
pub open spec fn request_for(
    mapping: Map<Seq<char>, Seq<Seq<char>>>,
    names: Seq<Seq<char>>,
) -> Seq<Seq<Seq<Seq<char>>>> {
    Seq::new(names.len(), |i: int| disjunction(mapping[names[i]]))
}

/// Every name is configured.
pub open spec fn all_known(mapping: Map<Seq<char>, Seq<Seq<char>>>, names: Seq<Seq<char>>) -> bool {
    forall|i: int| 0 <= i < names.len() ==> mapping.contains_key(#[trigger] names[i])
}

/// `index` is the place of the first name that is not configured.
pub open spec fn first_unknown(
    mapping: Map<Seq<char>, Seq<Seq<char>>>,
    names: Seq<Seq<char>>,
    index: int,
) -> bool {
    &&& 0 <= index < names.len()
    &&& !mapping.contains_key(names[index])
    &&& all_known(mapping, names.take(index))
}

/// What is wrong with the group disclosed for `name`, if anything: it must
/// hold exactly one attribute, `name` must be configured, and the
/// attribute's identifier must be one of those accepted for `name`.
pub open spec fn slot_failure(
    mapping: Map<Seq<char>, Seq<Seq<char>>>,
    name: Seq<char>,
    group: Seq<(Seq<char>, Seq<char>)>,
) -> Option<ErrorView> {
    if group.len() != 1 {
        Some(ErrorView::InvalidResponse(group_size_text()))
    } else if !mapping.contains_key(name) {
        Some(ErrorView::UnknownAttribute(name))
    } else if !mapping[name].contains(group[0].0) {
        Some(ErrorView::InvalidResponse(wrong_attribute_text()))
    } else {
        None
    }
}

/// The first `count` slots are in order.
pub open spec fn slots_accepted(
    mapping: Map<Seq<char>, Seq<Seq<char>>>,
    names: Seq<Seq<char>>,
    disclosed: Seq<Seq<(Seq<char>, Seq<char>)>>,
    count: int,
) -> bool {
    forall|i: int| 0 <= i < count ==> slot_failure(mapping, names[i], disclosed[i]) is None
}

/// The values of the first `count` slots by name; where a name is asked
/// for twice, the later slot's value counts.
pub open spec fn disclosed_values(
    names: Seq<Seq<char>>,
    disclosed: Seq<Seq<(Seq<char>, Seq<char>)>>,
    count: int,
) -> Map<Seq<char>, Seq<char>>
    decreases count,
{
    if count <= 0 {
        Map::empty()
    } else {
        disclosed_values(names, disclosed, count - 1).insert(
            names[count - 1],
            disclosed[count - 1][0].1,
        )
    }
}

/// The judgement on a response to a request for `names`: the values by
/// name, or the first thing that is wrong.
pub open spec fn response_verdict(
    mapping: Map<Seq<char>, Seq<Seq<char>>>,
    names: Seq<Seq<char>>,
    disclosed: Seq<Seq<(Seq<char>, Seq<char>)>>,
    verdict: Result<Map<Seq<char>, Seq<char>>, ErrorView>,
) -> bool {
    match verdict {
        Ok(values) => {
            &&& names.len() == disclosed.len()
            &&& slots_accepted(mapping, names, disclosed, names.len() as int)
            &&& values == disclosed_values(names, disclosed, names.len() as int)
        },
        Err(e) => if names.len() != disclosed.len() {
            e == ErrorView::NotMatching(mismatch_text())
        } else {
            exists|i: int|
                0 <= i < names.len() && slots_accepted(mapping, names, disclosed, i)
                    && #[trigger] slot_failure(mapping, names[i], disclosed[i]) == Some(e)
        },
    }
}

/// What is disclosed is judged in one way only: the values, or one error.
pub proof fn lemma_verdict_unique(
    mapping: Map<Seq<char>, Seq<Seq<char>>>,
    names: Seq<Seq<char>>,
    disclosed: Seq<Seq<(Seq<char>, Seq<char>)>>,
    first: Result<Map<Seq<char>, Seq<char>>, ErrorView>,
    second: Result<Map<Seq<char>, Seq<char>>, ErrorView>,
)
    requires
        response_verdict(mapping, names, disclosed, first),
        response_verdict(mapping, names, disclosed, second),
    ensures
        first == second,
{
    if names.len() == disclosed.len() {
        if first is Err && second is Err {
            let a = first->Err_0;
            let b = second->Err_0;
            let i = choose|i: int|
                0 <= i < names.len() && slots_accepted(mapping, names, disclosed, i)
                    && #[trigger] slot_failure(mapping, names[i], disclosed[i]) == Some(a);
            let j = choose|j: int|
                0 <= j < names.len() && slots_accepted(mapping, names, disclosed, j)
                    && #[trigger] slot_failure(mapping, names[j], disclosed[j]) == Some(b);
            assert(i == j);
        } else if first is Err {
            let a = first->Err_0;
            let i = choose|i: int|
                0 <= i < names.len() && slots_accepted(mapping, names, disclosed, i)
                    && #[trigger] slot_failure(mapping, names[i], disclosed[i]) == Some(a);
        } else if second is Err {
            let b = second->Err_0;
            let j = choose|j: int|
                0 <= j < names.len() && slots_accepted(mapping, names, disclosed, j)
                    && #[trigger] slot_failure(mapping, names[j], disclosed[j]) == Some(b);
        }
    }
}

/// The names of the first `count` slots are exactly the names that have a
/// value, and the value of a name is that of the last slot that bears it.
pub proof fn lemma_disclosed_values(
    names: Seq<Seq<char>>,
    disclosed: Seq<Seq<(Seq<char>, Seq<char>)>>,
    count: int,
)
    requires
        0 <= count <= names.len(),
    ensures
        forall|name: Seq<char>|
            disclosed_values(names, disclosed, count).contains_key(name) <==> exists|i: int|
                0 <= i < count && #[trigger] names[i] == name,
        forall|i: int|
            0 <= i < count && (forall|j: int| i < j < count ==> names[j] != names[i])
                ==> disclosed_values(names, disclosed, count)[#[trigger] names[i]]
                == disclosed[i][0].1,
    decreases count,
{
    if count > 0 {
        lemma_disclosed_values(names, disclosed, count - 1);
        let before = disclosed_values(names, disclosed, count - 1);
        let now = disclosed_values(names, disclosed, count);
        let last = count - 1;
        assert(now == before.insert(names[last], disclosed[last][0].1));
        assert forall|name: Seq<char>| now.contains_key(name) <==> exists|i: int|
            0 <= i < count && #[trigger] names[i] == name by {
            if now.contains_key(name) {
                if name == names[last] {
                    assert(0 <= last < count && names[last] == name);
                } else {
                    assert(before.contains_key(name));
                    let i = choose|i: int| 0 <= i < count - 1 && #[trigger] names[i] == name;
                    assert(0 <= i < count && names[i] == name);
                }
            }
            if exists|i: int| 0 <= i < count && #[trigger] names[i] == name {
                let i = choose|i: int| 0 <= i < count && #[trigger] names[i] == name;
                if i < last {
                    assert(0 <= i < count - 1 && names[i] == name);
                    assert(before.contains_key(name));
                }
            }
        }
        assert forall|i: int|
            0 <= i < count && (forall|j: int|
                i < j < count ==> names[j] != names[i]) implies now[#[trigger] names[i]]
            == disclosed[i][0].1 by {
            if i < last {
                assert(names[last] != names[i]);
                assert(forall|j: int| i < j < count - 1 ==> names[j] != names[i]);
            }
        }
    }
}

/// The group holds one attribute, and its identifier alone is one of the
/// conjunctions of the disjunction `offer`.
pub open spec fn slot_answers_offer(
    offer: Seq<Seq<Seq<char>>>,
    group: Seq<(Seq<char>, Seq<char>)>,
) -> bool {
    group.len() == 1 && exists|k: int|
        0 <= k < offer.len() && #[trigger] offer[k] == seq![group[0].0]
}

/// There is one group for each slot of `request`, and each group answers
/// the slot at its own position.
pub open spec fn answers_offer(
    request: Seq<Seq<Seq<Seq<char>>>>,
    disclosed: Seq<Seq<(Seq<char>, Seq<char>)>>,
) -> bool {
    &&& disclosed.len() == request.len()
    &&& forall|i: int|
        0 <= i < request.len() ==> slot_answers_offer(request[i], #[trigger] disclosed[i])
}

/// A response that answers each slot of the request for `names` with one
/// of the conjunctions offered there, position by position, is accepted:
/// every name asked for has a value, no other name has one, and where no
/// name is asked for twice there are as many values as names, each the
/// value disclosed at its name's position.
pub proof fn law_offered_response_accepted(
    mapping: Map<Seq<char>, Seq<Seq<char>>>,
    names: Seq<Seq<char>>,
    disclosed: Seq<Seq<(Seq<char>, Seq<char>)>>,
    verdict: Result<Map<Seq<char>, Seq<char>>, ErrorView>,
)
    requires
        all_known(mapping, names),
        answers_offer(request_for(mapping, names), disclosed),
        response_verdict(mapping, names, disclosed, verdict),
    ensures
        verdict is Ok,
        forall|name: Seq<char>| verdict->Ok_0.contains_key(name) <==> names.contains(name),
        names.no_duplicates() ==> verdict->Ok_0.len() == names.len() && forall|i: int|
            0 <= i < names.len() ==> verdict->Ok_0.contains_key(#[trigger] names[i])
                && verdict->Ok_0[names[i]] == disclosed[i][0].1,
{
    let count = names.len() as int;
    let request = request_for(mapping, names);
    assert forall|i: int| 0 <= i < count implies slot_failure(mapping, names[i], disclosed[i])
        is None by {
        assert(slot_answers_offer(request[i], disclosed[i]));
        assert(mapping.contains_key(names[i]));
        let k = choose|k: int|
            0 <= k < request[i].len() && #[trigger] request[i][k] == seq![disclosed[i][0].0];
        let ids = mapping[names[i]];
        assert(request_for(mapping, names)[i] == disjunction(ids));
        assert(disjunction(ids)[k] == seq![ids[k]]);
        assert(seq![ids[k]][0] == seq![disclosed[i][0].0][0]);
        assert(ids[k] == disclosed[i][0].0);
    }
    assert(slots_accepted(mapping, names, disclosed, count));
    let accepted = Ok::<Map<Seq<char>, Seq<char>>, ErrorView>(
        disclosed_values(names, disclosed, count),
    );
    assert(response_verdict(mapping, names, disclosed, accepted));
    lemma_verdict_unique(mapping, names, disclosed, verdict, accepted);
    lemma_disclosed_values(names, disclosed, count);
    if names.no_duplicates() {
        let values = disclosed_values(names, disclosed, count);
        assert(values.dom() =~= names.to_set());
        names.unique_seq_to_set();
    }
}

/// A conjunction of the one identifier `id`.
fn single(id: &String) -> (r: Vec<Attribute>)
    ensures
        r.deep_view() == seq![id@],
{
    let mut r: Vec<Attribute> = Vec::new();
    r.push(Attribute::Simple(id.clone()));
    assert(r.deep_view() =~= seq![id@]);
    r
}

/// The disjunction over the identifiers `ids`.
fn disjunction_of(ids: &Vec<String>) -> (r: Vec<Vec<Attribute>>)
    ensures
        r.deep_view() == disjunction(ids.deep_view()),
{
    let mut dis: Vec<Vec<Attribute>> = Vec::new();
    let mut k: usize = 0;
    while k < ids.len()
        invariant
            k <= ids.len(),
            dis.len() == k,
            forall|j: int| 0 <= j < k ==> (#[trigger] dis@[j]).deep_view() == seq![ids@[j]@],
        decreases ids.len() - k,
    {
        let one = single(&ids[k]);
        dis.push(one);
        k += 1;
    }
    assert(dis.deep_view() =~= disjunction(ids.deep_view()));
    dis
}

/// Builds the disclosure request for `attributes`: one disjunction for each
/// name, in the order given. Fails at the first name that `mapping` lacks.
pub fn map_names(mapping: &AttributeMapping, attributes: &[String]) -> (r: Result<ConDisCon, Error>)
    ensures
        match r {
            Ok(request) => all_known(mapping@, attributes.deep_view())
                && request.deep_view() == request_for(mapping@, attributes.deep_view()),
            Err(e) => exists|i: int|
                #[trigger] first_unknown(mapping@, attributes.deep_view(), i)
                    && e@ == ErrorView::UnknownAttribute(attributes.deep_view()[i]),
        },
{
    let ghost names = attributes.deep_view();
    let mut result: ConDisCon = Vec::new();
    let mut i: usize = 0;
    while i < attributes.len()
        invariant
            i <= attributes.len(),
            names == attributes.deep_view(),
            names.len() == attributes.len(),
            result.len() == i,
            forall|j: int| 0 <= j < i ==> mapping@.contains_key(#[trigger] names[j]),
            forall|j: int|
                0 <= j < i ==> (#[trigger] result@[j]).deep_view() == disjunction(
                    mapping@[names[j]],
                ),
        decreases attributes.len() - i,
    {
        let attribute = &attributes[i];
        assert(attribute@ == names[i as int]);
        match mapping.get(attribute.as_str()) {
            Some(ids) => {
                let dis = disjunction_of(ids);
                result.push(dis);
            },
            None => {
                assert(first_unknown(mapping@, names, i as int)) by {
                    assert forall|j: int| 0 <= j < names.take(i as int).len() implies mapping@.contains_key(
                        #[trigger] names.take(i as int)[j],
                    ) by {
                        assert(names.take(i as int)[j] == names[j]);
                    }
                }
                return Err(Error::UnknownAttribute(attribute.clone()));
            },
        }
        i += 1;
    }
    assert(result.deep_view() =~= request_for(mapping@, names));
    Ok(result)
}

/// Checks the disclosed groups against the request for `attributes` and
/// gives the disclosed values by logical name. The groups answer the names
/// position by position; the first group that is out of order decides the
/// error.
pub fn check_response(
    mapping: &AttributeMapping,
    attributes: &[String],
    response: IrmaResult,
) -> (r: Result<AttributeMap, Error>)
    ensures
        match r {
            Ok(values) => response_verdict(
                mapping@,
                attributes.deep_view(),
                response.disclosed.deep_view(),
                Ok(values@),
            ),
            Err(e) => response_verdict(
                mapping@,
                attributes.deep_view(),
                response.disclosed.deep_view(),
                Err(e@),
            ),
        },
{
    let ghost names = attributes.deep_view();
    let ghost disclosed = response.disclosed.deep_view();
    if attributes.len() != response.disclosed.len() {
        return Err(Error::NotMatching("mismatch between request and response"));
    }
    let mut result = AttributeMap::new();
    let mut i: usize = 0;
    while i < attributes.len()
        invariant
            i <= attributes.len(),
            names == attributes.deep_view(),
            disclosed == response.disclosed.deep_view(),
            names.len() == attributes.len(),
            disclosed.len() == response.disclosed.len(),
            attributes.len() == response.disclosed.len(),
            slots_accepted(mapping@, names, disclosed, i as int),
            result@ == disclosed_values(names, disclosed, i as int),
        decreases attributes.len() - i,
    {
        let attribute = &attributes[i];
        let group = &response.disclosed[i];
        assert(attribute@ == names[i as int]);
        assert(group.deep_view() == disclosed[i as int]);
        if group.len() != 1 {
            assert(slot_failure(mapping@, names[i as int], disclosed[i as int]) == Some(
                ErrorView::InvalidResponse(group_size_text()),
            ));
            return Err(Error::InvalidResponse("Incorrect number of attributes in inner conjunction"));
        }
        assert(group.deep_view()[0] == (group[0].id@, group[0].rawvalue@));
        match mapping.get(attribute.as_str()) {
            None => {
                assert(slot_failure(mapping@, names[i as int], disclosed[i as int]) == Some(
                    ErrorView::UnknownAttribute(attribute@),
                ));
                return Err(Error::UnknownAttribute(attribute.clone()));
            },
            Some(allowed) => {
                if !contains_name(allowed, group[0].id.as_str()) {
                    assert(slot_failure(mapping@, names[i as int], disclosed[i as int]) == Some(
                        ErrorView::InvalidResponse(wrong_attribute_text()),
                    ));
                    return Err(Error::InvalidResponse("Incorrect attribute in inner conjunction"));
                }
                assert(slot_failure(mapping@, names[i as int], disclosed[i as int]) is None);
                result.insert(attribute.clone(), group[0].rawvalue.clone());
            },
        }
        i += 1;
    }
    Ok(result)
}

/// A key as the configuration names it: its family and its PEM text.
pub struct KeyConfig {
    pub family: KeyFamily,
    pub key: String,
}

/// The configuration as it is read, before its keys are.
pub struct RawConfig {
    pub server_url: String,
    pub internal_url: String,
    pub sentry_dsn: Option<String>,
    pub ui_irma_url: String,
    pub attributes: AttributeMapping,
    pub irma_server: IrmaserverConfig,
    pub encryption_pubkey: KeyConfig,
    pub signing_privkey: KeyConfig,
}

/// The bridge's configuration: its own addresses, the attribute mapping,
/// the disclosure server, and the keys with which results are sealed.
pub struct Config {
    server_url: String,
    internal_url: String,
    sentry_dsn: Option<String>,
    ui_irma_url: String,
    attributes: AttributeMapping,
    irma_server: IrmaServer,
    encrypter: Encrypter,
    signer: Signer,
}

/// What a configuration says, as plain values.
pub struct ConfigView {
    pub server_url: Seq<char>,
    pub internal_url: Seq<char>,
    pub sentry_dsn: Option<Seq<char>>,
    pub ui_irma_url: Seq<char>,
    pub attributes: Map<Seq<char>, Seq<Seq<char>>>,
    pub irma_url: Seq<char>,
    pub irma_token: Option<Seq<char>>,
}

impl View for Config {
    type V = ConfigView;

    closed spec fn view(&self) -> ConfigView {
        ConfigView {
            server_url: self.server_url@,
            internal_url: self.internal_url@,
            sentry_dsn: match self.sentry_dsn {
                Some(dsn) => Some(dsn@),
                None => None,
            },
            ui_irma_url: self.ui_irma_url@,
            attributes: self.attributes@,
            irma_url: self.irma_server.url(),
            irma_token: self.irma_server.token(),
        }
    }
}

impl RawConfig {
    /// What the configuration will say once its keys are read.
    pub open spec fn plain(self) -> ConfigView {
        ConfigView {
            server_url: self.server_url@,
            internal_url: self.internal_url@,
            sentry_dsn: match self.sentry_dsn {
                Some(dsn) => Some(dsn@),
                None => None,
            },
            ui_irma_url: self.ui_irma_url@,
            attributes: self.attributes@,
            irma_url: self.irma_server.url@,
            irma_token: match self.irma_server.auth_token {
                Some(token) => Some(token@),
                None => None,
            },
        }
    }
}

impl Config {
    /// The key with which results are encrypted.
    pub closed spec fn spec_encrypter(&self) -> Encrypter {
        self.encrypter
    }

    /// The key with which results are signed.
    pub closed spec fn spec_signer(&self) -> Signer {
        self.signer
    }

    /// The disclosure server.
    pub closed spec fn spec_irma_server(&self) -> IrmaServer {
        self.irma_server
    }

    /// The configuration, given what reading the two keys gave: the error
    /// of the encryption key first, then that of the signing key, and the
    /// configuration where both were read.
    pub fn assemble(
        config: RawConfig,
        encrypter: Result<Encrypter, crate::jwe::Error>,
        signer: Result<Signer, crate::jwe::Error>,
    ) -> (r: Result<Config, Error>)
        ensures
            match (encrypter, signer) {
                (Err(e), _) => r == Err::<Config, Error>(Error::Jwt(e)),
                (Ok(_), Err(e)) => r == Err::<Config, Error>(Error::Jwt(e)),
                (Ok(enc), Ok(sig)) => r matches Ok(c) && c@ == config.plain() && c.spec_encrypter()
                    == enc && c.spec_signer() == sig,
            },
    {
        match encrypter {
            Err(e) => Err(Error::Jwt(e)),
            Ok(encrypter) => match signer {
                Err(e) => Err(Error::Jwt(e)),
                Ok(signer) => Ok(
                    Config {
                        server_url: config.server_url,
                        internal_url: config.internal_url,
                        sentry_dsn: config.sentry_dsn,
                        ui_irma_url: config.ui_irma_url,
                        attributes: config.attributes,
                        irma_server: IrmaServer::from(config.irma_server),
                        encrypter,
                        signer,
                    },
                ),
            },
        }
    }

    /// Reads the two keys and makes the configuration. It fails where a
    /// key cannot be read; what it then says is what `config` said.
    pub fn try_from(config: RawConfig) -> (r: Result<Config, Error>)
        ensures
            match r {
                Ok(c) => c@ == config.plain() && c.spec_encrypter().family()
                    == config.encryption_pubkey.family && c.spec_signer().family()
                    == config.signing_privkey.family,
                Err(e) => e@ is Jwt,
            },
    {
        let encrypter = Encrypter::from_pem(
            config.encryption_pubkey.family,
            config.encryption_pubkey.key.as_str(),
        );
        let signer = Signer::from_pem(
            config.signing_privkey.family,
            config.signing_privkey.key.as_str(),
        );
        Self::assemble(config, encrypter, signer)
    }

    /// Builds the disclosure request for `attributes`: one disjunction for
    /// each name, in the order given, of one single-identifier conjunction
    /// for each identifier configured for the name. It fails at the first
    /// name that is not configured, and then gives no request at all.
    pub fn map_attributes(&self, attributes: &[String]) -> (r: Result<ConDisCon, Error>)
        ensures
            r is Ok <==> all_known(self@.attributes, attributes.deep_view()),
            match r {
                Ok(request) => request.deep_view() == request_for(
                    self@.attributes,
                    attributes.deep_view(),
                ),
                Err(e) => exists|i: int|
                    #[trigger] first_unknown(self@.attributes, attributes.deep_view(), i) && e@
                        == ErrorView::UnknownAttribute(attributes.deep_view()[i]),
            },
    {
        let r = map_names(&self.attributes, attributes);
        proof {
            if r is Err {
                let i = choose|i: int|
                    #[trigger] first_unknown(self@.attributes, attributes.deep_view(), i);
                assert(!self@.attributes.contains_key(attributes.deep_view()[i]));
            }
        }
        r
    }

    /// Checks what a session disclosed against the request for
    /// `attributes`, and gives the disclosed values by logical name.
    pub fn map_response(&self, attributes: &[String], response: IrmaResult) -> (r: Result<
        AttributeMap,
        Error,
    >)
        ensures
            match r {
                Ok(values) => response_verdict(
                    self@.attributes,
                    attributes.deep_view(),
                    response.disclosed.deep_view(),
                    Ok(values@),
                ),
                Err(e) => response_verdict(
                    self@.attributes,
                    attributes.deep_view(),
                    response.disclosed.deep_view(),
                    Err(e@),
                ),
            },
    {
        check_response(&self.attributes, attributes, response)
    }

    /// The attribute mapping.
    pub fn attributes(&self) -> (r: &AttributeMapping)
        ensures
            r@ == self@.attributes,
    {
        &self.attributes
    }

    pub fn irma_server(&self) -> (r: &IrmaServer)
        ensures
            *r == self.spec_irma_server(),
            r.url() == self@.irma_url,
            r.token() == self@.irma_token,
    {
        &self.irma_server
    }

    /// The address under which users reach the bridge.
    pub fn server_url(&self) -> (r: &str)
        ensures
            r@ == self@.server_url,
    {
        self.server_url.as_str()
    }

    /// The address under which the disclosure server reaches the bridge.
    pub fn internal_url(&self) -> (r: &str)
        ensures
            r@ == self@.internal_url,
    {
        self.internal_url.as_str()
    }

    pub fn sentry_dsn(&self) -> (r: Option<&str>)
        ensures
            match r {
                Some(dsn) => self@.sentry_dsn == Some(dsn@),
                None => self@.sentry_dsn is None,
            },
    {
        match &self.sentry_dsn {
            Some(dsn) => Some(dsn.as_str()),
            None => None,
        }
    }

    /// The address of the page that shows the session to the user.
    pub fn ui_irma_url(&self) -> (r: &str)
        ensures
            r@ == self@.ui_irma_url,
    {
        self.ui_irma_url.as_str()
    }

    pub fn encrypter(&self) -> (r: &Encrypter)
        ensures
            *r == self.spec_encrypter(),
    {
        &self.encrypter
    }

    pub fn signer(&self) -> (r: &Signer)
        ensures
            *r == self.spec_signer(),
    {
        &self.signer
    }
}

} // verus!
