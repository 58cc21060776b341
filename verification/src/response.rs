//! What the contract answers a request with: attributes that describe what was
//! done, and the cyberlink sub-messages it hands on to the chain.
use vstd::prelude::*;

verus! {

/// A key/value attribute of the answer.
#[derive(Debug, PartialEq, Eq)]
pub struct Attribute {
    pub key: String,
    pub value: String,
}

/// A cyberlink between two particles.
#[derive(Debug, PartialEq, Eq)]
pub struct Link {
    pub from: String,
    pub to: String,
}

/// A cyberlink message sent as a sub-message: the chain reports back to the
/// contract under `id` only if it fails.
#[derive(Debug, PartialEq, Eq)]
pub struct CyberlinkSubMsg {
    pub id: u64,
    pub neuron: String,
    pub links: Vec<Link>,
}

/// The contract's answer to a request.
#[derive(Debug, PartialEq, Eq)]
pub struct Response {
    pub attributes: Vec<Attribute>,
    pub messages: Vec<CyberlinkSubMsg>,
}

/// A sub-message, as text.
pub struct SubMsgModel {
    pub id: u64,
    pub neuron: Seq<char>,
    pub links: Seq<(Seq<char>, Seq<char>)>,
}

/// An answer, as text.
pub struct ResponseModel {
    pub attributes: Seq<(Seq<char>, Seq<char>)>,
    pub messages: Seq<SubMsgModel>,
}

pub open spec fn attribute_view(a: Attribute) -> (Seq<char>, Seq<char>) {
    (a.key@, a.value@)
}

pub open spec fn link_view(l: Link) -> (Seq<char>, Seq<char>) {
    (l.from@, l.to@)
}

pub open spec fn links_view(links: Seq<Link>) -> Seq<(Seq<char>, Seq<char>)> {
    links.map_values(|l: Link| link_view(l))
}

pub open spec fn submsg_view(m: CyberlinkSubMsg) -> SubMsgModel {
    SubMsgModel { id: m.id, neuron: m.neuron@, links: links_view(m.links@) }
}

impl View for Response {
    type V = ResponseModel;

    open spec fn view(&self) -> ResponseModel {
        ResponseModel {
            attributes: self.attributes@.map_values(|a: Attribute| attribute_view(a)),
            messages: self.messages@.map_values(|m: CyberlinkSubMsg| submsg_view(m)),
        }
    }
}

/// The answer that only reports `("action", action)`.
pub open spec fn action_response(action: Seq<char>) -> ResponseModel {
    ResponseModel { attributes: seq![("action"@, action)], messages: seq![] }
}

/// The answer that reports `("action", action)` and `("id", id)`.
pub open spec fn action_id_response(action: Seq<char>, id: Seq<char>) -> ResponseModel {
    ResponseModel { attributes: seq![("action"@, action), ("id"@, id)], messages: seq![] }
}

/// The digit character for `d < 10`.
pub open spec fn digit_char(d: nat) -> char {
    (48 + d) as char
}

/// The decimal notation of `n`, without leading zeros.
pub open spec fn decimal(n: nat) -> Seq<char>
    decreases n,
{
    if n < 10 {
        seq![digit_char(n)]
    } else {
        decimal(n / 10).push(digit_char(n % 10))
    }
}

/// Calls `Display` of `cosmwasm_std::Uint64` (through `ToString`), which writes
/// the wrapped `u64` in decimal notation, as `u64`'s own `Display` does.
#[verifier::external_body]
pub(crate) fn uint64_to_string(value: u64) -> (text: String)
    ensures
        text@ == decimal(value as nat),
{
    cosmwasm_std::Uint64::new(value).to_string()
}

impl Response {
    /// An answer with no attributes and no messages.
    pub fn new() -> (r: Self)
        ensures
            r@.attributes == Seq::<(Seq<char>, Seq<char>)>::empty(),
            r@.messages == Seq::<SubMsgModel>::empty(),
    {
        let r = Response { attributes: Vec::new(), messages: Vec::new() };
        assert(r@.attributes =~= Seq::<(Seq<char>, Seq<char>)>::empty());
        assert(r@.messages =~= Seq::<SubMsgModel>::empty());
        r
    }

    /// Appends the attribute `(key, value)`.
    pub fn add_attribute(self, key: &str, value: String) -> (r: Self)
        ensures
            r@.attributes == self@.attributes.push((key@, value@)),
            r@.messages == self@.messages,
    {
        let mut r = self;
        let ghost before = r@;
        r.attributes.push(Attribute { key: key.to_owned(), value });
        assert(r@.attributes =~= before.attributes.push((key@, value@)));
        r
    }

    /// Appends a cyberlink sub-message.
    pub fn add_submessage(self, msg: CyberlinkSubMsg) -> (r: Self)
        ensures
            r@.attributes == self@.attributes,
            r@.messages == self@.messages.push(submsg_view(msg)),
    {
        let mut r = self;
        let ghost before = r@;
        let ghost m = submsg_view(msg);
        r.messages.push(msg);
        assert(r@.messages =~= before.messages.push(m));
        assert(r@.attributes =~= before.attributes);
        r
    }
}

/// The answer that only reports `("action", action)`.
pub fn action_only(name: &str) -> (r: Response)
    ensures
        r@ == action_response(name@),
{
    let value = name.to_owned();
    let r = Response::new().add_attribute("action", value);
    assert(r@.attributes =~= seq![("action"@, name@)]);
    r
}

} // verus!
