//! The contract's message handlers: creating deeplinks (named or not, one or
//! many), marking them deleted, replacing admins and executors, and relaying
//! cyberlinks.
use vstd::prelude::*;
use crate::error::{ContractError, ErrorModel};
use crate::response::{
    action_id_response, action_only, action_response, decimal, links_view, uint64_to_string,
    CyberlinkSubMsg, Link, Response, SubMsgModel,
};
use crate::state::{opt_view, Deeplink, DeeplinkModel, DeeplinkState, LinkModel};
use crate::store::{texts, DeeplinkStore, StoreModel};

verus! {

/// The reply id under which a failed cyberlink sub-message reports back.
pub const CYBERLINK_ID_MSG: u64 = 42;

// ---------------------------------------------------------------------------
// What the handlers do, stated over the state's model.
// ---------------------------------------------------------------------------

/// The text of an optional value, or `_` where there is none.
pub open spec fn or_placeholder(s: Option<Seq<char>>) -> Seq<char> {
    match s {
        Some(t) => t,
        None => "_"@,
    }
}

/// The endpoint type that matches any type.
pub open spec fn any_type() -> Seq<char> {
    "Any"@
}

/// The conflict reported when the endpoints' types do not fit the type `t`.
pub open spec fn type_conflict(
    id: Option<Seq<char>>,
    d: DeeplinkModel,
    t: LinkModel,
    f: LinkModel,
    o: LinkModel,
) -> ErrorModel {
    ErrorModel::TypeConflict {
        id: or_placeholder(id),
        type_: d.type_,
        from: or_placeholder(d.from),
        to: or_placeholder(d.to),
        expected_type: d.type_,
        expected_from: t.from,
        expected_to: t.to,
        received_type: d.type_,
        received_from: f.type_,
        received_to: o.type_,
    }
}

/// Whether a deeplink `d` may be created, given the named deeplinks `named`:
/// either both endpoints are given or neither is (or they are equal), the type
/// and each given endpoint are named deeplinks, and where both endpoints are
/// given, each end of the type is `Any` or the type of that endpoint.
/// `id` is the name under which the deeplink is to be created, if any.
pub open spec fn validation(
    named: Map<Seq<char>, LinkModel>,
    id: Option<Seq<char>>,
    d: DeeplinkModel,
) -> Result<(), ErrorModel> {
    if d.from != d.to && (d.from is None || d.to is None) {
        Err(
            ErrorModel::InvalidDeeplink {
                id: 0,
                from: or_placeholder(d.from),
                to: or_placeholder(d.to),
                type_: d.type_,
            },
        )
    } else if !named.contains_key(d.type_) {
        Err(ErrorModel::TypeNotExists { type_: d.type_ })
    } else if d.from is Some && !named.contains_key(d.from->0) {
        Err(ErrorModel::FromNotExists { from: d.from->0 })
    } else if d.to is Some && !named.contains_key(d.to->0) {
        Err(ErrorModel::ToNotExists { to: d.to->0 })
    } else if d.from is Some && d.to is Some {
        let t = named[d.type_];
        let f = named[d.from->0];
        let o = named[d.to->0];
        if (t.from != any_type() && t.from != f.type_) || (t.to != any_type() && t.to != o.type_) {
            Err(type_conflict(id, d, t, f, o))
        } else {
            Ok(())
        }
    } else {
        Ok(())
    }
}

/// The record stored for an unnamed deeplink: a missing endpoint is its type.
pub open spec fn unnamed_state(d: DeeplinkModel) -> LinkModel {
    LinkModel {
        type_: d.type_,
        from: match d.from {
            Some(f) => f,
            None => d.type_,
        },
        to: match d.to {
            Some(t) => t,
            None => d.type_,
        },
    }
}

/// The record stored for a named deeplink: a missing endpoint is `Any`.
pub open spec fn named_state(d: DeeplinkModel) -> LinkModel {
    LinkModel {
        type_: d.type_,
        from: match d.from {
            Some(f) => f,
            None => any_type(),
        },
        to: match d.to {
            Some(t) => t,
            None => any_type(),
        },
    }
}

/// The state after storing the unnamed deeplink `d` under the next id.
pub open spec fn created(s: StoreModel, d: DeeplinkModel) -> StoreModel {
    let id = (s.last_id + 1) as u64;
    StoreModel { last_id: id, deeplinks: s.deeplinks.insert(id, unnamed_state(d)), ..s }
}

/// The state after storing the named deeplink `d` under the next id and `name`.
pub open spec fn named_created(s: StoreModel, name: Seq<char>, d: DeeplinkModel) -> StoreModel {
    let id = (s.last_id + 1) as u64;
    StoreModel {
        last_id: id,
        deeplinks: s.deeplinks.insert(id, named_state(d)),
        named: s.named.insert(name, named_state(d)),
        ..s
    }
}

/// Creating the unnamed deeplink `d`: the new state, or the refusal.
pub open spec fn create_outcome(s: StoreModel, d: DeeplinkModel) -> Result<StoreModel, ErrorModel> {
    match validation(s.named, None, d) {
        Err(e) => Err(e),
        Ok(_) => Ok(created(s, d)),
    }
}

/// Creating the deeplinks `ds` one after the other: the state they leave, and
/// whether they were all created or the first refused one's refusal. A refusal
/// leaves the state as the deeplinks before it made it.
pub open spec fn batch_outcome(s: StoreModel, ds: Seq<DeeplinkModel>) -> (
    StoreModel,
    Result<(), ErrorModel>,
)
    decreases ds.len(),
{
    if ds.len() == 0 {
        (s, Ok(()))
    } else {
        match create_outcome(s, ds[0]) {
            Err(e) => (s, Err(e)),
            Ok(next) => batch_outcome(next, ds.drop_first()),
        }
    }
}

/// How many deeplinks at the front of `ds` validate, up to the first that does not.
pub open spec fn leading_valid(named: Map<Seq<char>, LinkModel>, ds: Seq<DeeplinkModel>) -> nat
    decreases ds.len(),
{
    if ds.len() == 0 {
        0
    } else if validation(named, None, ds[0]) is Ok {
        1 + leading_valid(named, ds.drop_first())
    } else {
        0
    }
}

/// The texts of a list of deeplink requests.
pub open spec fn requests(ds: Seq<Deeplink>) -> Seq<DeeplinkModel> {
    ds.map_values(|d: Deeplink| d@)
}

/// Creating the named deeplink `d` under `name`, asked by `sender`.
pub open spec fn create_named_outcome(
    s: StoreModel,
    sender: Seq<char>,
    name: Seq<char>,
    d: DeeplinkModel,
) -> Result<StoreModel, ErrorModel> {
    if !s.is_admin(sender) {
        Err(ErrorModel::Unauthorized)
    } else {
        match validation(s.named, Some(name), d) {
            Err(e) => Err(e),
            Ok(_) => Ok(named_created(s, name, d)),
        }
    }
}

/// Marking `id` deleted, asked by `sender`.
pub open spec fn delete_outcome(s: StoreModel, sender: Seq<char>, id: u64) -> Result<
    StoreModel,
    ErrorModel,
> {
    if !s.is_admin(sender) {
        Err(ErrorModel::Unauthorized)
    } else {
        Ok(StoreModel { deleted: s.deleted.insert(id, true), ..s })
    }
}

/// The addresses of a validation outcome, as text.
pub open spec fn validated_view(v: Result<Vec<String>, String>) -> Result<Seq<Seq<char>>, Seq<char>> {
    match v {
        Ok(list) => Ok(texts(list@)),
        Err(msg) => Err(msg@),
    }
}

/// Replacing the admins by the validated addresses `v`, asked by `sender`.
pub open spec fn update_admins_outcome(
    s: StoreModel,
    sender: Seq<char>,
    v: Result<Seq<Seq<char>>, Seq<char>>,
) -> Result<StoreModel, ErrorModel> {
    if !s.is_admin(sender) {
        Err(ErrorModel::Unauthorized)
    } else {
        match v {
            Err(msg) => Err(ErrorModel::Std(msg)),
            Ok(admins) => Ok(StoreModel { admins, ..s }),
        }
    }
}

/// Replacing the executors by the validated addresses `v`, asked by `sender`.
pub open spec fn update_executors_outcome(
    s: StoreModel,
    sender: Seq<char>,
    v: Result<Seq<Seq<char>>, Seq<char>>,
) -> Result<StoreModel, ErrorModel> {
    if !s.is_admin(sender) {
        Err(ErrorModel::Unauthorized)
    } else {
        match v {
            Err(msg) => Err(ErrorModel::Std(msg)),
            Ok(executors) => Ok(StoreModel { executors, ..s }),
        }
    }
}

/// The answer to a cyberlink request: one sub-message from the contract as
/// neuron, reporting back only on failure.
pub open spec fn cyberlink_response(
    contract: Seq<char>,
    links: Seq<(Seq<char>, Seq<char>)>,
) -> crate::response::ResponseModel {
    crate::response::ResponseModel {
        attributes: seq![],
        messages: seq![SubMsgModel { id: CYBERLINK_ID_MSG, neuron: contract, links }],
    }
}

// ---------------------------------------------------------------------------
// The handlers.
// ---------------------------------------------------------------------------

/// Whether two optional strings hold the same text (or are both absent).
fn same_text(a: &Option<String>, b: &Option<String>) -> (same: bool)
    ensures
        same == (opt_view(*a) == opt_view(*b)),
{
    match (a, b) {
        (Some(x), Some(y)) => *x == *y,
        (None, None) => true,
        (Some(_), None) => false,
        (None, Some(_)) => false,
    }
}

/// The text of an optional string, or `_`.
fn text_or_placeholder(s: &Option<String>) -> (t: String)
    ensures
        t@ == or_placeholder(opt_view(*s)),
{
    match s {
        Some(x) => x.clone(),
        None => "_".to_owned(),
    }
}

/// Checks the deeplink `deeplink` against the named deeplinks, as `validation` says.
pub fn validate_deeplink(store: &DeeplinkStore, id: Option<String>, deeplink: &Deeplink) -> (r: Result<
    (),
    ContractError,
>)
    requires
        store.wf(),
    ensures
        match r {
            Ok(_) => validation(store@.named, opt_view(id), deeplink@) == Ok::<(), ErrorModel>(()),
            Err(e) => validation(store@.named, opt_view(id), deeplink@) == Err::<(), ErrorModel>(e@),
        },
{
    if !same_text(&deeplink.from, &deeplink.to) && (deeplink.from.is_none()
        || deeplink.to.is_none()) {
        return Err(
            ContractError::InvalidDeeplink {
                id: 0,
                from: text_or_placeholder(&deeplink.from),
                to: text_or_placeholder(&deeplink.to),
                type_: deeplink.type_.clone(),
            },
        );
    }
    let dtype = match store.named_deeplink(&deeplink.type_) {
        Some(t) => t,
        None => {
            return Err(ContractError::TypeNotExists { type_: deeplink.type_.clone() });
        },
    };
    let mut dfrom: Option<DeeplinkState> = None;
    if let Some(from) = &deeplink.from {
        match store.named_deeplink(from) {
            Some(f) => {
                dfrom = Some(f);
            },
            None => {
                return Err(ContractError::FromNotExists { from: from.clone() });
            },
        }
    }
    let mut dto: Option<DeeplinkState> = None;
    if let Some(to) = &deeplink.to {
        match store.named_deeplink(to) {
            Some(t) => {
                dto = Some(t);
            },
            None => {
                return Err(ContractError::ToNotExists { to: to.clone() });
            },
        }
    }
    if let (Some(f), Some(o)) = (dfrom, dto) {
        let any = "Any".to_owned();
        let from_conflict = !(dtype.from == any) && !(dtype.from == f.type_);
        let to_conflict = !(dtype.to == any) && !(dtype.to == o.type_);
        if from_conflict || to_conflict {
            return Err(
                ContractError::TypeConflict {
                    id: text_or_placeholder(&id),
                    type_: deeplink.type_.clone(),
                    from: text_or_placeholder(&deeplink.from),
                    to: text_or_placeholder(&deeplink.to),
                    expected_type: deeplink.type_.clone(),
                    expected_from: dtype.from.clone(),
                    expected_to: dtype.to.clone(),
                    received_type: deeplink.type_.clone(),
                    received_from: f.type_,
                    received_to: o.type_,
                },
            );
        }
    }
    Ok(())
}


/// The record of an unnamed deeplink: a missing endpoint becomes its type.
fn unnamed_record(deeplink: Deeplink) -> (state: DeeplinkState)
    ensures
        state@ == unnamed_state(deeplink@),
{
    let type_ = deeplink.type_;
    let from = match deeplink.from {
        Some(f) => f,
        None => type_.clone(),
    };
    let to = match deeplink.to {
        Some(t) => t,
        None => type_.clone(),
    };
    DeeplinkState { type_, from, to }
}

/// The record of a named deeplink: a missing endpoint becomes `Any`.
fn named_record(deeplink: Deeplink) -> (state: DeeplinkState)
    ensures
        state@ == named_state(deeplink@),
{
    let from = match deeplink.from {
        Some(f) => f,
        None => "Any".to_owned(),
    };
    let to = match deeplink.to {
        Some(t) => t,
        None => "Any".to_owned(),
    };
    DeeplinkState { type_: deeplink.type_, from, to }
}

/// Validates `deeplink` and stores it, without a name, under the next id, which
/// it returns. A refused deeplink leaves the state as it was.
pub fn create_deeplink(store: &mut DeeplinkStore, deeplink: Deeplink) -> (r: Result<u64, ContractError>)
    requires
        old(store).wf(),
        validation(old(store)@.named, None, deeplink@) is Ok ==> old(store)@.last_id < u64::MAX,
    ensures
        final(store).wf(),
        match r {
            Ok(id) => {
                &&& create_outcome(old(store)@, deeplink@) == Ok::<StoreModel, ErrorModel>(final(store)@)
                &&& id == final(store)@.last_id
            },
            Err(e) => {
                &&& create_outcome(old(store)@, deeplink@) == Err::<StoreModel, ErrorModel>(e@)
                &&& final(store)@ == old(store)@
            },
        },
{
    match validate_deeplink(store, None, &deeplink) {
        Err(e) => {
            return Err(e);
        },
        Ok(_) => {},
    }
    let id = store.issue_id();
    let state = unnamed_record(deeplink);
    store.save_deeplink(id, state);
    Ok(id)
}

/// Creates the named deeplink `deeplink` under `name`, if `sender` is an admin
/// and the deeplink validates; it is stored both under the next id and under
/// `name`. A refused request leaves the state as it was.
pub fn execute_create_named_deeplink(
    store: &mut DeeplinkStore,
    sender: &str,
    name: String,
    deeplink: Deeplink,
) -> (r: Result<Response, ContractError>)
    requires
        old(store).wf(),
        create_named_outcome(old(store)@, sender@, name@, deeplink@) is Ok ==> old(store)@.last_id
            < u64::MAX,
    ensures
        final(store).wf(),
        match r {
            Ok(resp) => {
                &&& create_named_outcome(old(store)@, sender@, name@, deeplink@) == Ok::<
                    StoreModel,
                    ErrorModel,
                >(final(store)@)
                &&& resp@ == action_response("create_named_deeplink"@)
            },
            Err(e) => {
                &&& create_named_outcome(old(store)@, sender@, name@, deeplink@) == Err::<
                    StoreModel,
                    ErrorModel,
                >(e@)
                &&& final(store)@ == old(store)@
            },
        },
{
    if !store.can_modify(sender) {
        return Err(ContractError::Unauthorized {});
    }
    match validate_deeplink(store, Some(name.clone()), &deeplink) {
        Err(e) => {
            return Err(e);
        },
        Ok(_) => {},
    }
    let id = store.issue_id();
    let state = named_record(deeplink);
    store.save_deeplink(id, state.clone());
    store.save_named_deeplink(name, state);
    Ok(action_only("create_named_deeplink"))
}

/// Creates the unnamed deeplink `deeplink`; anyone may ask.
pub fn execute_create_deeplink(store: &mut DeeplinkStore, deeplink: Deeplink) -> (r: Result<
    Response,
    ContractError,
>)
    requires
        old(store).wf(),
        validation(old(store)@.named, None, deeplink@) is Ok ==> old(store)@.last_id < u64::MAX,
    ensures
        final(store).wf(),
        match r {
            Ok(resp) => {
                &&& create_outcome(old(store)@, deeplink@) == Ok::<StoreModel, ErrorModel>(final(store)@)
                &&& resp@ == action_response("create_deeplink"@)
            },
            Err(e) => {
                &&& create_outcome(old(store)@, deeplink@) == Err::<StoreModel, ErrorModel>(e@)
                &&& final(store)@ == old(store)@
            },
        },
{
    create_deeplink(store, deeplink)?;
    Ok(action_only("create_deeplink"))
}

/// Marks `id` deleted, if `sender` is an admin; the deeplink itself, if any,
/// stays stored.
pub fn execute_delete_deeplink(store: &mut DeeplinkStore, sender: &str, id: u64) -> (r: Result<
    Response,
    ContractError,
>)
    requires
        old(store).wf(),
    ensures
        final(store).wf(),
        match r {
            Ok(resp) => {
                &&& delete_outcome(old(store)@, sender@, id) == Ok::<StoreModel, ErrorModel>(final(store)@)
                &&& resp@ == action_id_response("delete_deeplink"@, decimal(id as nat))
            },
            Err(e) => {
                &&& delete_outcome(old(store)@, sender@, id) == Err::<StoreModel, ErrorModel>(e@)
                &&& final(store)@ == old(store)@
            },
        },
{
    if !store.can_modify(sender) {
        return Err(ContractError::Unauthorized {});
    }
    store.save_deleted(id, true);
    let text = uint64_to_string(id);
    let resp = action_only("delete_deeplink").add_attribute("id", text);
    assert(resp@.attributes =~= action_id_response("delete_deeplink"@, decimal(id as nat)).attributes);
    Ok(resp)
}


/// Where the first `n` deeplinks of `ds` validate, at least `n` lead the batch.
proof fn lemma_leading_at_least(named: Map<Seq<char>, LinkModel>, ds: Seq<DeeplinkModel>, n: int)
    requires
        0 <= n <= ds.len(),
        forall|j: int| 0 <= j < n ==> validation(named, None, #[trigger] ds[j]) is Ok,
    ensures
        leading_valid(named, ds) >= n,
    decreases n,
{
    if n > 0 {
        let rest = ds.drop_first();
        assert(validation(named, None, ds[0]) is Ok);
        assert forall|j: int| 0 <= j < n - 1 implies validation(named, None, #[trigger] rest[j]) is Ok by {
            assert(rest[j] == ds[j + 1]);
        }
        lemma_leading_at_least(named, rest, n - 1);
    }
}

/// Creates each of `deeplinks` in turn, as `execute_create_deeplink` does; anyone
/// may ask. At the first refused deeplink it stops and answers with that refusal;
/// the deeplinks before it stay created (the chain drops them with the refused
/// transaction).
pub fn execute_create_deeplinks(store: &mut DeeplinkStore, deeplinks: Vec<Deeplink>) -> (r: Result<
    Response,
    ContractError,
>)
    requires
        old(store).wf(),
        old(store)@.last_id + leading_valid(old(store)@.named, requests(deeplinks@)) <= u64::MAX,
    ensures
        final(store).wf(),
        match r {
            Ok(resp) => {
                &&& batch_outcome(old(store)@, requests(deeplinks@)) == (
                    final(store)@,
                    Ok::<(), ErrorModel>(()),
                )
                &&& resp@ == action_response("create_deeplinks"@)
            },
            Err(e) => batch_outcome(old(store)@, requests(deeplinks@)) == (
                final(store)@,
                Err::<(), ErrorModel>(e@),
            ),
        },
{
    let ghost s0 = store@;
    let ghost ds = requests(deeplinks@);
    let n = deeplinks.len();
    proof {
        assert(ds.skip(0) =~= ds);
    }
    let mut i: usize = 0;
    let mut refusal: Option<ContractError> = None;
    while i < n && refusal.is_none()
        invariant
            store.wf(),
            n == deeplinks@.len(),
            ds == requests(deeplinks@),
            i <= n,
            s0.last_id + leading_valid(s0.named, ds) <= u64::MAX,
            store@.named == s0.named,
            store@.last_id == s0.last_id + i,
            forall|j: int| 0 <= j < i ==> validation(s0.named, None, #[trigger] ds[j]) is Ok,
            match refusal {
                None => batch_outcome(s0, ds) == batch_outcome(store@, ds.skip(i as int)),
                Some(e) => batch_outcome(s0, ds) == (store@, Err::<(), ErrorModel>(e@)),
            },
        decreases n - i + (if refusal is None { 1int } else { 0int }),
    {
        let d = deeplinks[i].clone();
        let ghost cur = store@;
        proof {
            assert(d@ == ds[i as int]);
            if validation(s0.named, None, ds[i as int]) is Ok {
                lemma_leading_at_least(s0.named, ds, i + 1);
            }
            let rest = ds.skip(i as int);
            assert(rest.len() > 0 && rest[0] == ds[i as int]);
            assert(rest.drop_first() =~= ds.skip(i + 1));
        }
        match create_deeplink(store, d) {
            Err(e) => {
                proof {
                    let rest = ds.skip(i as int);
                    assert(create_outcome(cur, rest[0]) == Err::<StoreModel, ErrorModel>(e@));
                    assert(batch_outcome(cur, rest) == (cur, Err::<(), ErrorModel>(e@)));
                }
                refusal = Some(e);
            },
            Ok(_) => {
                i += 1;
            },
        }
    }
    if let Some(e) = refusal {
        return Err(e);
    }
    proof {
        assert(ds.skip(n as int) =~= Seq::<DeeplinkModel>::empty());
    }
    Ok(action_only("create_deeplinks"))
}

/// Answers as an update; it changes nothing.
pub fn execute_update_deeplink(
    _type_: String,
    _from: Option<String>,
    _to: Option<String>,
) -> (r: Result<Response, ContractError>)
    ensures
        r matches Ok(resp) && resp@ == action_response("update"@),
{
    Ok(action_only("update"))
}

/// Replaces the admins by `validated_admins`, the outcome of validating the new
/// admins' addresses, if `sender` is an admin.
pub fn execute_update_admins(
    store: &mut DeeplinkStore,
    sender: &str,
    validated_admins: Result<Vec<String>, String>,
) -> (r: Result<Response, ContractError>)
    requires
        old(store).wf(),
    ensures
        final(store).wf(),
        match r {
            Ok(resp) => {
                &&& update_admins_outcome(old(store)@, sender@, validated_view(validated_admins))
                    == Ok::<StoreModel, ErrorModel>(final(store)@)
                &&& resp@ == action_response("update_admins"@)
            },
            Err(e) => {
                &&& update_admins_outcome(old(store)@, sender@, validated_view(validated_admins))
                    == Err::<StoreModel, ErrorModel>(e@)
                &&& final(store)@ == old(store)@
            },
        },
{
    if !store.can_modify(sender) {
        return Err(ContractError::Unauthorized {});
    }
    match validated_admins {
        Err(msg) => Err(ContractError::Std(msg)),
        Ok(admins) => {
            store.set_admins(admins);
            Ok(action_only("update_admins"))
        },
    }
}

/// Replaces the executors by `validated_executors`, the outcome of validating the
/// new executors' addresses, if `sender` is an admin.
pub fn execute_update_executors(
    store: &mut DeeplinkStore,
    sender: &str,
    validated_executors: Result<Vec<String>, String>,
) -> (r: Result<Response, ContractError>)
    requires
        old(store).wf(),
    ensures
        final(store).wf(),
        match r {
            Ok(resp) => {
                &&& update_executors_outcome(old(store)@, sender@, validated_view(validated_executors))
                    == Ok::<StoreModel, ErrorModel>(final(store)@)
                &&& resp@ == action_response("update_executors"@)
            },
            Err(e) => {
                &&& update_executors_outcome(old(store)@, sender@, validated_view(validated_executors))
                    == Err::<StoreModel, ErrorModel>(e@)
                &&& final(store)@ == old(store)@
            },
        },
{
    if !store.can_modify(sender) {
        return Err(ContractError::Unauthorized {});
    }
    match validated_executors {
        Err(msg) => Err(ContractError::Std(msg)),
        Ok(executors) => {
            store.set_executors(executors);
            Ok(action_only("update_executors"))
        },
    }
}

/// Relays `cyberlink` to the chain as a cyberlink sub-message from the contract
/// (`contract`), if `sender` is an executor.
pub fn execute_cyberlink(
    store: &DeeplinkStore,
    sender: &str,
    contract: String,
    cyberlink: Vec<Link>,
) -> (r: Result<Response, ContractError>)
    ensures
        match r {
            Ok(resp) => {
                &&& store@.is_executor(sender@)
                &&& resp@ == cyberlink_response(contract@, links_view(cyberlink@))
                &&& resp@.attributes.len() == 0
                &&& resp@.messages.len() == 1
                &&& resp@.messages[0].id == 42
                &&& resp@.messages[0].neuron == contract@
                &&& resp@.messages[0].links.len() == cyberlink@.len()
                &&& forall|i: int|
                    0 <= i < cyberlink@.len() ==> resp@.messages[0].links[i] == (
                        (#[trigger] cyberlink@[i]).from@,
                        cyberlink@[i].to@,
                    )
            },
            Err(e) => !store@.is_executor(sender@) && e@ == ErrorModel::Unauthorized,
        },
{
    if !store.can_execute(sender) {
        return Err(ContractError::Unauthorized {});
    }
    let ghost links = links_view(cyberlink@);
    let msg = CyberlinkSubMsg { id: CYBERLINK_ID_MSG, neuron: contract, links: cyberlink };
    let resp = Response::new().add_submessage(msg);
    assert(resp@.messages =~= cyberlink_response(contract@, links).messages);
    Ok(resp)
}

} // verus!
