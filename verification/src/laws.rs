//! Properties of the contract that span its handlers, proved over the model that
//! the handlers' contracts speak of.
use vstd::prelude::*;
use crate::error::ErrorModel;
use crate::execute::{
    any_type, batch_outcome, create_named_outcome, create_outcome, created, delete_outcome,
    named_created, named_state, unnamed_state, update_admins_outcome, update_executors_outcome,
    validation, cyberlink_response,
};
use crate::state::{DeeplinkModel, LinkModel};
use crate::store::StoreModel;

verus! {

/// Only admins may create named deeplinks, mark deeplinks deleted, or replace the
/// admins or the executors: any other sender is refused with `Unauthorized`.
pub proof fn law_only_admins_modify(
    s: StoreModel,
    sender: Seq<char>,
    name: Seq<char>,
    d: DeeplinkModel,
    id: u64,
    v: Result<Seq<Seq<char>>, Seq<char>>,
)
    requires
        !s.is_admin(sender),
    ensures
        create_named_outcome(s, sender, name, d) == Err::<StoreModel, ErrorModel>(
            ErrorModel::Unauthorized,
        ),
        delete_outcome(s, sender, id) == Err::<StoreModel, ErrorModel>(ErrorModel::Unauthorized),
        update_admins_outcome(s, sender, v) == Err::<StoreModel, ErrorModel>(
            ErrorModel::Unauthorized,
        ),
        update_executors_outcome(s, sender, v) == Err::<StoreModel, ErrorModel>(
            ErrorModel::Unauthorized,
        ),
{
}

/// A deeplink that validates has both endpoints or neither, its type is a named
/// deeplink, each given endpoint is a named deeplink, and where both endpoints are
/// given, each end of the type is `Any` or the type of that endpoint.
pub proof fn law_valid_deeplink_shape(
    named: Map<Seq<char>, LinkModel>,
    id: Option<Seq<char>>,
    d: DeeplinkModel,
)
    requires
        validation(named, id, d) is Ok,
    ensures
        (d.from is Some) == (d.to is Some),
        named.contains_key(d.type_),
        d.from is Some ==> named.contains_key(d.from->0),
        d.to is Some ==> named.contains_key(d.to->0),
        d.from is Some && d.to is Some ==> {
            let t = named[d.type_];
            &&& (t.from == any_type() || t.from == named[d.from->0].type_)
            &&& (t.to == any_type() || t.to == named[d.to->0].type_)
        },
{
}

/// Whether a deeplink validates does not depend on the name it is created under;
/// the name only shows in the report of a type conflict.
pub proof fn law_validation_ignores_name(
    named: Map<Seq<char>, LinkModel>,
    a: Option<Seq<char>>,
    b: Option<Seq<char>>,
    d: DeeplinkModel,
)
    ensures
        (validation(named, a, d) is Ok) == (validation(named, b, d) is Ok),
{
}

/// Creating an unnamed deeplink issues the next id, which no stored deeplink
/// used, stores the deeplink there, keeps every other deeplink, and changes
/// nothing else: not the named deeplinks, the deletion marks or the configuration.
pub proof fn law_create_issues_fresh_id(s: StoreModel, d: DeeplinkModel, t: StoreModel)
    requires
        s.ids_issued(),
        s.last_id < u64::MAX,
        create_outcome(s, d) == Ok::<StoreModel, ErrorModel>(t),
    ensures
        t.last_id == s.last_id + 1,
        !s.deeplinks.contains_key(t.last_id),
        t.deeplinks == s.deeplinks.insert(t.last_id, unnamed_state(d)),
        t.named == s.named,
        t.deleted == s.deleted,
        t.admins == s.admins,
        t.executors == s.executors,
        t.ids_issued(),
{
}

/// A named deeplink, once created, is stored both under its new id and under its
/// name with the same record, and its name can then serve as the type of a
/// deeplink without endpoints.
pub proof fn law_named_deeplink_is_a_type(
    s: StoreModel,
    sender: Seq<char>,
    name: Seq<char>,
    d: DeeplinkModel,
    t: StoreModel,
    id: Option<Seq<char>>,
)
    requires
        create_named_outcome(s, sender, name, d) == Ok::<StoreModel, ErrorModel>(t),
    ensures
        t.named.contains_key(name),
        t.named[name] == named_state(d),
        t.deeplinks.contains_key(t.last_id),
        t.deeplinks[t.last_id] == t.named[name],
        validation(t.named, id, DeeplinkModel { type_: name, from: None, to: None }) == Ok::<
            (),
            ErrorModel,
        >(()),
{
    assert(t == named_created(s, name, d));
}

/// Replacing the admins hands the admin rights to exactly the new addresses and
/// changes nothing else.
pub proof fn law_admins_update_hands_over(
    s: StoreModel,
    sender: Seq<char>,
    v: Result<Seq<Seq<char>>, Seq<char>>,
    t: StoreModel,
    addr: Seq<char>,
)
    requires
        update_admins_outcome(s, sender, v) == Ok::<StoreModel, ErrorModel>(t),
    ensures
        s.is_admin(sender),
        v is Ok,
        t.is_admin(addr) == v->Ok_0.contains(addr),
        t == (StoreModel { admins: t.admins, ..s }),
{
}

/// Replacing the executors hands the right to relay cyberlinks to exactly the
/// new addresses and changes nothing else.
pub proof fn law_executors_update_hands_over(
    s: StoreModel,
    sender: Seq<char>,
    v: Result<Seq<Seq<char>>, Seq<char>>,
    t: StoreModel,
    addr: Seq<char>,
)
    requires
        update_executors_outcome(s, sender, v) == Ok::<StoreModel, ErrorModel>(t),
    ensures
        s.is_admin(sender),
        v is Ok,
        t.is_executor(addr) == v->Ok_0.contains(addr),
        t == (StoreModel { executors: t.executors, ..s }),
{
}

/// Marking a deeplink deleted keeps it stored: only the deletion mark changes.
pub proof fn law_delete_is_a_mark(s: StoreModel, sender: Seq<char>, id: u64, t: StoreModel)
    requires
        delete_outcome(s, sender, id) == Ok::<StoreModel, ErrorModel>(t),
    ensures
        t.deeplinks == s.deeplinks,
        t.named == s.named,
        t.last_id == s.last_id,
        t.deleted.contains_key(id) && t.deleted[id],
{
}

/// Whether the `k`-th deeplink `d` of a batch created after id `base` is stored
/// under its id `base + k + 1` in `t`.
pub open spec fn stored_at(t: StoreModel, base: u64, k: int, d: DeeplinkModel) -> bool {
    let id = (base + k + 1) as u64;
    t.deeplinks.contains_key(id) && t.deeplinks[id] == unnamed_state(d)
}

/// A batch that is created stores its deeplinks in order under the next ids,
/// keeps every deeplink that was there, and changes nothing else; each of its
/// deeplinks validated.
pub proof fn law_batch_creates_each_in_turn(s: StoreModel, ds: Seq<DeeplinkModel>, t: StoreModel)
    requires
        batch_outcome(s, ds) == (t, Ok::<(), ErrorModel>(())),
        s.last_id + ds.len() <= u64::MAX,
    ensures
        t.last_id == s.last_id + ds.len(),
        t.named == s.named,
        t.deleted == s.deleted,
        t.admins == s.admins,
        t.executors == s.executors,
        forall|k: int| 0 <= k < ds.len() ==> validation(s.named, None, #[trigger] ds[k]) is Ok,
        forall|k: int| 0 <= k < ds.len() ==> #[trigger] stored_at(t, s.last_id, k, ds[k]),
        forall|id: u64|
            #[trigger] s.deeplinks.contains_key(id) && id <= s.last_id ==> t.deeplinks.contains_key(id)
                && t.deeplinks[id] == s.deeplinks[id],
    decreases ds.len(),
{
    if ds.len() > 0 {
        let s1 = created(s, ds[0]);
        let rest = ds.drop_first();
        assert(validation(s.named, None, ds[0]) is Ok);
        assert(create_outcome(s, ds[0]) == Ok::<StoreModel, ErrorModel>(s1));
        assert(batch_outcome(s1, rest) == (t, Ok::<(), ErrorModel>(())));
        law_batch_creates_each_in_turn(s1, rest, t);
        assert forall|k: int| 0 <= k < ds.len() implies validation(s.named, None, #[trigger] ds[k]) is Ok by {
            if k > 0 {
                assert(ds[k] == rest[k - 1]);
            }
        }
        assert forall|k: int| 0 <= k < ds.len() implies #[trigger] stored_at(t, s.last_id, k, ds[k]) by {
            if k > 0 {
                assert(ds[k] == rest[k - 1]);
                assert(stored_at(t, s1.last_id, k - 1, rest[k - 1]));
                assert((s1.last_id + (k - 1) + 1) as u64 == (s.last_id + k + 1) as u64);
            } else {
                let id0 = (s.last_id + 1) as u64;
                assert(s1.deeplinks.contains_key(id0) && id0 <= s1.last_id);
            }
        }
        assert forall|id: u64| #[trigger] s.deeplinks.contains_key(id) && id <= s.last_id implies t.deeplinks.contains_key(id)
            && t.deeplinks[id] == s.deeplinks[id] by {
            assert(s1.deeplinks.contains_key(id) && id <= s1.last_id);
        }
    }
}

/// A refused batch is refused with the refusal of its first deeplink that does
/// not validate, at position `k`; the deeplinks before it all validated and the
/// state is what creating just those `k` deeplinks leaves.
pub proof fn law_batch_refusal_keeps_prefix(
    s: StoreModel,
    ds: Seq<DeeplinkModel>,
    t: StoreModel,
    e: ErrorModel,
) -> (k: int)
    requires
        batch_outcome(s, ds) == (t, Err::<(), ErrorModel>(e)),
    ensures
        0 <= k < ds.len(),
        forall|j: int| 0 <= j < k ==> validation(s.named, None, #[trigger] ds[j]) is Ok,
        validation(s.named, None, ds[k]) == Err::<(), ErrorModel>(e),
        batch_outcome(s, ds.take(k)) == (t, Ok::<(), ErrorModel>(())),
    decreases ds.len(),
{
    assert(ds.len() > 0);
    if validation(s.named, None, ds[0]) is Err {
        assert(ds.take(0) =~= Seq::<DeeplinkModel>::empty());
        0
    } else {
        let s1 = created(s, ds[0]);
        let rest = ds.drop_first();
        assert(batch_outcome(s1, rest) == (t, Err::<(), ErrorModel>(e)));
        let k1 = law_batch_refusal_keeps_prefix(s1, rest, t, e);
        let k = k1 + 1;
        assert forall|j: int| 0 <= j < k implies validation(s.named, None, #[trigger] ds[j]) is Ok by {
            if j > 0 {
                assert(ds[j] == rest[j - 1]);
            }
        }
        assert(ds[k] == rest[k1]);
        let pre = ds.take(k);
        assert(pre[0] == ds[0]);
        assert(pre.drop_first() =~= rest.take(k1));
        k
    }
}

/// A named deeplink, once created, is never missing as an endpoint: a deeplink
/// that names it as `from` or `to` is not refused for that endpoint.
pub proof fn law_named_deeplink_is_an_end(
    s: StoreModel,
    sender: Seq<char>,
    name: Seq<char>,
    d: DeeplinkModel,
    t: StoreModel,
    id: Option<Seq<char>>,
    d2: DeeplinkModel,
)
    requires
        create_named_outcome(s, sender, name, d) == Ok::<StoreModel, ErrorModel>(t),
    ensures
        d2.from == Some(name) ==> validation(t.named, id, d2) != Err::<(), ErrorModel>(
            ErrorModel::FromNotExists { from: name },
        ),
        d2.to == Some(name) ==> validation(t.named, id, d2) != Err::<(), ErrorModel>(
            ErrorModel::ToNotExists { to: name },
        ),
{
    assert(t == named_created(s, name, d));
}

/// A deeplink validates exactly when its type is a named deeplink and either it
/// gives no endpoint, or it gives both, each a named deeplink, and each end of the
/// type is `Any` (which accepts an endpoint of any type) or the endpoint's type.
pub proof fn law_validation_accepts_exactly(
    named: Map<Seq<char>, LinkModel>,
    id: Option<Seq<char>>,
    d: DeeplinkModel,
)
    ensures
        (validation(named, id, d) is Ok) <==> {
            &&& named.contains_key(d.type_)
            &&& match (d.from, d.to) {
                (None, None) => true,
                (Some(f), Some(o)) => {
                    &&& named.contains_key(f)
                    &&& named.contains_key(o)
                    &&& (named[d.type_].from == "Any"@ || named[d.type_].from == named[f].type_)
                    &&& (named[d.type_].to == "Any"@ || named[d.type_].to == named[o].type_)
                },
                _ => false,
            }
        },
{
}

/// Which refusal a deeplink that does not validate gets: a lone endpoint first
/// (missing ends shown as `_`, id 0), then an unknown type, then an unknown
/// `from`, then an unknown `to`, then a type conflict reporting the name (or `_`),
/// the deeplink, what the type expects and what the endpoints are.
pub proof fn law_validation_refusals(
    named: Map<Seq<char>, LinkModel>,
    id: Option<Seq<char>>,
    d: DeeplinkModel,
)
    ensures
        d.from is Some && d.to is None ==> validation(named, id, d) == Err::<(), ErrorModel>(
            ErrorModel::InvalidDeeplink { id: 0, from: d.from->0, to: "_"@, type_: d.type_ },
        ),
        d.from is None && d.to is Some ==> validation(named, id, d) == Err::<(), ErrorModel>(
            ErrorModel::InvalidDeeplink { id: 0, from: "_"@, to: d.to->0, type_: d.type_ },
        ),
        (d.from is Some) == (d.to is Some) && !named.contains_key(d.type_) ==> validation(
            named,
            id,
            d,
        ) == Err::<(), ErrorModel>(ErrorModel::TypeNotExists { type_: d.type_ }),
        d.from is Some && d.to is Some && named.contains_key(d.type_) && !named.contains_key(
            d.from->0,
        ) ==> validation(named, id, d) == Err::<(), ErrorModel>(
            ErrorModel::FromNotExists { from: d.from->0 },
        ),
        d.from is Some && d.to is Some && named.contains_key(d.type_) && named.contains_key(
            d.from->0,
        ) && !named.contains_key(d.to->0) ==> validation(named, id, d) == Err::<(), ErrorModel>(
            ErrorModel::ToNotExists { to: d.to->0 },
        ),
        d.from is Some && d.to is Some && named.contains_key(d.type_) && named.contains_key(
            d.from->0,
        ) && named.contains_key(d.to->0) && {
            let t = named[d.type_];
            ||| (t.from != "Any"@ && t.from != named[d.from->0].type_)
            ||| (t.to != "Any"@ && t.to != named[d.to->0].type_)
        } ==> validation(named, id, d) == Err::<(), ErrorModel>(
            ErrorModel::TypeConflict {
                id: match id {
                    Some(n) => n,
                    None => "_"@,
                },
                type_: d.type_,
                from: d.from->0,
                to: d.to->0,
                expected_type: d.type_,
                expected_from: named[d.type_].from,
                expected_to: named[d.type_].to,
                received_type: d.type_,
                received_from: named[d.from->0].type_,
                received_to: named[d.to->0].type_,
            },
        ),
{
}

/// An unnamed deeplink that validates is always created: under the id after the
/// last one, with its type standing in for a missing endpoint, every other
/// deeplink kept and nothing else changed. One that does not validate is refused
/// with its validation refusal.
pub proof fn law_valid_deeplink_is_created(s: StoreModel, d: DeeplinkModel)
    requires
        s.last_id < u64::MAX,
    ensures
        validation(s.named, None, d) is Ok ==> {
            &&& create_outcome(s, d) is Ok
            &&& {
                let t = create_outcome(s, d)->Ok_0;
                let rec = LinkModel {
                    type_: d.type_,
                    from: if d.from is Some { d.from->0 } else { d.type_ },
                    to: if d.to is Some { d.to->0 } else { d.type_ },
                };
                &&& t.last_id == s.last_id + 1
                &&& t.deeplinks == s.deeplinks.insert(t.last_id, rec)
                &&& t.named == s.named
                &&& t.deleted == s.deleted
                &&& t.admins == s.admins
                &&& t.executors == s.executors
            }
        },
        validation(s.named, None, d) is Err ==> create_outcome(s, d) == Err::<StoreModel, ErrorModel>(
            validation(s.named, None, d)->Err_0,
        ),
{
}

/// An admin's named deeplink that validates is always created, also under a name
/// already in use (the name then holds the new record): under the id after the
/// last one and under its name, with `Any` standing in for a missing endpoint.
pub proof fn law_admin_named_creation_succeeds(
    s: StoreModel,
    sender: Seq<char>,
    name: Seq<char>,
    d: DeeplinkModel,
)
    requires
        s.is_admin(sender),
        validation(s.named, Some(name), d) is Ok,
        s.last_id < u64::MAX,
    ensures
        create_named_outcome(s, sender, name, d) is Ok,
        ({
            let t = create_named_outcome(s, sender, name, d)->Ok_0;
            let rec = LinkModel {
                type_: d.type_,
                from: if d.from is Some { d.from->0 } else { "Any"@ },
                to: if d.to is Some { d.to->0 } else { "Any"@ },
            };
            &&& t.last_id == s.last_id + 1
            &&& t.deeplinks == s.deeplinks.insert(t.last_id, rec)
            &&& t.named == s.named.insert(name, rec)
            &&& t.deleted == s.deleted
            &&& t.admins == s.admins
            &&& t.executors == s.executors
        }),
{
}

/// An admin's deletion always succeeds and only sets the id's mark to `true`.
pub proof fn law_admin_delete_succeeds(s: StoreModel, sender: Seq<char>, id: u64)
    requires
        s.is_admin(sender),
    ensures
        delete_outcome(s, sender, id) == Ok::<StoreModel, ErrorModel>(
            StoreModel { deleted: s.deleted.insert(id, true), ..s },
        ),
{
}

/// An admin's replacement of the admins or of the executors by a validated list
/// always succeeds, with exactly that list, whoever is on it (the sender too);
/// a failed validation is answered with its message.
pub proof fn law_admin_config_updates(
    s: StoreModel,
    sender: Seq<char>,
    v: Result<Seq<Seq<char>>, Seq<char>>,
)
    requires
        s.is_admin(sender),
    ensures
        v is Ok ==> update_admins_outcome(s, sender, v) == Ok::<StoreModel, ErrorModel>(
            StoreModel { admins: v->Ok_0, ..s },
        ),
        v is Ok ==> update_executors_outcome(s, sender, v) == Ok::<StoreModel, ErrorModel>(
            StoreModel { executors: v->Ok_0, ..s },
        ),
        v is Err ==> update_admins_outcome(s, sender, v) == Err::<StoreModel, ErrorModel>(
            ErrorModel::Std(v->Err_0),
        ),
        v is Err ==> update_executors_outcome(s, sender, v) == Err::<StoreModel, ErrorModel>(
            ErrorModel::Std(v->Err_0),
        ),
{
}

/// A batch whose deeplinks all validate is created whole.
pub proof fn law_valid_batch_succeeds(s: StoreModel, ds: Seq<DeeplinkModel>)
    requires
        forall|k: int| 0 <= k < ds.len() ==> validation(s.named, None, #[trigger] ds[k]) is Ok,
        s.last_id + ds.len() <= u64::MAX,
    ensures
        batch_outcome(s, ds).1 == Ok::<(), ErrorModel>(()),
        batch_outcome(s, ds).0.last_id == s.last_id + ds.len(),
    decreases ds.len(),
{
    if ds.len() > 0 {
        let s1 = created(s, ds[0]);
        let rest = ds.drop_first();
        assert(validation(s.named, None, ds[0]) is Ok);
        assert forall|k: int| 0 <= k < rest.len() implies validation(s1.named, None, #[trigger] rest[k]) is Ok by {
            assert(rest[k] == ds[k + 1]);
        }
        law_valid_batch_succeeds(s1, rest);
    }
}

/// A relayed cyberlink request answers with exactly one sub-message, from the
/// contract, under reply id 42, carrying every requested link in order, and no
/// attributes.
pub proof fn law_cyberlink_relays_every_link(contract: Seq<char>, links: Seq<(Seq<char>, Seq<char>)>)
    ensures
        cyberlink_response(contract, links).attributes.len() == 0,
        cyberlink_response(contract, links).messages.len() == 1,
        cyberlink_response(contract, links).messages[0].id == 42,
        cyberlink_response(contract, links).messages[0].neuron == contract,
        cyberlink_response(contract, links).messages[0].links == links,
{
}

} // verus!
