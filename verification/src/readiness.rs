//! Status-condition construction and readiness predicates.
//!
//! [`Condition`] has the shape of `metav1.Condition`, so
//! `kubectl wait --for=condition=Ready` and generic tooling work unchanged.
use vstd::prelude::*;

use crate::json;
use crate::json::{Json, JsonView};

verus! {

/// A standard Kubernetes status condition.
#[derive(Debug, Clone)]
pub struct Condition {
    pub type_: String,
    pub status: String,
    pub reason: String,
    pub message: String,
    pub last_transition_time: String,
}

/// The mathematical model of a [`Condition`].
pub struct ConditionView {
    pub type_: Seq<char>,
    pub status: Seq<char>,
    pub reason: Seq<char>,
    pub message: Seq<char>,
    pub last_transition_time: Seq<char>,
}

impl View for Condition {
    type V = ConditionView;

    open spec fn view(&self) -> ConditionView {
        ConditionView {
            type_: self.type_@,
            status: self.status@,
            reason: self.reason@,
            message: self.message@,
            last_transition_time: self.last_transition_time@,
        }
    }
}

/// The model of a list of conditions.
pub open spec fn conditions_view(cs: Seq<Condition>) -> Seq<ConditionView> {
    cs.map_values(|c: Condition| c@)
}

/// `"True"` or `"False"`.
pub open spec fn status_text(b: bool) -> Seq<char> {
    if b {
        "True"@
    } else {
        "False"@
    }
}

/// The condition `type_` with the given status, reason, message and time.
pub open spec fn condition_view(
    type_: Seq<char>,
    status: bool,
    reason: Seq<char>,
    message: Seq<char>,
    time: Seq<char>,
) -> ConditionView {
    ConditionView {
        type_,
        status: status_text(status),
        reason,
        message,
        last_transition_time: time,
    }
}

/// Position of the first condition of type `t` at or after `i`, or -1.
pub open spec fn type_pos_from(cs: Seq<ConditionView>, t: Seq<char>, i: int) -> int
    decreases cs.len() - i,
{
    if i < 0 || i >= cs.len() {
        -1
    } else if cs[i].type_ == t {
        i
    } else {
        type_pos_from(cs, t, i + 1)
    }
}

/// Position of the first condition of type `t`, or -1.
pub open spec fn type_pos(cs: Seq<ConditionView>, t: Seq<char>) -> int {
    type_pos_from(cs, t, 0)
}

/// `cs` with `c` upserted by type: the first entry of the same type is
/// replaced (keeping its `lastTransitionTime` when the status is unchanged),
/// or `c` is appended when no entry has its type.
pub open spec fn upserted(cs: Seq<ConditionView>, c: ConditionView) -> Seq<ConditionView> {
    let p = type_pos(cs, c.type_);
    if 0 <= p < cs.len() {
        if cs[p].status == c.status {
            cs.update(p, ConditionView { last_transition_time: cs[p].last_transition_time, ..c })
        } else {
            cs.update(p, c)
        }
    } else {
        cs.push(c)
    }
}

/// No two conditions share a type.
pub open spec fn unique_types(cs: Seq<ConditionView>) -> bool {
    forall|i: int, j: int| 0 <= i < j < cs.len() ==> #[trigger] cs[i].type_ != #[trigger] cs[j].type_
}

pub proof fn lemma_type_pos_from(cs: Seq<ConditionView>, t: Seq<char>, i: int)
    requires
        0 <= i <= cs.len(),
    ensures
        type_pos_from(cs, t, i) == -1 || (i <= type_pos_from(cs, t, i) < cs.len()
            && cs[type_pos_from(cs, t, i)].type_ == t),
        type_pos_from(cs, t, i) == -1 ==> forall|j: int| i <= j < cs.len() ==> #[trigger] cs[j].type_ != t,
        type_pos_from(cs, t, i) != -1 ==> forall|j: int|
            i <= j < type_pos_from(cs, t, i) ==> #[trigger] cs[j].type_ != t,
    decreases cs.len() - i,
{
    if i < cs.len() && cs[i].type_ != t {
        lemma_type_pos_from(cs, t, i + 1);
    }
}

/// Reads the clock.
///
/// Calls `k8s_openapi::jiff::Timestamp::now` and formats it as RFC 3339 in
/// UTC with an explicit `+00:00` offset (`display_with_offset`). Nothing is
/// stated of the result: it depends on the time of the call.
#[verifier::external_body]
fn now_rfc3339() -> String {
    k8s_openapi::jiff::Timestamp::now().display_with_offset(k8s_openapi::jiff::tz::Offset::UTC).to_string()
}

/// Build a condition stamped with the time `now`.
pub fn condition_at(type_: &str, status: bool, reason: &str, message: String, now: String) -> (r:
    Condition)
    ensures
        r@ == condition_view(type_@, status, reason@, message@, now@),
{
    Condition {
        type_: type_.to_string(),
        status: if status {
            "True".to_string()
        } else {
            "False".to_string()
        },
        reason: reason.to_string(),
        message,
        last_transition_time: now,
    }
}

/// Build a condition stamped with the current time (RFC 3339).
pub fn condition(type_: &str, status: bool, reason: &str, message: String) -> (r: Condition)
    ensures
        r.type_@ == type_@,
        r.status@ == status_text(status),
        r.reason@ == reason@,
        r.message@ == message@,
{
    condition_at(type_, status, reason, message, now_rfc3339())
}

/// Upsert a condition into a list by `type`, replacing any existing entry.
/// Preserves the original `lastTransitionTime` when the status is unchanged.
pub fn upsert(conditions: &mut Vec<Condition>, cond: Condition)
    ensures
        conditions_view(final(conditions)@) == upserted(conditions_view(old(conditions)@), cond@),
{
    let ghost cs = conditions_view(conditions@);
    let mut i: usize = 0;
    while i < conditions.len()
        invariant
            i <= conditions.len(),
            cs == conditions_view(conditions@),
            cs == conditions_view(old(conditions)@),
            type_pos_from(cs, cond@.type_, i as int) == type_pos(cs, cond@.type_),
        decreases conditions.len() - i,
    {
        if conditions[i].type_ == cond.type_ {
            let mut next = cond;
            if conditions[i].status == next.status {
                next.last_transition_time = conditions[i].last_transition_time.clone();
            }
            conditions.set(i, next);
            assert(conditions_view(conditions@) =~= upserted(cs, cond@));
            return;
        }
        i = i + 1;
    }
    conditions.push(cond);
    assert(conditions_view(conditions@) =~= upserted(cs, cond@));
}

/// After an upsert the list holds an entry of the upserted type carrying its
/// status, reason and message; its time is kept from the old entry exactly
/// when an entry of that type with the same status was there before. Entries
/// of other types are untouched, and the list grows by one exactly when the
/// type was absent.
pub proof fn lemma_upsert_effect(cs: Seq<ConditionView>, c: ConditionView)
    ensures
        ({
            let r = upserted(cs, c);
            let p = type_pos(r, c.type_);
            &&& 0 <= p < r.len()
            &&& r[p].type_ == c.type_
            &&& r[p].status == c.status
            &&& r[p].reason == c.reason
            &&& r[p].message == c.message
            &&& (if 0 <= type_pos(cs, c.type_) && cs[type_pos(cs, c.type_)].status == c.status {
                r[p].last_transition_time == cs[type_pos(cs, c.type_)].last_transition_time
            } else {
                r[p].last_transition_time == c.last_transition_time
            })
            &&& r.len() == if type_pos(cs, c.type_) == -1 {
                cs.len() + 1
            } else {
                cs.len() + 0
            }
            &&& forall|i: int| 0 <= i < cs.len() && cs[i].type_ != c.type_ ==> #[trigger] r[i] == cs[i]
        }),
{
    let r = upserted(cs, c);
    lemma_type_pos_from(cs, c.type_, 0);
    let p0 = type_pos(cs, c.type_);
    if p0 == -1 {
        assert forall|j: int| 0 <= j < cs.len() implies #[trigger] r[j].type_ != c.type_ by {
            assert(r[j] == cs[j]);
        }
        lemma_type_pos_from(r, c.type_, 0);
        lemma_type_pos_first(r, c.type_, cs.len() as int);
    } else {
        lemma_type_pos_first(r, c.type_, p0);
    }
}

/// When `t` first occurs at `p`, `type_pos` finds `p`.
pub proof fn lemma_type_pos_first(cs: Seq<ConditionView>, t: Seq<char>, p: int)
    requires
        0 <= p < cs.len(),
        cs[p].type_ == t,
        forall|j: int| 0 <= j < p ==> #[trigger] cs[j].type_ != t,
    ensures
        type_pos(cs, t) == p,
{
    lemma_type_pos_from(cs, t, 0);
    let q = type_pos(cs, t);
    if q == -1 {
        assert(cs[p].type_ != t);
    } else if q < p {
        assert(cs[q].type_ != t);
    } else if q > p {
        assert(cs[p].type_ != t);
    }
}

/// Upserting keeps condition types unique.
pub proof fn lemma_upsert_unique(cs: Seq<ConditionView>, c: ConditionView)
    requires
        unique_types(cs),
    ensures
        unique_types(upserted(cs, c)),
{
    lemma_type_pos_from(cs, c.type_, 0);
    let r = upserted(cs, c);
    assert forall|i: int, j: int| 0 <= i < j < r.len() implies #[trigger] r[i].type_
        != #[trigger] r[j].type_ by {
        if j == cs.len() {
            assert(cs[i].type_ != c.type_);
            assert(r[i] == cs[i]);
        } else {
            assert(cs[i].type_ != cs[j].type_);
        }
    }
}

/// Upserting the same condition twice changes nothing the second time.
pub proof fn lemma_upsert_idempotent(cs: Seq<ConditionView>, c: ConditionView)
    ensures
        upserted(upserted(cs, c), c) == upserted(cs, c),
{
    let r = upserted(cs, c);
    lemma_upsert_effect(cs, c);
    let p = type_pos(r, c.type_);
    assert(r[p].status == c.status);
    assert(upserted(r, c) =~= r);
}

/// Is `c` an object with `type: "Ready"` and `status: "True"`?
pub open spec fn is_ready_true(c: JsonView) -> bool {
    &&& c.get("type"@) == Some(json::jstr("Ready"@))
    &&& c.get("status"@) == Some(json::jstr("True"@))
}

/// Does `obj` carry `status.conditions[type=Ready].status == "True"`?
pub open spec fn has_ready_true(obj: JsonView) -> bool {
    match obj.get("status"@) {
        Some(status) => match status.get("conditions"@) {
            Some(JsonView::Arr(items)) => exists|i: int|
                0 <= i < items.len() && #[trigger] is_ready_true(items[i]),
            _ => false,
        },
        None => false,
    }
}

/// The `status.conditions` list of an object, when it has one.
pub open spec fn status_conditions(obj: JsonView) -> Option<Seq<JsonView>> {
    match obj.get("status"@) {
        Some(status) => match status.get("conditions"@) {
            Some(JsonView::Arr(items)) => Some(items),
            _ => None,
        },
        None => None,
    }
}

/// An object counts as ready exactly when one of its `status.conditions`
/// has type `Ready` and status `True`; a `True` condition of any other type
/// (`Reconciling`, `Released`, ...) does not count, nor does a `Ready`
/// condition whose status is `False` or `Unknown`.
pub proof fn lemma_ready_means_ready_true(obj: JsonView)
    ensures
        has_ready_true(obj) <==> (status_conditions(obj) matches Some(items) && exists|i: int|
            0 <= i < items.len() && (#[trigger] items[i]).get("type"@) == Some(json::jstr("Ready"@))
                && items[i].get("status"@) == Some(json::jstr("True"@))),
{
    if has_ready_true(obj) {
        let items = status_conditions(obj)->0;
        let i = choose|i: int| 0 <= i < items.len() && #[trigger] is_ready_true(items[i]);
        assert(items[i].get("type"@) == Some(json::jstr("Ready"@)));
    }
    match status_conditions(obj) {
        Some(items) => {
            if exists|i: int|
                0 <= i < items.len() && (#[trigger] items[i]).get("type"@) == Some(json::jstr("Ready"@))
                    && items[i].get("status"@) == Some(json::jstr("True"@)) {
                let i = choose|i: int|
                    0 <= i < items.len() && (#[trigger] items[i]).get("type"@) == Some(
                        json::jstr("Ready"@),
                    ) && items[i].get("status"@) == Some(json::jstr("True"@));
                assert(is_ready_true(items[i]));
            }
        },
        None => {},
    }
}

/// True when the object carries `status.conditions[type=Ready].status == "True"`.
/// Used for Flux `HelmRelease`, CNPG `Cluster` and cert-manager `Certificate`,
/// which all expose this shape.
pub fn ready_condition_true(obj: &Json) -> (r: bool)
    ensures
        r == has_ready_true(obj@),
        r <==> (status_conditions(obj@) matches Some(items) && exists|i: int|
            0 <= i < items.len() && (#[trigger] items[i]).get("type"@) == Some(json::jstr("Ready"@))
                && items[i].get("status"@) == Some(json::jstr("True"@))),
{
    proof {
        lemma_ready_means_ready_true(obj@);
    }
    let status = match obj.get("status") {
        Some(s) => s,
        None => return false,
    };
    let conds = match status.get("conditions") {
        Some(c) => c,
        None => return false,
    };
    match conds {
        Json::Arr(items) => {
            proof {
                json::lemma_items_view(items@);
            }
            let mut i: usize = 0;
            while i < items.len()
                invariant
                    i <= items.len(),
                    conds@ == JsonView::Arr(json::items_view(items@)),
                    obj@.get("status"@) == Some(status@),
                    status@.get("conditions"@) == Some(conds@),
                    json::items_view(items@).len() == items@.len(),
                    forall|j: int| 0 <= j < items@.len() ==> #[trigger] json::items_view(items@)[j] == json::json_view(items@[j]),
                    forall|j: int| 0 <= j < i ==> !is_ready_true(#[trigger] json::items_view(items@)[j]),
                decreases items.len() - i,
            {
                let c = &items[i];
                let ty = c.get("type");
                let st = c.get("status");
                let ty_ok = match ty {
                    Some(t) => match t.as_str() {
                        Some(x) => x.to_string() == "Ready".to_string(),
                        None => false,
                    },
                    None => false,
                };
                let st_ok = match st {
                    Some(t) => match t.as_str() {
                        Some(x) => x.to_string() == "True".to_string(),
                        None => false,
                    },
                    None => false,
                };
                if ty_ok && st_ok {
                    assert(is_ready_true(json::items_view(items@)[i as int]));
                    let ghost iv = json::items_view(items@);
                    assert(exists|j: int| 0 <= j < iv.len() && #[trigger] is_ready_true(iv[j]));
                    assert(conds@ is Arr);
                    assert(conds@->Arr_0 == iv);
                    assert(status@.get("conditions"@)->0->Arr_0 == iv);
                    assert(obj@.get("status"@) is Some);
                    assert(has_ready_true(obj@));
                    return true;
                }
                assert(!is_ready_true(json::items_view(items@)[i as int]));
                i = i + 1;
            }
            false
        },
        _ => false,
    }
}

/// Some condition of type `t` has status `"True"`.
pub open spec fn has_true(cs: Seq<ConditionView>, t: Seq<char>) -> bool {
    exists|i: int| 0 <= i < cs.len() && (#[trigger] cs[i]).type_ == t && cs[i].status == "True"@
}

/// Upserting keeps every other type's `True` entry, and a `True` upsert
/// leaves a `True` entry of its own type.
pub proof fn lemma_upsert_has_true(cs: Seq<ConditionView>, c: ConditionView, t: Seq<char>)
    ensures
        t != c.type_ && has_true(cs, t) ==> has_true(upserted(cs, c), t),
        c.status == "True"@ ==> has_true(upserted(cs, c), c.type_),
{
    let r = upserted(cs, c);
    lemma_upsert_effect(cs, c);
    if t != c.type_ && has_true(cs, t) {
        let i = choose|i: int| 0 <= i < cs.len() && (#[trigger] cs[i]).type_ == t && cs[i].status == "True"@;
        assert(r[i] == cs[i]);
    }
    if c.status == "True"@ {
        let p = type_pos(r, c.type_);
        assert(r[p].type_ == c.type_ && r[p].status == "True"@);
    }
}

} // verus!
