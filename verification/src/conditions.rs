//! The status-condition state machine: an ordered list of typed
//! conditions, free of duplicate types, whose transition times move only
//! when a condition's status actually changes.

use vstd::prelude::*;
use crate::clock::now_epoch_millis;
use crate::text::str_eq;

verus! {

/// A typed, timestamped status fact attached to a resource's status.
pub struct Condition {
    /// Condition type, e.g. `Ready`, `BackupComplete`, `Error`.
    pub condition_type: String,
    /// `True`, `False` or `Unknown`.
    pub status: String,
    /// Machine-readable reason.
    pub reason: Option<String>,
    /// Human-readable message.
    pub message: Option<String>,
    /// Epoch milliseconds of the moment `status` last changed.
    pub last_transition_time: Option<i64>,
}

/// The mathematical value of a `Condition`.
pub struct ConditionView {
    pub condition_type: Seq<char>,
    pub status: Seq<char>,
    pub reason: Option<Seq<char>>,
    pub message: Option<Seq<char>>,
    pub last_transition_time: Option<i64>,
}

impl View for Condition {
    type V = ConditionView;

    open spec fn view(&self) -> ConditionView {
        ConditionView {
            condition_type: self.condition_type@,
            status: self.status@,
            reason: self.reason.deep_view(),
            message: self.message.deep_view(),
            last_transition_time: self.last_transition_time,
        }
    }
}

impl DeepView for Condition {
    type V = ConditionView;

    open spec fn deep_view(&self) -> ConditionView {
        self.view()
    }
}

impl Clone for Condition {
    fn clone(&self) -> (r: Self)
        ensures
            r@ == self@,
    {
        Condition {
            condition_type: self.condition_type.clone(),
            status: self.status.clone(),
            reason: match &self.reason {
                Some(s) => Some(s.clone()),
                None => None,
            },
            message: match &self.message {
                Some(s) => Some(s.clone()),
                None => None,
            },
            last_transition_time: self.last_transition_time,
        }
    }
}

/// The freshly built condition for the given fields and clock reading.
pub open spec fn cond_view(
    condition_type: Seq<char>,
    status: Seq<char>,
    reason: Seq<char>,
    message: Seq<char>,
    now_millis: i64,
) -> ConditionView {
    ConditionView {
        condition_type: condition_type,
        status: status,
        reason: Some(reason),
        message: Some(message),
        last_transition_time: Some(now_millis),
    }
}

/// The first condition of the given type, if any.
pub open spec fn find_cond(s: Seq<ConditionView>, t: Seq<char>) -> Option<ConditionView>
    decreases s.len(),
{
    if s.len() == 0 {
        None
    } else if s[0].condition_type == t {
        Some(s[0])
    } else {
        find_cond(s.drop_first(), t)
    }
}

/// How an incoming condition lands on an existing one of the same type:
/// an unchanged status keeps the entry and its transition time, refreshing
/// only reason and message; a changed status replaces the entry wholesale.
pub open spec fn merge_cond(existing: ConditionView, incoming: ConditionView) -> ConditionView {
    if existing.status == incoming.status {
        ConditionView {
            reason: incoming.reason,
            message: incoming.message,
            ..existing
        }
    } else {
        incoming
    }
}

/// The condition list after setting `incoming`: the first entry of the same
/// type is merged in place, and the entry is appended when no type matches.
pub open spec fn set_cond(s: Seq<ConditionView>, incoming: ConditionView) -> Seq<ConditionView>
    decreases s.len(),
{
    if s.len() == 0 {
        seq![incoming]
    } else if s[0].condition_type == incoming.condition_type {
        seq![merge_cond(s[0], incoming)] + s.drop_first()
    } else {
        seq![s[0]] + set_cond(s.drop_first(), incoming)
    }
}

/// No two entries share a condition type.
pub open spec fn unique_types(s: Seq<ConditionView>) -> bool {
    forall|i: int, j: int|
        0 <= i < j < s.len() ==> s[i].condition_type != s[j].condition_type
}

/// Whether the list holds the given type with status `True`.
pub open spec fn cond_is_true(s: Seq<ConditionView>, t: Seq<char>) -> bool {
    match find_cond(s, t) {
        Some(c) => c.status == "True"@,
        None => false,
    }
}

/// Create a new condition carrying the given clock reading as its
/// transition time.
pub fn new_condition_at(
    condition_type: &str,
    status: &str,
    reason: &str,
    message: &str,
    now_millis: i64,
) -> (c: Condition)
    ensures
        c@ == cond_view(condition_type@, status@, reason@, message@, now_millis),
{
    Condition {
        condition_type: condition_type.to_owned(),
        status: status.to_owned(),
        reason: Some(reason.to_owned()),
        message: Some(message.to_owned()),
        last_transition_time: Some(now_millis),
    }
}

/// Create a new condition stamped with the current wall-clock time.
pub fn new_condition(condition_type: &str, status: &str, reason: &str, message: &str) -> (c:
    Condition)
    ensures
        c@.condition_type == condition_type@,
        c@.status == status@,
        c@.reason == Some(reason@),
        c@.message == Some(message@),
        c@.last_transition_time is Some,
{
    let now = now_epoch_millis();
    new_condition_at(condition_type, status, reason, message, now)
}

/// Set or update a condition in a conditions list.  If a condition with the
/// same type exists and the status has not changed, only reason and message
/// are updated, preserving the transition time; a changed status replaces
/// the entry; an absent type is appended.
pub fn set_condition(conditions: &mut Vec<Condition>, new_condition: Condition)
    ensures
        final(conditions).deep_view() == set_cond(
            old(conditions).deep_view(),
            new_condition@,
        ),
{
    let ghost s0 = old(conditions).deep_view();
    let ghost nv = new_condition@;
    let n = conditions.len();
    let mut i: usize = 0;
    while i < n
        invariant
            n == conditions@.len(),
            old(conditions).deep_view() == s0,
            conditions.deep_view() == s0,
            nv == new_condition@,
            0 <= i <= n,
            forall|j: int| 0 <= j < i ==> s0[j].condition_type != nv.condition_type,
        decreases n - i,
    {
        if str_eq(conditions[i].condition_type.as_str(), new_condition.condition_type.as_str()) {
            proof {
                lemma_set_cond_first_match(s0, nv, i as int);
            }
            let same_status = str_eq(
                conditions[i].status.as_str(),
                new_condition.status.as_str(),
            );
            let entry = &mut conditions[i];
            if same_status {
                entry.reason = new_condition.reason;
                entry.message = new_condition.message;
            } else {
                *entry = new_condition;
            }
            proof {
                assert(conditions.deep_view() =~= s0.update(
                    i as int,
                    merge_cond(s0[i as int], nv),
                ));
            }
            return ;
        }
        i += 1;
    }
    proof {
        lemma_set_cond_no_match(s0, nv);
    }
    conditions.push(new_condition);
    proof {
        assert(conditions.deep_view() =~= s0.push(nv));
    }
}

/// With no entry of the incoming type, setting appends.
proof fn lemma_set_cond_no_match(s: Seq<ConditionView>, incoming: ConditionView)
    requires
        forall|j: int| 0 <= j < s.len() ==> s[j].condition_type != incoming.condition_type,
    ensures
        set_cond(s, incoming) =~= s.push(incoming),
    decreases s.len(),
{
    if s.len() > 0 {
        lemma_set_cond_no_match(s.drop_first(), incoming);
    }
}

/// With the first entry of the incoming type at position `i`, setting
/// updates exactly that position.
proof fn lemma_set_cond_first_match(s: Seq<ConditionView>, incoming: ConditionView, i: int)
    requires
        0 <= i < s.len(),
        s[i].condition_type == incoming.condition_type,
        forall|j: int| 0 <= j < i ==> s[j].condition_type != incoming.condition_type,
    ensures
        set_cond(s, incoming) =~= s.update(i, merge_cond(s[i], incoming)),
    decreases i,
{
    if i > 0 {
        lemma_set_cond_first_match(s.drop_first(), incoming, i - 1);
        assert(set_cond(s, incoming) =~= seq![s[0]] + set_cond(s.drop_first(), incoming));
        assert(s.update(i, merge_cond(s[i], incoming)).drop_first() =~= s.drop_first().update(
            i - 1,
            merge_cond(s.drop_first()[i - 1], incoming),
        ));
    }
}

/// Find a condition by type.
pub fn find_condition<'a>(conditions: &'a Vec<Condition>, condition_type: &str) -> (r: Option<
    &'a Condition,
>)
    ensures
        match r {
            Some(c) => find_cond(conditions.deep_view(), condition_type@) == Some(c@),
            None => find_cond(conditions.deep_view(), condition_type@) is None,
        },
{
    let ghost s = conditions.deep_view();
    let n = conditions.len();
    let mut i: usize = 0;
    while i < n
        invariant
            n == conditions@.len(),
            s == conditions.deep_view(),
            0 <= i <= n,
            forall|j: int| 0 <= j < i ==> s[j].condition_type != condition_type@,
        decreases n - i,
    {
        if str_eq(conditions[i].condition_type.as_str(), condition_type) {
            proof {
                lemma_find_cond_at(s, condition_type@, i as int);
            }
            return Some(&conditions[i]);
        }
        i += 1;
    }
    proof {
        lemma_find_cond_none(s, condition_type@);
    }
    None
}

proof fn lemma_find_cond_at(s: Seq<ConditionView>, t: Seq<char>, i: int)
    requires
        0 <= i < s.len(),
        s[i].condition_type == t,
        forall|j: int| 0 <= j < i ==> s[j].condition_type != t,
    ensures
        find_cond(s, t) == Some(s[i]),
    decreases i,
{
    if i > 0 {
        lemma_find_cond_at(s.drop_first(), t, i - 1);
    }
}

proof fn lemma_find_cond_none(s: Seq<ConditionView>, t: Seq<char>)
    requires
        forall|j: int| 0 <= j < s.len() ==> s[j].condition_type != t,
    ensures
        find_cond(s, t) is None,
    decreases s.len(),
{
    if s.len() > 0 {
        lemma_find_cond_none(s.drop_first(), t);
    }
}

/// Check whether a condition of the given type is present with status
/// `True`.
pub fn is_condition_true(conditions: &Vec<Condition>, condition_type: &str) -> (r: bool)
    ensures
        r == cond_is_true(conditions.deep_view(), condition_type@),
{
    match find_condition(conditions, condition_type) {
        Some(c) => str_eq(c.status.as_str(), "True"),
        None => false,
    }
}

/// Create a `Ready=True` condition stamped with the current time.
pub fn ready(reason: &str, message: &str) -> (c: Condition)
    ensures
        c@.condition_type == "Ready"@,
        c@.status == "True"@,
        c@.reason == Some(reason@),
        c@.message == Some(message@),
        c@.last_transition_time is Some,
{
    new_condition("Ready", "True", reason, message)
}

/// Create a `Ready=False` condition stamped with the current time.
pub fn not_ready(reason: &str, message: &str) -> (c: Condition)
    ensures
        c@.condition_type == "Ready"@,
        c@.status == "False"@,
        c@.reason == Some(reason@),
        c@.message == Some(message@),
        c@.last_transition_time is Some,
{
    new_condition("Ready", "False", reason, message)
}

/// Create a `Ready=True` condition carrying the given clock reading.
pub fn ready_at(reason: &str, message: &str, now_millis: i64) -> (c: Condition)
    ensures
        c@ == cond_view("Ready"@, "True"@, reason@, message@, now_millis),
{
    new_condition_at("Ready", "True", reason, message, now_millis)
}

/// Create a `Ready=False` condition carrying the given clock reading.
pub fn not_ready_at(reason: &str, message: &str, now_millis: i64) -> (c: Condition)
    ensures
        c@ == cond_view("Ready"@, "False"@, reason@, message@, now_millis),
{
    new_condition_at("Ready", "False", reason, message, now_millis)
}

/// The condition pair that reports a failed pass: `Ready=False` plus
/// `Error=True`, both carrying the error's reason and message.
pub open spec fn error_conds_view(reason: Seq<char>, message: Seq<char>, now_millis: i64) -> Seq<
    ConditionView,
> {
    seq![
        cond_view("Ready"@, "False"@, reason, message, now_millis),
        cond_view("Error"@, "True"@, reason, message, now_millis),
    ]
}

/// Create the error condition pair carrying the given clock reading.
pub fn error_conditions_at(reason: &str, message: &str, now_millis: i64) -> (r: Vec<Condition>)
    ensures
        r.deep_view() =~= error_conds_view(reason@, message@, now_millis),
{
    let mut out: Vec<Condition> = Vec::new();
    out.push(not_ready_at(reason, message, now_millis));
    out.push(new_condition_at("Error", "True", reason, message, now_millis));
    out
}

/// Create the error condition pair stamped with the current time.
pub fn error_conditions(reason: &str, message: &str) -> (r: Vec<Condition>)
    ensures
        exists|t: i64| r.deep_view() =~= error_conds_view(reason@, message@, t),
{
    let now = now_epoch_millis();
    let r = error_conditions_at(reason, message, now);
    proof {
        assert(r.deep_view() =~= error_conds_view(reason@, message@, now));
    }
    r
}

/// Law: setting a condition whose type already exists with the same status
/// keeps that entry's transition time; only reason and message move.
pub proof fn lemma_transition_time_stable(s: Seq<ConditionView>, incoming: ConditionView)
    requires
        find_cond(s, incoming.condition_type) matches Some(existing) && existing.status
            == incoming.status,
    ensures
        find_cond(set_cond(s, incoming), incoming.condition_type)
            matches Some(updated) && updated.last_transition_time == find_cond(
            s,
            incoming.condition_type,
        ).unwrap().last_transition_time && updated.reason == incoming.reason && updated.message
            == incoming.message,
    decreases s.len(),
{
    if s.len() > 0 && s[0].condition_type != incoming.condition_type {
        lemma_transition_time_stable(s.drop_first(), incoming);
        assert(set_cond(s, incoming).drop_first() =~= set_cond(s.drop_first(), incoming));
    }
}

/// Law: setting a condition whose type already exists with a different
/// status replaces the entry wholesale, so the transition time becomes the
/// incoming one.
pub proof fn lemma_transition_time_moves(s: Seq<ConditionView>, incoming: ConditionView)
    requires
        find_cond(s, incoming.condition_type) matches Some(existing) && existing.status
            != incoming.status,
    ensures
        find_cond(set_cond(s, incoming), incoming.condition_type) == Some(incoming),
    decreases s.len(),
{
    if s.len() > 0 && s[0].condition_type != incoming.condition_type {
        lemma_transition_time_moves(s.drop_first(), incoming);
        assert(set_cond(s, incoming).drop_first() =~= set_cond(s.drop_first(), incoming));
    }
}

/// Law: the condition list never grows a duplicate type: setting preserves
/// type uniqueness.
pub proof fn lemma_set_cond_preserves_unique_types(s: Seq<ConditionView>, incoming: ConditionView)
    requires
        unique_types(s),
    ensures
        unique_types(set_cond(s, incoming)),
    decreases s.len(),
{
    if s.len() == 0 {
    } else if s[0].condition_type == incoming.condition_type {
        let merged = merge_cond(s[0], incoming);
        assert(merged.condition_type == s[0].condition_type);
        assert forall|i: int, j: int|
            0 <= i < j < set_cond(s, incoming).len() implies set_cond(s, incoming)[i].condition_type
            != set_cond(s, incoming)[j].condition_type by {
            assert(set_cond(s, incoming) =~= seq![merged] + s.drop_first());
        }
    } else {
        lemma_set_cond_preserves_unique_types(s.drop_first(), incoming);
        lemma_set_cond_types_unchanged(s.drop_first(), incoming);
        let out = set_cond(s, incoming);
        assert(out =~= seq![s[0]] + set_cond(s.drop_first(), incoming));
        assert forall|i: int, j: int|
            0 <= i < j < out.len() implies out[i].condition_type != out[j].condition_type by {
            if i == 0 {
                let inner = set_cond(s.drop_first(), incoming);
                assert(out[j] == inner[j - 1]);
                lemma_set_cond_member_types(s.drop_first(), incoming, j - 1);
            }
        }
    }
}

/// Every type in the updated list is either a type of the old list or the
/// incoming type.
proof fn lemma_set_cond_member_types(s: Seq<ConditionView>, incoming: ConditionView, k: int)
    requires
        0 <= k < set_cond(s, incoming).len(),
    ensures
        set_cond(s, incoming)[k].condition_type == incoming.condition_type || exists|j: int|
            0 <= j < s.len() && s[j].condition_type == set_cond(s, incoming)[k].condition_type,
    decreases s.len(),
{
    if s.len() == 0 {
    } else if s[0].condition_type == incoming.condition_type {
        if k > 0 {
            assert(set_cond(s, incoming)[k] == s.drop_first()[k - 1]);
            assert(s[k] == s.drop_first()[k - 1]);
        }
    } else {
        if k > 0 {
            lemma_set_cond_member_types(s.drop_first(), incoming, k - 1);
            assert(set_cond(s, incoming)[k] == set_cond(s.drop_first(), incoming)[k - 1]);
        }
    }
}

/// Setting grows the list by at most one entry.
proof fn lemma_set_cond_types_unchanged(s: Seq<ConditionView>, incoming: ConditionView)
    ensures
        set_cond(s, incoming).len() == s.len() || set_cond(s, incoming).len() == s.len() + 1,
    decreases s.len(),
{
    if s.len() > 0 && s[0].condition_type != incoming.condition_type {
        lemma_set_cond_types_unchanged(s.drop_first(), incoming);
    }
}

} // verus!
