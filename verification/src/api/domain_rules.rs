//! Domain rules as the HTTP API takes and shows them.

use vstd::prelude::*;

use super::activity::{activity_of, Activity, ActivityConversionError};
use crate::database::models::activity_log::ActivityLog;
use crate::database::models::domain_rule::DomainRule;
use crate::database::models::{ListAction, MatchType};

verus! {

/// How a new rule matches names when the request does not say.
pub fn default_match_type() -> (m: MatchType)
    ensures
        m == MatchType::Domain,
{
    MatchType::Domain
}

/// What a new rule does when the request does not say: block.
pub fn default_action() -> (a: ListAction)
    ensures
        a == ListAction::Block,
{
    ListAction::Block
}

/// A request to add a rule.
#[derive(Debug, Clone, PartialEq, Eq)]
pub struct AddDomainPayload {
    pub domain: String,
    pub match_type: MatchType,
    pub action: ListAction,
}

/// A request naming a rule by its domain.
#[derive(Debug, Clone, PartialEq, Eq)]
pub struct DomainPayload {
    pub domain: String,
}

/// A request to change what a rule does.
#[derive(Debug, Clone, PartialEq, Eq)]
pub struct UpdateDomainPayload {
    pub domain: String,
    pub action: ListAction,
}

/// How many recent activity entries the details of a rule show.
pub const DETAILS_ACTIVITY_LIMIT: i64 = 5;

/// A rule with its subscription, its counts and its recent activity.
#[derive(Debug, Clone, PartialEq, Eq)]
pub struct DetailsResponse {
    pub rule: DomainRule,
    pub subscription_name: Option<String>,
    pub total_blocked: i64,
    pub total_allowed: i64,
    pub last_seen_at: Option<i64>,
    pub activities: Vec<Activity>,
}

/// The activity entries for stored rows, in order, or the error of the first
/// row that has none.
pub open spec fn activities_of(rows: Seq<ActivityLog>) -> Result<Seq<Activity>, ActivityConversionError>
    decreases rows.len(),
{
    if rows.len() == 0 {
        Ok(Seq::empty())
    } else {
        match activities_of(rows.drop_last()) {
            Err(e) => Err(e),
            Ok(prev) => match activity_of(rows.last()) {
                Ok(a) => Ok(prev.push(a)),
                Err(e) => Err(e),
            },
        }
    }
}

/// The activity entries for `rows` (see [`activities_of`]).
pub fn activities_from_rows(rows: Vec<ActivityLog>) -> (r: Result<Vec<Activity>, ActivityConversionError>)
    ensures
        match r {
            Ok(v) => activities_of(rows@) == Ok::<Seq<Activity>, ActivityConversionError>(v@),
            Err(e) => activities_of(rows@) == Err::<Seq<Activity>, ActivityConversionError>(e),
        },
{
    let ghost all = rows@;
    let n: usize = rows.len();
    let mut pending = rows;
    let mut reversed: Vec<ActivityLog> = Vec::new();
    while pending.len() > 0
        invariant
            all.len() == n,
            pending@.len() + reversed@.len() == all.len(),
            pending@ == all.subrange(0, pending@.len() as int),
            forall|k: int| 0 <= k < reversed@.len() ==> reversed@[k] == all[all.len() - 1 - k],
        decreases pending@.len(),
    {
        let row = pending.pop().unwrap();
        reversed.push(row);
    }
    let mut out: Vec<Activity> = Vec::new();
    let mut i: usize = 0;
    while reversed.len() > 0
        invariant
            i + reversed@.len() == all.len(),
            all.len() == n,
            all == rows@,
            forall|k: int| 0 <= k < reversed@.len() ==> reversed@[k] == all[all.len() - 1 - k],
            activities_of(all.subrange(0, i as int)) == Ok::<Seq<Activity>, ActivityConversionError>(out@),
        decreases reversed@.len(),
    {
        let row = reversed.pop().unwrap();
        assert(row == all[i as int]);
        assert(all.subrange(0, i + 1).drop_last() =~= all.subrange(0, i as int));
        assert(all.subrange(0, i + 1).last() == all[i as int]);
        match Activity::try_from(row) {
            Ok(a) => out.push(a),
            Err(e) => {
                proof {
                    assert(activities_of(all.subrange(0, i + 1)) == Err::<Seq<Activity>, ActivityConversionError>(e));
                    lemma_activities_of_error_prefix(all, (i + 1) as int);
                    assert(activities_of(all) == Err::<Seq<Activity>, ActivityConversionError>(e));
                }
                return Err(e);
            },
        }
        i = i + 1;
    }
    assert(all.subrange(0, all.len() as int) =~= all);
    Ok(out)
}

/// Once a prefix of the rows fails, the whole fails with the same error.
proof fn lemma_activities_of_error_prefix(rows: Seq<ActivityLog>, k: int)
    requires
        0 <= k <= rows.len(),
        activities_of(rows.subrange(0, k)) is Err,
    ensures
        activities_of(rows) == activities_of(rows.subrange(0, k)),
    decreases rows.len() - k,
{
    if k < rows.len() {
        assert(rows.subrange(0, k + 1).drop_last() =~= rows.subrange(0, k));
        lemma_activities_of_error_prefix(rows, k + 1);
    } else {
        assert(rows.subrange(0, k) =~= rows);
    }
}

} // verus!
