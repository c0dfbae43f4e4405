//! Resolution of the edition to operate on.
//!
//! The command line supplies an optional event handle and an optional
//! edition number. `resolve_plan` decides, without any network call, what
//! to do with them; `select_latest` reduces a queried edition list to the
//! edition with the maximum id.

use vstd::prelude::*;

use crate::error::FetchError;
use crate::model::SimpleEventEdition;

verus! {

/// The handle used when the command line names no event: the default
/// collection of the service.
pub open spec fn default_handle() -> Seq<char> {
    "campaign"@
}

/// The default event handle as an owned string.
pub fn default_event_handle() -> (r: String)
    ensures
        r@ == default_handle(),
{
    "campaign".to_owned()
}

/// What the resolver decided to do: use the supplied pair directly, or
/// query the handle's editions and take the latest.
pub enum ResolvePlan {
    Direct { handle: String, edition: u32 },
    QueryLatest { handle: String },
}

/// Decides how to resolve the edition from the command-line arguments.
///
/// Both supplied: use them unchanged, no query. Handle alone: query that
/// handle's editions for the latest. Neither: query the default handle's
/// editions. An edition without a handle is the one invalid combination:
/// edition numbers are not meaningful without an event, so this fails with
/// the usage error, whatever the edition's value.
pub fn resolve_plan(event_handle: Option<String>, event_edition: Option<u32>) -> (r: Result<
    ResolvePlan,
    FetchError,
>)
    ensures
        r is Err <==> (event_handle is None && event_edition is Some),
        r is Err ==> r matches Err(FetchError::Usage),
        (event_handle is Some && event_edition is Some) ==> (r matches Ok(
            ResolvePlan::Direct { handle, edition },
        ) && handle == event_handle->0 && edition == event_edition->0),
        (event_handle is Some && event_edition is None) ==> (r matches Ok(
            ResolvePlan::QueryLatest { handle },
        ) && handle == event_handle->0),
        (event_handle is None && event_edition is None) ==> (r matches Ok(
            ResolvePlan::QueryLatest { handle },
        ) && handle@ == default_handle()),
{
    match (event_handle, event_edition) {
        (Some(handle), Some(edition)) => Ok(ResolvePlan::Direct { handle, edition }),
        (Some(handle), None) => Ok(ResolvePlan::QueryLatest { handle }),
        (None, Some(_)) => Err(FetchError::Usage),
        (None, None) => Ok(ResolvePlan::QueryLatest { handle: default_event_handle() }),
    }
}

/// Selects the latest edition from a queried edition list: the entry with
/// the maximum id, and among entries of equal maximum id the last one.
///
/// An event must have at least one edition, so an empty list fails with the
/// empty-result error, and that is the only failure.
pub fn select_latest(editions: Vec<SimpleEventEdition>) -> (r: Result<
    SimpleEventEdition,
    FetchError,
>)
    ensures
        r is Err <==> editions@.len() == 0,
        r is Err ==> r matches Err(FetchError::EmptyResult),
        r matches Ok(best) ==> exists|i: int|
            0 <= i < editions@.len() && best == editions@[i] && (forall|j: int|
                0 <= j < editions@.len() ==> editions@[j].id <= editions@[i].id) && (forall|j: int|
                i < j < editions@.len() ==> editions@[j].id < editions@[i].id),
{
    if editions.len() == 0 {
        return Err(FetchError::EmptyResult);
    }
    let ghost orig: Seq<SimpleEventEdition> = editions@;
    let mut v = editions;
    let mut best: usize = 0;
    let mut k: usize = 1;
    while k < v.len()
        invariant
            v@ == orig,
            1 <= k <= orig.len(),
            0 <= best < k,
            forall|j: int| 0 <= j < k ==> orig[j].id <= orig[best as int].id,
            forall|j: int| best < j < k ==> orig[j].id < orig[best as int].id,
        decreases orig.len() - k,
    {
        if v[k].id >= v[best].id {
            best = k;
        }
        k = k + 1;
    }
    let chosen = v.remove(best);
    proof {
        assert(chosen == orig[best as int]);
    }
    Ok(chosen)
}

} // verus!
