//! Zero-or-one resolution of a singleton query.
//!
//! A singleton query is one that, by convention, matches exactly one entity or
//! none at all: a player, a camera. Bevy reports the outcome of such a lookup
//! (`Query::get_single`, `Query::get_single_mut`) as a
//! `Result<Item, QuerySingleError>`. This module turns that outcome into an
//! `Option<Item>`, in which the absence of the entity is an ordinary value.
//!
//! Several matches are a defect of the caller's world. They are never resolved
//! by picking one of the matches and never reported as `None`:
//! [`optional_single`] and [`optional_single_mut`] exclude them by their
//! precondition, and [`try_optional_single`] and [`try_optional_single_mut`]
//! hand the error back for the caller to fail on.

use bevy::ecs::query::QuerySingleError;
use vstd::prelude::*;

verus! {

/// Bevy's error for a singleton lookup whose number of matches is not one.
#[verifier::external_type_specification]
#[verifier::external_body]
pub struct ExQuerySingleError(QuerySingleError);

/// Why a singleton lookup produced no item.
#[derive(Clone, Copy, Debug, PartialEq, Eq, Structural)]
pub enum Mismatch {
    /// Nothing matched the query.
    NoEntities,
    /// More than one entity matched the query.
    MultipleEntities,
}

/// The variant of a `QuerySingleError`, as a value of this crate.
pub uninterp spec fn mismatch_of(error: QuerySingleError) -> Mismatch;

/// Reads the variant of a `QuerySingleError`.
///
/// Trusted: the result is `mismatch_of(*error)`, that is `NoEntities` for
/// `QuerySingleError::NoEntities` and `MultipleEntities` for
/// `QuerySingleError::MultipleEntities`. The query name that either variant
/// carries is not looked at.
#[verifier::external_body]
fn mismatch(error: &QuerySingleError) -> (kind: Mismatch)
    ensures
        kind == mismatch_of(*error),
{
    match error {
        QuerySingleError::NoEntities(_) => Mismatch::NoEntities,
        QuerySingleError::MultipleEntities(_) => Mismatch::MultipleEntities,
    }
}

/// Whether `found` reports that more than one entity matched.
pub open spec fn is_multiple<T>(found: Result<T, QuerySingleError>) -> bool {
    found matches Err(error) && mismatch_of(error) == Mismatch::MultipleEntities
}

/// What the outcome of a singleton lookup resolves to: the one match, nothing,
/// or the error that reports several matches.
pub open spec fn resolution<T>(found: Result<T, QuerySingleError>) -> Result<
    Option<T>,
    QuerySingleError,
> {
    match found {
        Ok(single) => Ok(Some(single)),
        Err(error) => match mismatch_of(error) {
            Mismatch::NoEntities => Ok(None),
            Mismatch::MultipleEntities => Err(error),
        },
    }
}

/// Resolves the outcome of a shared (read-only) singleton lookup.
///
/// One match gives `Some` of that match, no match gives `None`. The outcome
/// must not report several matches.
pub fn optional_single<T>(found: Result<T, QuerySingleError>) -> (item: Option<T>)
    requires
        !is_multiple(found),
    ensures
        match found {
            Ok(single) => item == Some(single),
            Err(_) => item is None,
        },
{
    match found {
        Ok(single) => Some(single),
        Err(_) => None,
    }
}

/// Resolves the outcome of an exclusive (mutable) singleton lookup.
///
/// The rule is that of [`optional_single`]; the item is the exclusive handle
/// that the lookup gave out, and it is passed on untouched.
pub fn optional_single_mut<T>(found: Result<T, QuerySingleError>) -> (item: Option<T>)
    requires
        !is_multiple(found),
    ensures
        match found {
            Ok(single) => item == Some(single),
            Err(_) => item is None,
        },
{
    optional_single(found)
}

/// Resolves the outcome of a shared singleton lookup, whatever it reports.
///
/// One match gives `Ok(Some(..))` of that match and no match gives `Ok(None)`.
/// Several matches give back the error itself, for the caller to fail on.
pub fn try_optional_single<T>(found: Result<T, QuerySingleError>) -> (outcome: Result<
    Option<T>,
    QuerySingleError,
>)
    ensures
        outcome == resolution(found),
{
    match found {
        Err(error) if mismatch(&error) == Mismatch::MultipleEntities => Err(error),
        found => Ok(optional_single(found)),
    }
}

/// Resolves the outcome of an exclusive singleton lookup, whatever it reports.
///
/// The rule is that of [`try_optional_single`]; the exclusive handle is passed
/// on untouched.
pub fn try_optional_single_mut<T>(found: Result<T, QuerySingleError>) -> (outcome: Result<
    Option<T>,
    QuerySingleError,
>)
    ensures
        outcome == resolution(found),
{
    match found {
        Err(error) if mismatch(&error) == Mismatch::MultipleEntities => Err(error),
        found => Ok(optional_single_mut(found)),
    }
}

/// A lookup that matched nothing resolves to `None`, and is one that
/// [`optional_single`] and [`optional_single_mut`] accept.
pub proof fn lemma_no_match_resolves_to_none<T>(found: Result<T, QuerySingleError>)
    requires
        found matches Err(error) && mismatch_of(error) == Mismatch::NoEntities,
    ensures
        !is_multiple(found),
        resolution(found) == Ok::<Option<T>, QuerySingleError>(None),
{
}

/// A lookup that matched one entity resolves to `Some` of that match, and is
/// one that [`optional_single`] and [`optional_single_mut`] accept.
pub proof fn lemma_one_match_resolves_to_it<T>(single: T)
    ensures
        !is_multiple(Ok::<T, QuerySingleError>(single)),
        resolution(Ok::<T, QuerySingleError>(single)) == Ok::<Option<T>, QuerySingleError>(
            Some(single),
        ),
{
}

/// A lookup that matched several entities resolves to no value, neither to
/// `None` nor to one of the matches: only the error that reports them is left.
pub proof fn lemma_several_matches_resolve_to_the_error<T>(found: Result<T, QuerySingleError>)
    requires
        is_multiple(found),
    ensures
        resolution(found) == Err::<Option<T>, QuerySingleError>(found->Err_0),
{
}

} // verus!
