//! The identifier resolver: the one place a user-supplied room reference is
//! turned into a canonical room identifier. A raw identifier passes through
//! unchanged and needs no lookup; an alias demands exactly one server-side
//! lookup, with the exact alias string including its server-name suffix;
//! anything else is rejected before any network traffic.

use vstd::prelude::*;

use crate::errors::CliError;
use crate::ident::{is_well_formed_ref, valid_alias, valid_room_id};

verus! {

/// What resolution asks of the caller next: the identifier itself when the
/// reference already is one, a single alias lookup, or nothing because the
/// reference is malformed.
pub enum ResolveStep {
    Resolved { room_id: String },
    Lookup { alias: String },
    Rejected,
}

/// How an alias lookup can end on the resolver's side.
pub enum ResolveFailure {
    Malformed,
    NotFound,
}

/// The whole resolution outcome, as a function of the token and of the
/// server's answer to the (at most one) alias lookup. A raw identifier and a
/// malformed token never depend on the answer: no lookup is issued for them.
pub open spec fn resolve_model(
    token: Seq<char>,
    answer: Option<Seq<char>>,
) -> Result<Seq<char>, ResolveFailure> {
    if valid_room_id(token) {
        Ok(token)
    } else if valid_alias(token) {
        match answer {
            Some(id) => Ok(id),
            None => Err(ResolveFailure::NotFound),
        }
    } else {
        Err(ResolveFailure::Malformed)
    }
}

/// Classifies the token. A raw room identifier is returned unchanged and
/// resolution is complete; an alias is handed back for one lookup, as the
/// exact string that was given; any other token is rejected.
pub fn resolve_start(token: &str) -> (r: ResolveStep)
    ensures
        valid_room_id(token@) ==> (r matches ResolveStep::Resolved { room_id } && room_id@
            == token@),
        !valid_room_id(token@) && valid_alias(token@) ==> (r matches ResolveStep::Lookup { alias }
            && alias@ == token@),
        !valid_room_id(token@) && !valid_alias(token@) ==> r is Rejected,
{
    if is_well_formed_ref(token, '!') {
        ResolveStep::Resolved { room_id: String::from_str(token) }
    } else if is_well_formed_ref(token, '#') {
        ResolveStep::Lookup { alias: String::from_str(token) }
    } else {
        ResolveStep::Rejected
    }
}

/// Turns the server's answer to the alias lookup into the resolution result:
/// the canonical identifier the server reported, or `AliasNotFound` naming
/// the alias when the server reports no mapping.
pub fn resolve_finish(alias: &str, answer: Option<String>) -> (r: Result<String, CliError>)
    ensures
        answer matches Some(id) ==> (r matches Ok(out) && out@ == id@),
        answer is None ==> (r matches Err(e) && e matches CliError::AliasNotFound { alias: a }
            && a@ == alias@),
{
    match answer {
        Some(id) => Ok(id),
        None => Err(CliError::AliasNotFound { alias: String::from_str(alias) }),
    }
}

/// A valid raw room identifier resolves to itself, whatever any lookup would
/// have answered: resolution of a raw identifier consults no server.
pub proof fn lemma_raw_id_resolves_unchanged(token: Seq<char>, answer: Option<Seq<char>>)
    requires
        valid_room_id(token),
    ensures
        resolve_model(token, answer) == Ok::<_, ResolveFailure>(token),
{
}

/// An alias resolves to exactly what the one lookup reports: the canonical
/// identifier on a mapping, `NotFound` when the server reports none.
pub proof fn lemma_alias_resolution(token: Seq<char>, answer: Option<Seq<char>>)
    requires
        valid_alias(token),
    ensures
        answer matches Some(id) ==> resolve_model(token, answer) == Ok::<_, ResolveFailure>(id),
        answer is None ==> resolve_model(token, answer) == Err::<Seq<char>, _>(
            ResolveFailure::NotFound,
        ),
{
    assert(!valid_room_id(token));
}

/// A token with neither recognized sigil is rejected as malformed, whatever
/// any lookup would have answered: no network call is made for it.
pub proof fn lemma_malformed_is_rejected(token: Seq<char>, answer: Option<Seq<char>>)
    requires
        !valid_room_id(token),
        !valid_alias(token),
    ensures
        resolve_model(token, answer) == Err::<Seq<char>, _>(ResolveFailure::Malformed),
{
}

} // verus!
