//! The dual-backend coordinator at its call sites for aliases and file
//! records. Each operation is given the outcome of its attempt on the primary
//! backend; what the primary backend did not answer is done on the in-process
//! backend. Nothing is ever written to both, and nothing is carried back to
//! the primary backend later.

use crate::health::{primary_answer, HealthIndicator, PrimaryOutcome, Route};
use crate::identifier::{parse_uuid, uuid_parse};
use crate::record::{FileData, FileRecord};
use crate::storage::{records_wf, FileStorage, ShortUrlStorage};
use vstd::prelude::*;
use vstd::string::*;

verus! {

/// The aliases of the in-process backend after an alias is written with the
/// given outcome on the primary backend.
pub open spec fn aliases_after_store(
    aliases: Map<Seq<char>, u128>,
    short_code: Seq<char>,
    id: u128,
    outcome: PrimaryOutcome<()>,
) -> Map<Seq<char>, u128> {
    if primary_answer(outcome) is Some {
        aliases
    } else {
        aliases.insert(short_code, id)
    }
}

/// Writes the alias `short_code` for `id`. If the primary backend took the
/// write, the in-process backend is left alone; otherwise the alias is
/// written there, over any mapping that the code had. Says which backend
/// holds the alias.
pub fn store_short_url(
    health: &mut HealthIndicator,
    aliases: &mut ShortUrlStorage,
    short_code: &str,
    id: u128,
    outcome: PrimaryOutcome<()>,
) -> (holder: Route)
    ensures
        final(health)@ == old(health)@.after_outcome(outcome),
        final(health)@.wf(),
        final(aliases)@ == aliases_after_store(old(aliases)@, short_code@, id, outcome),
        holder is Primary <==> primary_answer(outcome) is Some,
{
    match health.settle(outcome) {
        Some(_) => Route::Primary,
        None => {
            aliases.insert(String::from_str(short_code), id);
            Route::Fallback
        },
    }
}

/// The identifier that the in-process backend holds for an alias.
pub open spec fn alias_target(aliases: Map<Seq<char>, u128>, short_code: Seq<char>) -> Option<
    u128,
> {
    if aliases.contains_key(short_code) {
        Some(aliases[short_code])
    } else {
        None
    }
}

/// The identifier that an alias resolves to: the answer of the primary
/// backend if it found one, else what the in-process backend holds.
pub open spec fn resolved_alias(
    aliases: Map<Seq<char>, u128>,
    short_code: Seq<char>,
    outcome: PrimaryOutcome<Option<u128>>,
) -> Option<u128> {
    match outcome {
        PrimaryOutcome::Succeeded(Some(id)) => Some(id),
        _ => alias_target(aliases, short_code),
    }
}

/// Resolves an alias. `outcome` is what came of looking the alias up on the
/// primary backend.
pub fn resolve_short_code(
    health: &mut HealthIndicator,
    aliases: &ShortUrlStorage,
    short_code: &str,
    outcome: PrimaryOutcome<Option<u128>>,
) -> (id: Option<u128>)
    ensures
        final(health)@ == old(health)@.after_outcome(outcome),
        final(health)@.wf(),
        id == resolved_alias(aliases@, short_code@, outcome),
{
    match health.settle(outcome) {
        Some(Some(id)) => Some(id),
        _ => aliases.get(short_code),
    }
}

/// What an input resolves to: itself if it reads as an identifier, else what
/// it resolves to as an alias.
pub open spec fn resolved(
    aliases: Map<Seq<char>, u128>,
    input: Seq<char>,
    outcome: PrimaryOutcome<Option<u128>>,
) -> Option<u128> {
    match uuid_parse(input) {
        Some(id) => Some(id),
        None => resolved_alias(aliases, input, outcome),
    }
}

/// Resolves what a client sent, an identifier or an alias, to an identifier.
/// An input that reads as an identifier is taken as one, and then `outcome`
/// is not looked at: no backend is asked. Any other input is resolved as an
/// alias. `None` means that the input resolves to nothing.
pub fn resolve_id_or_short_code_db(
    input: &str,
    health: &mut HealthIndicator,
    aliases: &ShortUrlStorage,
    outcome: PrimaryOutcome<Option<u128>>,
) -> (id: Option<u128>)
    ensures
        id == resolved(aliases@, input@, outcome),
        final(health)@ == if uuid_parse(input@) is Some {
            old(health)@
        } else {
            old(health)@.after_outcome(outcome)
        },
        final(health)@.wf(),
{
    match parse_uuid(input) {
        Some(id) => {
            proof {
                use_type_invariant(&*health);
                health.lemma_inv();
            }
            Some(id)
        },
        None => resolve_short_code(health, aliases, input, outcome),
    }
}

/// The records of the in-process backend after a record is written with the
/// given outcome on the primary backend. The in-process backend is also the
/// memory tier: a record whose payload is in memory is kept there whichever
/// backend took the metadata, since the payload lives nowhere else.
pub open spec fn records_after_store(
    records: Map<u128, FileRecord>,
    id: u128,
    record: FileRecord,
    outcome: PrimaryOutcome<()>,
) -> Map<u128, FileRecord> {
    if primary_answer(outcome) is Some && record.data is None {
        records
    } else {
        records.insert(id, record)
    }
}

/// Writes the record of a file. Says which backend holds the metadata.
pub fn store_file_mapping(
    health: &mut HealthIndicator,
    files: &mut FileStorage,
    id: u128,
    record: FileData,
    outcome: PrimaryOutcome<()>,
) -> (holder: Route)
    requires
        old(files).wf(),
    ensures
        final(files).wf(),
        records_wf(final(files)@),
        final(health)@ == old(health)@.after_outcome(outcome),
        final(health)@.wf(),
        final(files)@ == records_after_store(old(files)@, id, record@, outcome),
        holder is Primary <==> primary_answer(outcome) is Some,
{
    proof {
        files.lemma_records_wf();
    }
    match health.settle(outcome) {
        Some(_) => {
            if record.is_in_memory() {
                files.insert(id, record);
            }
            Route::Primary
        },
        None => {
            files.insert(id, record);
            Route::Fallback
        },
    }
}

/// An alias written while the primary backend fails is found again in the
/// same run: the write lands in the in-process backend, and every later
/// lookup that the primary backend does not answer finds it there.
pub proof fn lemma_alias_survives_outage(
    aliases: Map<Seq<char>, u128>,
    short_code: Seq<char>,
    id: u128,
    lookup: PrimaryOutcome<Option<u128>>,
)
    requires
        !(lookup matches PrimaryOutcome::Succeeded(Some(_))),
    ensures
        resolved_alias(
            aliases_after_store(aliases, short_code, id, PrimaryOutcome::Failed),
            short_code,
            lookup,
        ) == Some(id),
        resolved_alias(
            aliases_after_store(aliases, short_code, id, PrimaryOutcome::Skipped),
            short_code,
            lookup,
        ) == Some(id),
{
}

} // verus!
