//! The download path: from an identifier to what is served.

use crate::coordinator::{records_after_store, resolved};
use crate::health::{primary_answer, HealthIndicator, IndicatorState, PrimaryOutcome};
use crate::identifier::uuid_parse;
use crate::record::{FileMapping, FileRecord};
use crate::storage::FileStorage;
use vstd::prelude::*;
use vstd::string::*;

verus! {

/// Mathematical model of a download plan.
pub enum PlanView {
    ServeMemory { content_type: Seq<char>, disposition: Seq<char>, data: Seq<u8> },
    StreamDisk { content_type: Seq<char>, disposition: Seq<char>, path: Seq<char> },
    NotFound,
}

/// What is done for one download.
#[derive(Debug)]
pub enum DownloadPlan {
    /// Send these bytes.
    ServeMemory { content_type: String, disposition: String, data: Vec<u8> },
    /// Stream the file at this path.
    StreamDisk { content_type: String, disposition: String, path: String },
    /// No file is stored under the identifier.
    NotFound,
}

impl View for DownloadPlan {
    type V = PlanView;

    open spec fn view(&self) -> PlanView {
        match *self {
            DownloadPlan::ServeMemory { content_type, disposition, data } => PlanView::ServeMemory {
                content_type: content_type@,
                disposition: disposition@,
                data: data@,
            },
            DownloadPlan::StreamDisk { content_type, disposition, path } => PlanView::StreamDisk {
                content_type: content_type@,
                disposition: disposition@,
                path: path@,
            },
            DownloadPlan::NotFound => PlanView::NotFound,
        }
    }
}

/// The value of the content-disposition header for a stored filename.
pub open spec fn disposition_of(filename: Seq<char>) -> Seq<char> {
    "attachment; filename=\""@ + filename + "\""@
}

/// The plan that the in-process backend gives for an identifier.
pub open spec fn fallback_plan(records: Map<u128, FileRecord>, id: u128) -> PlanView {
    if records.contains_key(id) {
        let record = records[id];
        match record.data {
            Some(data) => PlanView::ServeMemory {
                content_type: record.content_type,
                disposition: disposition_of(record.filename),
                data,
            },
            None => match record.file_path {
                Some(path) => PlanView::StreamDisk {
                    content_type: record.content_type,
                    disposition: disposition_of(record.filename),
                    path,
                },
                None => PlanView::NotFound,
            },
        }
    } else {
        PlanView::NotFound
    }
}

/// The plan for an identifier. With metadata from the primary backend, a
/// payload in the memory tier is served from there, else the file at the
/// recorded path is streamed. Where the primary backend gave no metadata, or
/// metadata that leads to no payload, the in-process backend decides.
pub open spec fn download_plan(
    records: Map<u128, FileRecord>,
    id: u128,
    answer: Option<Option<FileMapping>>,
) -> PlanView {
    match answer {
        Some(Some(mapping)) => {
            if mapping.is_in_memory && records.contains_key(id) && records[id].data is Some {
                PlanView::ServeMemory {
                    content_type: mapping.content_type@,
                    disposition: disposition_of(mapping.filename@),
                    data: records[id].data->0,
                }
            } else if mapping.file_path is Some {
                PlanView::StreamDisk {
                    content_type: mapping.content_type@,
                    disposition: disposition_of(mapping.filename@),
                    path: mapping.file_path->0@,
                }
            } else {
                fallback_plan(records, id)
            }
        },
        _ => fallback_plan(records, id),
    }
}

/// Writes the content-disposition header for a stored filename.
pub fn content_disposition(filename: &str) -> (value: String)
    ensures
        value@ == disposition_of(filename@),
{
    let mut value = String::from_str("attachment; filename=\"");
    value.append(filename);
    value.append("\"");
    value
}

fn copy_bytes(data: &Vec<u8>) -> (copy: Vec<u8>)
    ensures
        copy@ == data@,
{
    let copy = data.clone();
    assert(copy@ =~= data@);
    copy
}

fn plan_from_fallback(files: &FileStorage, id: u128) -> (plan: DownloadPlan)
    ensures
        plan@ == fallback_plan(files@, id),
{
    match files.get(id) {
        Some(record) => {
            let content_type = String::from_str(record.content_type());
            let disposition = content_disposition(record.filename());
            match record.data() {
                Some(data) => DownloadPlan::ServeMemory {
                    content_type,
                    disposition,
                    data: copy_bytes(data),
                },
                None => match record.file_path() {
                    Some(path) => DownloadPlan::StreamDisk {
                        content_type,
                        disposition,
                        path: String::from_str(path),
                    },
                    None => DownloadPlan::NotFound,
                },
            }
        },
        None => DownloadPlan::NotFound,
    }
}

/// Plans the download of the file stored under `id`. `outcome` is what came
/// of asking the primary backend for the metadata of the file.
pub fn plan_download(
    health: &mut HealthIndicator,
    files: &FileStorage,
    id: u128,
    outcome: PrimaryOutcome<Option<FileMapping>>,
) -> (plan: DownloadPlan)
    ensures
        final(health)@ == old(health)@.after_outcome(outcome),
        final(health)@.wf(),
        plan@ == download_plan(files@, id, primary_answer(outcome)),
{
    match health.settle(outcome) {
        Some(Some(mapping)) => {
            if mapping.is_in_memory {
                if let Some(record) = files.get(id) {
                    if let Some(data) = record.data() {
                        return DownloadPlan::ServeMemory {
                            content_type: mapping.content_type,
                            disposition: content_disposition(mapping.filename.as_str()),
                            data: copy_bytes(data),
                        };
                    }
                }
            }
            match mapping.file_path {
                Some(path) => DownloadPlan::StreamDisk {
                    content_type: mapping.content_type,
                    disposition: content_disposition(mapping.filename.as_str()),
                    path,
                },
                None => plan_from_fallback(files, id),
            }
        },
        _ => plan_from_fallback(files, id),
    }
}

/// What serving a record looks like: its payload from memory, or the file at
/// its path.
pub open spec fn plan_of(record: FileRecord) -> PlanView {
    match record.data {
        Some(data) => PlanView::ServeMemory {
            content_type: record.content_type,
            disposition: disposition_of(record.filename),
            data,
        },
        None => PlanView::StreamDisk {
            content_type: record.content_type,
            disposition: disposition_of(record.filename),
            path: record.file_path->0,
        },
    }
}

/// A text that reads as an identifier resolves to that identifier, whatever
/// the backends hold: a download by the identifier of the upload response
/// looks for the uploaded file.
pub proof fn lemma_identifier_resolves(
    aliases: Map<Seq<char>, u128>,
    text: Seq<char>,
    id: u128,
    outcome: PrimaryOutcome<Option<u128>>,
)
    requires
        uuid_parse(text) == Some(id),
    ensures
        resolved(aliases, text, outcome) == Some(id),
{
}

/// Round trip through the in-process backend. A record that was written
/// there is served as it was written, with the same payload or path and the
/// same content type, by every download that gets no metadata from the
/// primary backend.
pub proof fn lemma_round_trip(
    records: Map<u128, FileRecord>,
    id: u128,
    record: FileRecord,
    stored: PrimaryOutcome<()>,
    asked: PrimaryOutcome<Option<FileMapping>>,
)
    requires
        record.wf(),
        primary_answer(stored) is None || record.data is Some,
        !(primary_answer(asked) matches Some(Some(_))),
    ensures
        download_plan(records_after_store(records, id, record, stored), id, primary_answer(asked))
            == plan_of(record),
{
}

/// Round trip of the memory tier with the metadata on the primary backend.
/// Whichever backend took the metadata of a file whose payload is in memory,
/// a download that gets metadata from the primary backend saying so serves
/// exactly the payload that was uploaded.
pub proof fn lemma_memory_payload_is_served(
    records: Map<u128, FileRecord>,
    id: u128,
    record: FileRecord,
    stored: PrimaryOutcome<()>,
    mapping: FileMapping,
)
    requires
        record.data is Some,
        mapping.is_in_memory,
    ensures
        download_plan(records_after_store(records, id, record, stored), id, Some(Some(mapping)))
            == (PlanView::ServeMemory {
            content_type: mapping.content_type@,
            disposition: disposition_of(mapping.filename@),
            data: record.data->0,
        }),
{
}

/// An upload made while the primary backend fails is served in the same run.
/// The failed write degrades the indicator and lands in the in-process
/// backend; the download that follows is routed to the in-process backend
/// and serves the record as it was written.
pub proof fn lemma_upload_survives_outage(
    state: IndicatorState,
    records: Map<u128, FileRecord>,
    id: u128,
    record: FileRecord,
)
    requires
        record.wf(),
    ensures
        state.after_outcome(PrimaryOutcome::<()>::Failed).route() is Fallback,
        download_plan(
            records_after_store(records, id, record, PrimaryOutcome::Failed),
            id,
            primary_answer(PrimaryOutcome::<Option<FileMapping>>::Skipped),
        ) == plan_of(record),
{
}

} // verus!
