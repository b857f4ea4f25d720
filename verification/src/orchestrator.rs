//! The upload orchestration state machine.
//!
//! One user-triggered upload attempt passes through this machine once:
//! the trigger either ends the attempt at once (no file chosen) or
//! starts a location query; the location outcome either fails the
//! attempt or dispatches the upload request; the upload outcome either
//! fails the attempt or appends exactly one completed scan to the
//! registry. The machine never performs I/O itself: each step returns
//! the one directive the surrounding program must carry out, and the
//! outcome of that work comes back as the next event.
use vstd::prelude::*;
use vstd::string::StringExecFns;

use crate::request::{
    build_upload_request, spec_metadata_json, spec_object_name, UploadRequest, UploadRequestView,
};
use crate::scan::{Scan, ScanRegistry, ScanView};

verus! {

/// Why an attempt failed after it had begun.
#[derive(Clone, Copy, PartialEq, Eq, Structural)]
pub enum AttemptError {
    /// The location query failed: permission denied, unavailable, or
    /// timed out.
    LocationUnavailable,
    /// The storage call failed.
    UploadFailed,
}

/// Where one upload attempt stands. `Idle` is initial; a new trigger
/// starts a fresh attempt from any state.
pub enum UploadState {
    Idle,
    NoFileSelected,
    AwaitingLocation { file_name: String },
    Uploading { file_name: String, lat_micro: i64, lon_micro: i64 },
    Succeeded { scan: Scan },
    Failed { error: AttemptError },
}

/// The mathematical value of an `UploadState`.
pub enum UploadStateView {
    Idle,
    NoFileSelected,
    AwaitingLocation { file_name: Seq<char> },
    Uploading { file_name: Seq<char>, lat_micro: int, lon_micro: int },
    Succeeded { scan: ScanView },
    Failed { error: AttemptError },
}

impl View for UploadState {
    type V = UploadStateView;

    open spec fn view(&self) -> UploadStateView {
        match self {
            UploadState::Idle => UploadStateView::Idle,
            UploadState::NoFileSelected => UploadStateView::NoFileSelected,
            UploadState::AwaitingLocation { file_name } => UploadStateView::AwaitingLocation {
                file_name: file_name@,
            },
            UploadState::Uploading { file_name, lat_micro, lon_micro } => UploadStateView::Uploading {
                file_name: file_name@,
                lat_micro: *lat_micro as int,
                lon_micro: *lon_micro as int,
            },
            UploadState::Succeeded { scan } => UploadStateView::Succeeded { scan: scan@ },
            UploadState::Failed { error } => UploadStateView::Failed { error: *error },
        }
    }
}

/// One observed outcome handed to the machine.
pub enum UploadEvent {
    /// The user triggered an upload; the chosen file's name, or `None`
    /// when no file was chosen.
    Trigger { file_name: Option<String> },
    /// The location query came back: coordinates in micro-degrees, or
    /// `None` on a permission or availability failure.
    LocationOutcome { coords: Option<(i64, i64)> },
    /// The storage call came back: the object identifier the backend
    /// assigned, or `None` on failure.
    UploadOutcome { object_id: Option<String> },
}

/// The mathematical value of an `UploadEvent`.
pub enum UploadEventView {
    Trigger { file_name: Option<Seq<char>> },
    LocationOutcome { coords: Option<(int, int)> },
    UploadOutcome { object_id: Option<Seq<char>> },
}

impl View for UploadEvent {
    type V = UploadEventView;

    open spec fn view(&self) -> UploadEventView {
        match self {
            UploadEvent::Trigger { file_name } => UploadEventView::Trigger {
                file_name: match file_name {
                    Some(n) => Some(n@),
                    None => None,
                },
            },
            UploadEvent::LocationOutcome { coords } => UploadEventView::LocationOutcome {
                coords: match coords {
                    Some((lat, lon)) => Some((*lat as int, *lon as int)),
                    None => None,
                },
            },
            UploadEvent::UploadOutcome { object_id } => UploadEventView::UploadOutcome {
                object_id: match object_id {
                    Some(id) => Some(id@),
                    None => None,
                },
            },
        }
    }
}

/// What the surrounding program must do after a step. Only
/// `Dispatch` reaches the network, and only `AcquireLocation`
/// reaches the location service.
pub enum Directive {
    /// Nothing: the attempt is over, or the event did not belong to
    /// the current state.
    NoAction,
    /// Issue exactly one device location query and hand its outcome
    /// back as a `LocationOutcome` event.
    AcquireLocation,
    /// Send the request to the storage backend and hand its outcome
    /// back as an `UploadOutcome` event.
    Dispatch { request: UploadRequest },
}

/// The mathematical value of a `Directive`.
pub enum DirectiveView {
    NoAction,
    AcquireLocation,
    Dispatch { request: UploadRequestView },
}

impl View for Directive {
    type V = DirectiveView;

    open spec fn view(&self) -> DirectiveView {
        match self {
            Directive::NoAction => DirectiveView::NoAction,
            Directive::AcquireLocation => DirectiveView::AcquireLocation,
            Directive::Dispatch { request } => DirectiveView::Dispatch { request: request@ },
        }
    }
}

/// The orchestrator: the current attempt's state, the user-visible
/// status line, the shared scan registry it alone writes, and the
/// destination folder reference every upload carries.
pub struct Orchestrator {
    pub state: UploadState,
    pub status: String,
    pub registry: ScanRegistry,
    pub folder_id: String,
}

/// The mathematical value of an `Orchestrator`.
pub struct OrchestratorView {
    pub state: UploadStateView,
    pub status: Seq<char>,
    pub registry: Seq<ScanView>,
    pub folder_id: Seq<char>,
}

impl View for Orchestrator {
    type V = OrchestratorView;

    open spec fn view(&self) -> OrchestratorView {
        OrchestratorView {
            state: self.state@,
            status: self.status@,
            registry: self.registry@,
            folder_id: self.folder_id@,
        }
    }
}

/// One transition of the machine: from state `o`, event `e` observed
/// at timestamp `ts` (seconds since the epoch; it only matters for a
/// location success, where it enters the object name), to the next
/// state and the directive the surrounding program must carry out.
///
/// The machine is total: an outcome event that does not belong to the
/// current state changes nothing and directs nothing.
pub open spec fn spec_step(o: OrchestratorView, e: UploadEventView, ts: int) -> (
    OrchestratorView,
    DirectiveView,
) {
    match e {
        UploadEventView::Trigger { file_name } => match file_name {
            None => (
                OrchestratorView {
                    state: UploadStateView::NoFileSelected,
                    status: "Pick a file first!"@,
                    ..o
                },
                DirectiveView::NoAction,
            ),
            Some(name) => (
                OrchestratorView {
                    state: UploadStateView::AwaitingLocation { file_name: name },
                    status: "Uploading..."@,
                    ..o
                },
                DirectiveView::AcquireLocation,
            ),
        },
        UploadEventView::LocationOutcome { coords } => match o.state {
            UploadStateView::AwaitingLocation { file_name } => match coords {
                None => (
                    OrchestratorView {
                        state: UploadStateView::Failed {
                            error: AttemptError::LocationUnavailable,
                        },
                        status: "Enable location for geo-tagging"@,
                        ..o
                    },
                    DirectiveView::NoAction,
                ),
                Some((lat_micro, lon_micro)) => (
                    OrchestratorView {
                        state: UploadStateView::Uploading { file_name, lat_micro, lon_micro },
                        ..o
                    },
                    DirectiveView::Dispatch {
                        request: UploadRequestView {
                            object_name: spec_object_name(file_name, ts),
                            metadata_json: spec_metadata_json(
                                spec_object_name(file_name, ts),
                                o.folder_id,
                                lat_micro,
                                lon_micro,
                            ),
                        },
                    },
                ),
            },
            _ => (o, DirectiveView::NoAction),
        },
        UploadEventView::UploadOutcome { object_id } => match o.state {
            UploadStateView::Uploading { file_name, lat_micro, lon_micro } => match object_id {
                None => (
                    OrchestratorView {
                        state: UploadStateView::Failed { error: AttemptError::UploadFailed },
                        status: "Upload failed"@,
                        ..o
                    },
                    DirectiveView::NoAction,
                ),
                Some(id) => (
                    OrchestratorView {
                        state: UploadStateView::Succeeded {
                            scan: ScanView { id, name: file_name, lat_micro, lon_micro },
                        },
                        status: "Uploaded: "@ + file_name,
                        registry: o.registry.push(
                            ScanView { id, name: file_name, lat_micro, lon_micro },
                        ),
                        ..o
                    },
                    DirectiveView::NoAction,
                ),
            },
            _ => (o, DirectiveView::NoAction),
        },
    }
}

/// Law: a request is dispatched to the storage backend only when the
/// location query has just succeeded for a pending attempt. In
/// particular, a trigger without a file and a location failure never
/// produce a storage call.
pub proof fn lemma_dispatch_only_on_location_success(
    o: OrchestratorView,
    e: UploadEventView,
    ts: int,
)
    ensures
        spec_step(o, e, ts).1 is Dispatch ==> o.state is AwaitingLocation && (e matches
        UploadEventView::LocationOutcome { coords: Some(_) }),
{
}

/// Law: no step appends a partial entry. The registry is unchanged by
/// every step except the one that observes a successful storage call
/// for an attempt whose location query had already succeeded — that
/// step appends exactly the one completed scan, with the attempt's
/// file name and coordinates and the identifier the backend returned.
pub proof fn lemma_no_partial_entry(o: OrchestratorView, e: UploadEventView, ts: int)
    ensures
        ({
            let (o2, d) = spec_step(o, e, ts);
            o2.registry == o.registry || {
                &&& o.state is Uploading
                &&& e is UploadOutcome
                &&& e->object_id is Some
                &&& o2.registry == o.registry.push(
                    ScanView {
                        id: e->object_id->Some_0,
                        name: o.state->Uploading_file_name,
                        lat_micro: o.state->Uploading_lat_micro,
                        lon_micro: o.state->Uploading_lon_micro,
                    },
                )
            }
        }),
{
}

/// Law: the uploading state is entered only by a location success
/// for a pending attempt. Together with the previous law, a scan is
/// appended only when, within one attempt, the location query and
/// then the storage call both succeeded.
pub proof fn lemma_uploading_only_after_location_success(
    o: OrchestratorView,
    e: UploadEventView,
    ts: int,
)
    ensures
        ({
            let (o2, d) = spec_step(o, e, ts);
            o2.state is Uploading && !(o.state is Uploading) ==> o.state is AwaitingLocation && (
            e matches UploadEventView::LocationOutcome { coords: Some(_) })
        }),
{
}

/// Law: triggering an upload with no file selected ends the attempt
/// at once. Nothing is directed — neither the location service nor
/// the storage backend is reached — the registry is unchanged, and
/// the status tells the user to pick a file.
pub proof fn lemma_no_file_no_work(o: OrchestratorView, ts: int)
    ensures
        ({
            let (o2, d) = spec_step(o, UploadEventView::Trigger { file_name: None }, ts);
            &&& d is NoAction
            &&& o2.registry == o.registry
            &&& o2.state is NoFileSelected
            &&& o2.status == "Pick a file first!"@
        }),
{
}

/// Law: a location failure ends the attempt with a permission hint.
/// Nothing is directed — no upload request is ever sent — and the
/// registry is unchanged.
pub proof fn lemma_location_failure_ends_attempt(o: OrchestratorView, ts: int)
    requires
        o.state is AwaitingLocation,
    ensures
        ({
            let (o2, d) = spec_step(o, UploadEventView::LocationOutcome { coords: None }, ts);
            &&& d is NoAction
            &&& o2.registry == o.registry
            &&& o2.state == (UploadStateView::Failed { error: AttemptError::LocationUnavailable })
            &&& o2.status == "Enable location for geo-tagging"@
        }),
{
}

/// Law: a successful attempt — trigger with a file, location success,
/// storage success — appends exactly one scan to the registry, whose
/// name is the file's name, whose coordinates are the acquired ones,
/// and whose identifier is the one the backend returned; the status
/// becomes the success confirmation. Along the way the machine
/// directed exactly one location query and one upload request, whose
/// object name carries the capture timestamp.
pub proof fn lemma_successful_attempt(
    o: OrchestratorView,
    file_name: Seq<char>,
    lat_micro: int,
    lon_micro: int,
    id: Seq<char>,
    ts1: int,
    ts2: int,
    ts3: int,
)
    ensures
        ({
            let (o1, d1) = spec_step(
                o,
                UploadEventView::Trigger { file_name: Some(file_name) },
                ts1,
            );
            let (o2, d2) = spec_step(
                o1,
                UploadEventView::LocationOutcome { coords: Some((lat_micro, lon_micro)) },
                ts2,
            );
            let (o3, d3) = spec_step(
                o2,
                UploadEventView::UploadOutcome { object_id: Some(id) },
                ts3,
            );
            &&& d1 is AcquireLocation
            &&& (d2 matches DirectiveView::Dispatch { request } && request.object_name
                == spec_object_name(file_name, ts2) && request.metadata_json == spec_metadata_json(
                spec_object_name(file_name, ts2),
                o.folder_id,
                lat_micro,
                lon_micro,
            ))
            &&& d3 is NoAction
            &&& o3.registry == o.registry.push(
                ScanView { id, name: file_name, lat_micro, lon_micro },
            )
            &&& o3.registry.len() == o.registry.len() + 1
            &&& o3.state is Succeeded
            &&& o3.status == "Uploaded: "@ + file_name
        }),
{
}

/// Law: no failure is silent. Every step that ends an attempt
/// without success — no file chosen, location unavailable, storage
/// call failed — leaves a non-empty user-visible status.
pub proof fn lemma_no_silent_failure(o: OrchestratorView, e: UploadEventView, ts: int)
    ensures
        ({
            let (o2, d) = spec_step(o, e, ts);
            (o2.state is NoFileSelected && !(o.state is NoFileSelected)) || (o2.state is Failed
                && !(o.state is Failed)) ==> o2.status.len() > 0
        }),
{
    reveal_strlit("Pick a file first!");
    reveal_strlit("Enable location for geo-tagging");
    reveal_strlit("Upload failed");
}

/// Relies on `chrono::Utc::now` for the capture timestamp in seconds
/// since the epoch. The value depends on the machine's clock, so
/// nothing is promised of it; every caller holds for every value.
#[verifier::external_body]
fn now_timestamp() -> i64 {
    chrono::Utc::now().timestamp()
}

impl Orchestrator {
    /// A fresh orchestrator: idle, empty status line, empty registry.
    pub fn new(folder_id: String) -> (r: Self)
        ensures
            r@.state is Idle,
            r@.status == Seq::<char>::empty(),
            r@.registry == Seq::<ScanView>::empty(),
            r@.folder_id == folder_id@,
    {
        Orchestrator {
            state: UploadState::Idle,
            status: String::new(),
            registry: ScanRegistry::new(),
            folder_id,
        }
    }

    /// One step of the machine with the capture timestamp given
    /// explicitly: behaves exactly as `spec_step` says.
    pub fn step_at(&mut self, event: UploadEvent, timestamp: i64) -> (d: Directive)
        ensures
            final(self)@ == spec_step(old(self)@, event@, timestamp as int).0,
            d@ == spec_step(old(self)@, event@, timestamp as int).1,
    {
        match event {
            UploadEvent::Trigger { file_name } => match file_name {
                None => {
                    self.state = UploadState::NoFileSelected;
                    self.status = String::from_str("Pick a file first!");
                    Directive::NoAction
                },
                Some(name) => {
                    self.state = UploadState::AwaitingLocation { file_name: name };
                    self.status = String::from_str("Uploading...");
                    Directive::AcquireLocation
                },
            },
            UploadEvent::LocationOutcome { coords } => {
                let file_name = match &self.state {
                    UploadState::AwaitingLocation { file_name } => Some(file_name.clone()),
                    _ => None,
                };
                match file_name {
                    Some(name) => match coords {
                        None => {
                            self.state = UploadState::Failed {
                                error: AttemptError::LocationUnavailable,
                            };
                            self.status = String::from_str("Enable location for geo-tagging");
                            Directive::NoAction
                        },
                        Some((lat_micro, lon_micro)) => {
                            let request = build_upload_request(
                                name.as_str(),
                                timestamp,
                                self.folder_id.as_str(),
                                lat_micro,
                                lon_micro,
                            );
                            self.state = UploadState::Uploading {
                                file_name: name,
                                lat_micro,
                                lon_micro,
                            };
                            Directive::Dispatch { request }
                        },
                    },
                    None => Directive::NoAction,
                }
            },
            UploadEvent::UploadOutcome { object_id } => {
                let current = match &self.state {
                    UploadState::Uploading { file_name, lat_micro, lon_micro } => Some(
                        (file_name.clone(), *lat_micro, *lon_micro),
                    ),
                    _ => None,
                };
                match current {
                    Some((name, lat_micro, lon_micro)) => match object_id {
                        None => {
                            self.state = UploadState::Failed { error: AttemptError::UploadFailed };
                            self.status = String::from_str("Upload failed");
                            Directive::NoAction
                        },
                        Some(id) => {
                            let scan = Scan {
                                id,
                                name: name.clone(),
                                lat_micro,
                                lon_micro,
                            };
                            let mut status = String::from_str("Uploaded: ");
                            status.append(name.as_str());
                            self.status = status;
                            self.registry.append(scan.clone());
                            self.state = UploadState::Succeeded { scan };
                            Directive::NoAction
                        },
                    },
                    None => Directive::NoAction,
                }
            },
        }
    }

    /// One step of the machine, taking the capture timestamp from the
    /// clock: behaves as `spec_step` for the timestamp that the clock
    /// returned.
    pub fn step(&mut self, event: UploadEvent) -> (d: Directive)
        ensures
            exists|ts: int|
                #![trigger spec_step(old(self)@, event@, ts)]
                final(self)@ == spec_step(old(self)@, event@, ts).0 && d@ == spec_step(
                    old(self)@,
                    event@,
                    ts,
                ).1,
    {
        let timestamp = now_timestamp();
        let d = self.step_at(event, timestamp);
        proof {
            assert(final(self)@ == spec_step(old(self)@, event@, timestamp as int).0 && d@
                == spec_step(old(self)@, event@, timestamp as int).1);
        }
        d
    }
}

} // verus!
