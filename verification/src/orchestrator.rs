//! Taking in the announcements of jobs.
//!
//! Each announcement is looked at once. One whose metadata could be decoded
//! gets a verification run of its own; one whose metadata could not is
//! dropped, and nothing is recorded of it. Runs share nothing: what happens
//! to one is of no consequence to another.

use crate::policy::VerifierConfig;
use crate::workflow::{ReachabilityVerifier, VerifierState};
use crate::text::{job_id_text, render_job_id};
use crate::types::{JobDescriptor, JobModel, JobOpened, JobOpenedModel, Metadata, MetadataModel};
use vstd::prelude::*;

verus! {

/// What became of an announcement.
#[derive(Debug)]
pub enum Intake {
    /// A run was launched for the job.
    Launched(ReachabilityVerifier),
    /// The metadata could not be decoded and the job was dropped. What is
    /// kept is for the log: the job's identifier and the metadata as it came.
    Abandoned { job_id: String, metadata: String },
}

/// The mathematical content of an [`Intake`].
pub ghost enum IntakeModel {
    Launched(VerifierState),
    Abandoned { job_id: Seq<char>, metadata: Seq<char> },
}

impl View for Intake {
    type V = IntakeModel;

    open spec fn view(&self) -> IntakeModel {
        match self {
            Intake::Launched(run) => IntakeModel::Launched(run@),
            Intake::Abandoned { job_id, metadata } => IntakeModel::Abandoned {
                job_id: job_id@,
                metadata: metadata@,
            },
        }
    }
}

/// The mathematical content of metadata that may have failed to decode.
pub open spec fn decoded_model(decoded: Option<Metadata>) -> Option<MetadataModel> {
    match decoded {
        Some(metadata) => Some(metadata@),
        None => None,
    }
}

/// What becomes of an announcement: a fresh run where the metadata was
/// decoded, and nothing but a note where it was not.
pub open spec fn intake(
    event: JobOpenedModel,
    control_plane_url: Seq<char>,
    decoded: Option<MetadataModel>,
    config: VerifierConfig,
) -> IntakeModel {
    match decoded {
        Some(metadata) => IntakeModel::Launched(
            VerifierState::start(JobModel::of(event, control_plane_url, metadata), config),
        ),
        None => IntakeModel::Abandoned {
            job_id: job_id_text(event.job),
            metadata: event.metadata,
        },
    }
}

/// Takes in the announcement of a job. `control_plane_url` is the base
/// address of the control plane of the job's operator, and `decoded` is the
/// announcement's metadata, `None` where it could not be decoded.
///
/// A run is launched if and only if the metadata was decoded.
pub fn on_job_opened(
    event: JobOpened,
    control_plane_url: String,
    decoded: Option<Metadata>,
    config: VerifierConfig,
) -> (result: Intake)
    ensures
        result@ == intake(event@, control_plane_url@, decoded_model(decoded), config),
        result is Launched <==> decoded is Some,
        result is Abandoned <==> decoded is None,
{
    match decoded {
        Some(metadata) => {
            let job = JobDescriptor::of(event, control_plane_url, metadata);
            Intake::Launched(ReachabilityVerifier::new(job, config))
        },
        None => Intake::Abandoned {
            job_id: render_job_id(event.job.as_slice()),
            metadata: event.metadata,
        },
    }
}

} // verus!
