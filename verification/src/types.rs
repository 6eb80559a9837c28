//! A job, as the workflow sees it.

use crate::text::{job_id_text, render_job_id};
use vstd::prelude::*;
use vstd::string::*;

verus! {

/// What the owner of a job asked for. Every field may be absent. Only
/// `region` has a say in the workflow; the rest is carried along.
#[derive(Clone, Debug, PartialEq, Eq)]
pub struct Metadata {
    pub debug: Option<bool>,
    pub family: Option<String>,
    pub init_params: Option<String>,
    pub instance: Option<String>,
    pub memory: Option<u64>,
    pub name: Option<String>,
    pub region: Option<String>,
    pub url: Option<String>,
    pub vcpu: Option<u32>,
}

/// The mathematical content of a [`Metadata`].
pub ghost struct MetadataModel {
    pub debug: Option<bool>,
    pub family: Option<Seq<char>>,
    pub init_params: Option<Seq<char>>,
    pub instance: Option<Seq<char>>,
    pub memory: Option<u64>,
    pub name: Option<Seq<char>>,
    pub region: Option<Seq<char>>,
    pub url: Option<Seq<char>>,
    pub vcpu: Option<u32>,
}

impl MetadataModel {
    /// Metadata that says nothing.
    pub open spec fn empty() -> Self {
        MetadataModel {
            debug: None,
            family: None,
            init_params: None,
            instance: None,
            memory: None,
            name: None,
            region: None,
            url: None,
            vcpu: None,
        }
    }

    /// The region, empty where none is given.
    pub open spec fn region_or_empty(self) -> Seq<char> {
        match self.region {
            Some(region) => region,
            None => Seq::empty(),
        }
    }
}

impl View for Metadata {
    type V = MetadataModel;

    open spec fn view(&self) -> MetadataModel {
        MetadataModel {
            debug: self.debug,
            family: self.family.deep_view(),
            init_params: self.init_params.deep_view(),
            instance: self.instance.deep_view(),
            memory: self.memory,
            name: self.name.deep_view(),
            region: self.region.deep_view(),
            url: self.url.deep_view(),
            vcpu: self.vcpu,
        }
    }
}

impl Metadata {
    /// Metadata that says nothing.
    pub fn empty() -> (metadata: Self)
        ensures
            metadata@ == MetadataModel::empty(),
    {
        Metadata {
            debug: None,
            family: None,
            init_params: None,
            instance: None,
            memory: None,
            name: None,
            region: None,
            url: None,
            vcpu: None,
        }
    }

    /// The region, empty where none is given.
    pub fn region_or_empty(&self) -> (region: &str)
        ensures
            region@ == self@.region_or_empty(),
    {
        match &self.region {
            Some(region) => region.as_str(),
            None => {
                proof {
                    reveal_strlit("");
                    assert(""@ =~= Seq::<char>::empty());
                }
                ""
            },
        }
    }
}

impl Default for Metadata {
    fn default() -> (metadata: Self)
        ensures
            metadata@ == MetadataModel::empty(),
    {
        Metadata::empty()
    }
}

/// The announcement that a job was opened, as the event source delivers it.
#[derive(Clone, Debug, PartialEq, Eq)]
pub struct JobOpened {
    /// The job's identifier, as bytes.
    pub job: Vec<u8>,
    pub owner: String,
    /// The operator that serves the job.
    pub provider: String,
    /// The metadata, as the JSON text that came with the announcement.
    pub metadata: String,
}

/// The mathematical content of a [`JobOpened`].
pub ghost struct JobOpenedModel {
    pub job: Seq<u8>,
    pub owner: Seq<char>,
    pub provider: Seq<char>,
    pub metadata: Seq<char>,
}

impl View for JobOpened {
    type V = JobOpenedModel;

    open spec fn view(&self) -> JobOpenedModel {
        JobOpenedModel {
            job: self.job@,
            owner: self.owner@,
            provider: self.provider@,
            metadata: self.metadata@,
        }
    }
}

/// All that one verification run knows of its job.
#[derive(Clone, Debug, PartialEq, Eq)]
pub struct JobDescriptor {
    /// The job's identifier in hexadecimal, with `0x` in front.
    pub job_id: String,
    pub owner: String,
    pub operator: String,
    /// The base address of the operator's control plane.
    pub control_plane_url: String,
    pub metadata: Metadata,
}

/// The mathematical content of a [`JobDescriptor`].
pub ghost struct JobModel {
    pub job_id: Seq<char>,
    pub owner: Seq<char>,
    pub operator: Seq<char>,
    pub control_plane_url: Seq<char>,
    pub metadata: MetadataModel,
}

impl JobModel {
    /// The job that an announcement describes, once the operator's control
    /// plane has been looked up and the metadata decoded.
    pub open spec fn of(
        event: JobOpenedModel,
        control_plane_url: Seq<char>,
        metadata: MetadataModel,
    ) -> Self {
        JobModel {
            job_id: job_id_text(event.job),
            owner: event.owner,
            operator: event.provider,
            control_plane_url,
            metadata,
        }
    }
}

impl View for JobDescriptor {
    type V = JobModel;

    open spec fn view(&self) -> JobModel {
        JobModel {
            job_id: self.job_id@,
            owner: self.owner@,
            operator: self.operator@,
            control_plane_url: self.control_plane_url@,
            metadata: self.metadata@,
        }
    }
}

impl JobDescriptor {
    /// Describes the job of an announcement.
    pub fn of(event: JobOpened, control_plane_url: String, metadata: Metadata) -> (job: Self)
        ensures
            job@ == JobModel::of(event@, control_plane_url@, metadata@),
    {
        JobDescriptor {
            job_id: render_job_id(event.job.as_slice()),
            owner: event.owner,
            operator: event.provider,
            control_plane_url,
            metadata,
        }
    }
}

} // verus!
