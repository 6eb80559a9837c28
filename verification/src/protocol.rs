//! What a stage asks of its driver, and what the driver reports back.

use vstd::prelude::*;

verus! {

/// Something a stage needs done before it can go on.
#[derive(Clone, Debug, PartialEq, Eq)]
pub enum Action {
    /// Let `secs` seconds pass, then report [`Event::Elapsed`].
    Sleep { secs: u64 },
    /// Issue a GET to `url` on the control plane and report
    /// [`Event::PollAnswered`] with the body, or [`Event::PollFailed`].
    PollControlPlane { url: String },
    /// Open a TCP connection to `address`, giving up after `timeout_secs`.
    Connect { address: String, timeout_secs: u64 },
    /// Issue a GET to `url` on the instance and report
    /// [`Event::AttestationAnswered`], or [`Event::AttestationFailed`].
    FetchAttestation { url: String },
}

/// The mathematical content of an [`Action`].
pub ghost enum ActionModel {
    Sleep { secs: u64 },
    PollControlPlane { url: Seq<char> },
    Connect { address: Seq<char>, timeout_secs: u64 },
    FetchAttestation { url: Seq<char> },
}

impl View for Action {
    type V = ActionModel;

    open spec fn view(&self) -> ActionModel {
        match self {
            Action::Sleep { secs } => ActionModel::Sleep { secs: *secs },
            Action::PollControlPlane { url } => ActionModel::PollControlPlane { url: url@ },
            Action::Connect { address, timeout_secs } => ActionModel::Connect {
                address: address@,
                timeout_secs: *timeout_secs,
            },
            Action::FetchAttestation { url } => ActionModel::FetchAttestation { url: url@ },
        }
    }
}

/// What came of an [`Action`].
#[derive(Clone, Debug, PartialEq, Eq)]
pub enum Event {
    /// A sleep ended.
    Elapsed,
    /// The control plane could not be reached, or its answer could not be
    /// read to the end.
    PollFailed,
    /// The control plane answered with this body.
    PollAnswered { body: String },
    /// The connection was opened.
    Connected,
    /// The connection was refused or otherwise failed.
    ConnectFailed,
    /// The connection was not opened in the time allowed.
    ConnectTimedOut,
    /// The instance could not be reached, or its answer could not be read to
    /// the end.
    AttestationFailed,
    /// The instance answered with this HTTP status and this body.
    AttestationAnswered { status: u16, document: Vec<u8> },
}

/// The mathematical content of an [`Event`].
pub ghost enum EventModel {
    Elapsed,
    PollFailed,
    PollAnswered { body: Seq<char> },
    Connected,
    ConnectFailed,
    ConnectTimedOut,
    AttestationFailed,
    AttestationAnswered { status: u16, document: Seq<u8> },
}

impl View for Event {
    type V = EventModel;

    open spec fn view(&self) -> EventModel {
        match self {
            Event::Elapsed => EventModel::Elapsed,
            Event::PollFailed => EventModel::PollFailed,
            Event::PollAnswered { body } => EventModel::PollAnswered { body: body@ },
            Event::Connected => EventModel::Connected,
            Event::ConnectFailed => EventModel::ConnectFailed,
            Event::ConnectTimedOut => EventModel::ConnectTimedOut,
            Event::AttestationFailed => EventModel::AttestationFailed,
            Event::AttestationAnswered { status, document } => EventModel::AttestationAnswered {
                status: *status,
                document: document@,
            },
        }
    }
}

} // verus!
