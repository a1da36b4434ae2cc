//! One synchronization run as a state machine.
//!
//! A run starts from the domain and the credential, and then goes on by
//! replies: the driver does what an [`Action`] names, hands the result back
//! as a [`Reply`], and gets the next action. The run itself calls nothing.

use crate::address::{address_of, find_ipv4, first_ipv4, Ipv4Address, ResolvedAddress};
use crate::failure::{classify, CallFailure, Failure, Step, SyncError};
use crate::provider::{
    echo_address, echo_url, record_request, record_url, records_request, records_url,
    request_to, resolver_target, resolver_target_for, zones_request, zones_url, Request,
    RequestView,
};
use crate::records::{
    chosen_record, chosen_zone, find_address_record, find_zone, DnsRecord, DnsRecordView, Zone,
    ZoneView,
};
use vstd::prelude::*;
use vstd::string::*;

verus! {

/// How a run ended.
#[derive(Clone, Copy, Debug, PartialEq, Eq, Structural)]
pub enum Outcome {
    /// The domain already points at the public address; nothing was changed.
    InSync,
    /// The record was changed and the provider confirmed it.
    Updated { from: Ipv4Address, to: Ipv4Address },
    /// The change was sent and the provider answered that it did not succeed.
    NotConfirmed,
    /// A step failed; nothing was changed after it.
    Failed(Failure),
}

impl Outcome {
    /// The exit code of the process: zero unless a step failed.
    pub open spec fn exit_code(self) -> u8 {
        if self is Failed {
            1
        } else {
            0
        }
    }

    /// The exit code of the process for this outcome.
    pub fn code(&self) -> (r: u8)
        ensures
            r == self.exit_code(),
    {
        match self {
            Outcome::Failed(_) => 1,
            _ => 0,
        }
    }
}

/// Where a run stands: the reply that it waits for, with the addresses that
/// it has learned so far.
#[derive(Clone, Copy, Debug, PartialEq, Eq, Structural)]
pub enum Phase {
    AwaitPublicAddress,
    AwaitDomainAddress { current: Ipv4Address },
    AwaitZones { current: Ipv4Address, published: Ipv4Address },
    AwaitRecords { current: Ipv4Address, published: Ipv4Address },
    AwaitPatch { current: Ipv4Address, published: Ipv4Address },
    Finished { outcome: Outcome },
}

/// The state of a run.
#[derive(Debug, PartialEq, Eq)]
pub struct Session {
    pub domain: String,
    pub api_key: String,
    pub phase: Phase,
}

/// What a [`Session`] holds.
pub struct SessionView {
    pub domain: Seq<char>,
    pub api_key: Seq<char>,
    pub phase: Phase,
}

impl View for Session {
    type V = SessionView;

    open spec fn view(&self) -> SessionView {
        SessionView { domain: self.domain@, api_key: self.api_key@, phase: self.phase }
    }
}

/// What the driver is to do next.
#[derive(Debug, PartialEq, Eq)]
pub enum Action {
    /// Get the body of `url` as text.
    FetchPublicAddress { url: String },
    /// Resolve `target`, a name and a port, to its addresses.
    ResolveDomain { target: String },
    /// Send `request` with GET and read the zones of the response.
    ListZones { request: Request },
    /// Send `request` with GET and read the records of the response.
    ListRecords { request: Request },
    /// Send `request` with PATCH and `record` as its body, and read whether
    /// the response reports success.
    PatchRecord { request: Request, record: DnsRecord },
    /// Stop: the run has ended with `outcome`.
    Finish { outcome: Outcome },
}

/// What an [`Action`] holds.
pub enum ActionView {
    FetchPublicAddress { url: Seq<char> },
    ResolveDomain { target: Seq<char> },
    ListZones { request: RequestView },
    ListRecords { request: RequestView },
    PatchRecord { request: RequestView, record: DnsRecordView },
    Finish { outcome: Outcome },
}

impl View for Action {
    type V = ActionView;

    open spec fn view(&self) -> ActionView {
        match self {
            Action::FetchPublicAddress { url } => ActionView::FetchPublicAddress { url: url@ },
            Action::ResolveDomain { target } => ActionView::ResolveDomain { target: target@ },
            Action::ListZones { request } => ActionView::ListZones { request: request@ },
            Action::ListRecords { request } => ActionView::ListRecords { request: request@ },
            Action::PatchRecord { request, record } => ActionView::PatchRecord {
                request: request@,
                record: record@,
            },
            Action::Finish { outcome } => ActionView::Finish { outcome: *outcome },
        }
    }
}

impl ActionView {
    /// Whether the action is a request to the provider.
    pub open spec fn calls_provider(self) -> bool {
        self is ListZones || self is ListRecords || self is PatchRecord
    }

    /// Whether the action goes out to the network.
    pub open spec fn calls_network(self) -> bool {
        !(self is Finish)
    }
}

/// The result of what the driver did.
#[derive(Debug, PartialEq, Eq)]
pub enum Reply {
    /// The body that the address-echo service sent.
    PublicAddress(Result<String, CallFailure>),
    /// The addresses that the domain resolved to, in the resolver's order;
    /// `None` where it did not resolve.
    DomainAddresses(Option<Vec<ResolvedAddress>>),
    /// The zones that the provider listed, in its order.
    Zones(Result<Vec<Zone>, CallFailure>),
    /// The records that the provider listed, in its order.
    Records(Result<Vec<DnsRecord>, CallFailure>),
    /// Whether the provider reported the change as a success.
    Patched(Result<bool, CallFailure>),
}

/// What a [`Reply`] holds.
pub enum ReplyView {
    PublicAddress(Result<Seq<char>, CallFailure>),
    DomainAddresses(Option<Seq<ResolvedAddress>>),
    Zones(Result<Seq<ZoneView>, CallFailure>),
    Records(Result<Seq<DnsRecordView>, CallFailure>),
    Patched(Result<bool, CallFailure>),
}

impl View for Reply {
    type V = ReplyView;

    open spec fn view(&self) -> ReplyView {
        match self {
            Reply::PublicAddress(Ok(body)) => ReplyView::PublicAddress(Ok(body@)),
            Reply::PublicAddress(Err(failure)) => ReplyView::PublicAddress(Err(*failure)),
            Reply::DomainAddresses(Some(addresses)) => ReplyView::DomainAddresses(
                Some(addresses@),
            ),
            Reply::DomainAddresses(None) => ReplyView::DomainAddresses(None),
            Reply::Zones(Ok(zones)) => ReplyView::Zones(Ok(zones.deep_view())),
            Reply::Zones(Err(failure)) => ReplyView::Zones(Err(*failure)),
            Reply::Records(Ok(records)) => ReplyView::Records(Ok(records.deep_view())),
            Reply::Records(Err(failure)) => ReplyView::Records(Err(*failure)),
            Reply::Patched(result) => ReplyView::Patched(*result),
        }
    }
}

/// One move of a run: the state after it, a line for the console where the
/// move has one, and what the driver is to do next.
#[derive(Debug, PartialEq, Eq)]
pub struct Transition {
    pub session: Session,
    pub notice: Option<String>,
    pub action: Action,
}

/// What a [`Transition`] holds.
pub struct TransitionView {
    pub session: SessionView,
    pub notice: Option<Seq<char>>,
    pub action: ActionView,
}

/// What an optional text holds.
pub open spec fn text_of(text: Option<String>) -> Option<Seq<char>> {
    match text {
        Some(t) => Some(t@),
        None => None,
    }
}

impl View for Transition {
    type V = TransitionView;

    open spec fn view(&self) -> TransitionView {
        TransitionView {
            session: self.session@,
            notice: text_of(self.notice),
            action: self.action@,
        }
    }
}

/// The line that reports that nothing is to be done.
pub open spec fn matches_notice() -> Seq<char> {
    "IPv4 Address matches. Exiting."@
}

/// The line that announces the update.
pub open spec fn differs_notice() -> Seq<char> {
    "IPv4 Address does not match. Updating Cloudflare DNS records."@
}

/// The line that reports the confirmed update.
pub open spec fn updated_notice(from: Ipv4Address, to: Ipv4Address) -> Seq<char> {
    "Updated DNS Record from "@ + from.text() + " to "@ + to.text()
}

/// The move that ends a run with `outcome`.
pub open spec fn ended(
    session: SessionView,
    outcome: Outcome,
    notice: Option<Seq<char>>,
) -> TransitionView {
    TransitionView {
        session: SessionView { phase: Phase::Finished { outcome }, ..session },
        notice,
        action: ActionView::Finish { outcome },
    }
}

/// The move that ends a run with the failure of `step`.
pub open spec fn failed(session: SessionView, step: Step, error: SyncError) -> TransitionView {
    ended(session, Outcome::Failed(Failure { step, error }), None)
}

/// The move that goes on to `phase` without a word.
pub open spec fn proceed(session: SessionView, phase: Phase, action: ActionView) -> TransitionView {
    TransitionView { session: SessionView { phase, ..session }, notice: None, action }
}

/// The first move of a run for `domain`. Without a credential the run ends at
/// once; with one it asks for the public address.
pub open spec fn begin(domain: Seq<char>, credential: Option<Seq<char>>) -> TransitionView {
    match credential {
        Some(api_key) => TransitionView {
            session: SessionView { domain, api_key, phase: Phase::AwaitPublicAddress },
            notice: None,
            action: ActionView::FetchPublicAddress { url: echo_url() },
        },
        None => {
            let outcome = Outcome::Failed(
                Failure { step: Step::ReadingCredential, error: SyncError::AuthError },
            );
            TransitionView {
                session: SessionView {
                    domain,
                    api_key: Seq::empty(),
                    phase: Phase::Finished { outcome },
                },
                notice: None,
                action: ActionView::Finish { outcome },
            }
        },
    }
}

/// The move on the answer of the address-echo service: its body is read as
/// the current address, and the domain is resolved next.
pub open spec fn on_public_address(session: SessionView, reply: ReplyView) -> TransitionView {
    match reply {
        ReplyView::PublicAddress(Ok(body)) => match address_of(body) {
            Some(current) => proceed(
                session,
                Phase::AwaitDomainAddress { current },
                ActionView::ResolveDomain { target: resolver_target(session.domain) },
            ),
            None => failed(session, Step::GettingPublicAddress, SyncError::ParseError),
        },
        ReplyView::PublicAddress(Err(failure)) => failed(
            session,
            Step::GettingPublicAddress,
            classify(Step::GettingPublicAddress, failure),
        ),
        _ => failed(session, Step::GettingPublicAddress, SyncError::UnexpectedReply),
    }
}

/// The move on the resolver's answer: the first IPv4 address is the
/// published one. Where it equals the current address the run ends in
/// success; where it differs the zones are asked for.
pub open spec fn on_domain_addresses(
    session: SessionView,
    current: Ipv4Address,
    reply: ReplyView,
) -> TransitionView {
    match reply {
        ReplyView::DomainAddresses(Some(addresses)) => match first_ipv4(addresses) {
            Some(published) => if published == current {
                ended(session, Outcome::InSync, Some(matches_notice()))
            } else {
                TransitionView {
                    session: SessionView {
                        phase: Phase::AwaitZones { current, published },
                        ..session
                    },
                    notice: Some(differs_notice()),
                    action: ActionView::ListZones {
                        request: request_to(zones_url(), session.api_key),
                    },
                }
            },
            None => failed(session, Step::GettingDomainAddress, SyncError::ResolutionError),
        },
        ReplyView::DomainAddresses(None) => failed(
            session,
            Step::GettingDomainAddress,
            SyncError::ResolutionError,
        ),
        _ => failed(session, Step::GettingDomainAddress, SyncError::UnexpectedReply),
    }
}

/// The move on the list of zones: the records of the first zone of the
/// domain's name are asked for.
pub open spec fn on_zones(
    session: SessionView,
    current: Ipv4Address,
    published: Ipv4Address,
    reply: ReplyView,
) -> TransitionView {
    match reply {
        ReplyView::Zones(Ok(zones)) => match chosen_zone(zones, session.domain) {
            Some(zone) => proceed(
                session,
                Phase::AwaitRecords { current, published },
                ActionView::ListRecords {
                    request: request_to(records_url(zone.id), session.api_key),
                },
            ),
            None => failed(session, Step::GettingZone, SyncError::ZoneNotFound),
        },
        ReplyView::Zones(Err(failure)) => failed(
            session,
            Step::GettingZone,
            classify(Step::GettingZone, failure),
        ),
        _ => failed(session, Step::GettingZone, SyncError::UnexpectedReply),
    }
}

/// The move on the list of records: the first address record of the
/// domain's name is sent back with the text of the current address as its
/// content, to the zone and the record that it names itself.
pub open spec fn on_records(
    session: SessionView,
    current: Ipv4Address,
    published: Ipv4Address,
    reply: ReplyView,
) -> TransitionView {
    match reply {
        ReplyView::Records(Ok(records)) => match chosen_record(records, session.domain) {
            Some(record) => proceed(
                session,
                Phase::AwaitPatch { current, published },
                ActionView::PatchRecord {
                    request: request_to(record_url(record.zone_id, record.id), session.api_key),
                    record: record.with_content(current.text()),
                },
            ),
            None => failed(session, Step::GettingRecord, SyncError::RecordNotFound),
        },
        ReplyView::Records(Err(failure)) => failed(
            session,
            Step::GettingRecord,
            classify(Step::GettingRecord, failure),
        ),
        _ => failed(session, Step::GettingRecord, SyncError::UnexpectedReply),
    }
}

/// The move on the provider's answer to the change: a confirmed change is
/// reported; one that the provider did not confirm ends the run without a
/// word of success.
pub open spec fn on_patched(
    session: SessionView,
    current: Ipv4Address,
    published: Ipv4Address,
    reply: ReplyView,
) -> TransitionView {
    match reply {
        ReplyView::Patched(Ok(confirmed)) => if confirmed {
            ended(
                session,
                Outcome::Updated { from: published, to: current },
                Some(updated_notice(published, current)),
            )
        } else {
            ended(session, Outcome::NotConfirmed, None)
        },
        ReplyView::Patched(Err(failure)) => failed(
            session,
            Step::PatchingRecord,
            classify(Step::PatchingRecord, failure),
        ),
        _ => failed(session, Step::PatchingRecord, SyncError::UnexpectedReply),
    }
}

/// The move that a run in the state `session` makes on `reply`.
///
/// Each phase waits for one kind of reply; any other ends the run with
/// `UnexpectedReply`, and a call that failed ends it with the error that
/// the failure stands for at that step. A finished run stays finished.
pub open spec fn next(session: SessionView, reply: ReplyView) -> TransitionView {
    match session.phase {
        Phase::AwaitPublicAddress => on_public_address(session, reply),
        Phase::AwaitDomainAddress { current } => on_domain_addresses(session, current, reply),
        Phase::AwaitZones { current, published } => on_zones(session, current, published, reply),
        Phase::AwaitRecords { current, published } => on_records(
            session,
            current,
            published,
            reply,
        ),
        Phase::AwaitPatch { current, published } => on_patched(
            session,
            current,
            published,
            reply,
        ),
        Phase::Finished { outcome } => ended(session, outcome, None),
    }
}

impl Session {
    fn end(self, outcome: Outcome, notice: Option<String>) -> (t: Transition)
        ensures
            t@ == ended(self@, outcome, text_of(notice)),
    {
        Transition {
            session: Session {
                domain: self.domain,
                api_key: self.api_key,
                phase: Phase::Finished { outcome },
            },
            notice,
            action: Action::Finish { outcome },
        }
    }

    fn fail(self, step: Step, error: SyncError) -> (t: Transition)
        ensures
            t@ == failed(self@, step, error),
    {
        self.end(Outcome::Failed(Failure { step, error }), None)
    }

    fn go(self, phase: Phase, notice: Option<String>, action: Action) -> (t: Transition)
        ensures
            t@ == (TransitionView {
                session: SessionView { phase, ..self@ },
                notice: text_of(notice),
                action: action@,
            }),
    {
        Transition {
            session: Session { domain: self.domain, api_key: self.api_key, phase },
            notice,
            action,
        }
    }

    /// Starts a run for `domain` with the credential that the environment
    /// holds, if it holds one.
    pub fn start(domain: String, credential: Option<String>) -> (t: Transition)
        ensures
            t@ == begin(domain@, text_of(credential)),
    {
        match credential {
            Some(api_key) => Transition {
                session: Session { domain, api_key, phase: Phase::AwaitPublicAddress },
                notice: None,
                action: Action::FetchPublicAddress { url: echo_address() },
            },
            None => {
                let outcome = Outcome::Failed(
                    Failure { step: Step::ReadingCredential, error: SyncError::AuthError },
                );
                Transition {
                    session: Session {
                        domain,
                        api_key: String::new(),
                        phase: Phase::Finished { outcome },
                    },
                    notice: None,
                    action: Action::Finish { outcome },
                }
            },
        }
    }

    /// Makes the move that the run makes on `reply`.
    pub fn step(self, reply: Reply) -> (t: Transition)
        ensures
            t@ == next(self@, reply@),
    {
        match self.phase {
            Phase::Finished { outcome } => self.end(outcome, None),
            Phase::AwaitPublicAddress => match reply {
                Reply::PublicAddress(Ok(body)) => match Ipv4Address::parse(body.as_str()) {
                    Ok(current) => {
                        let target = resolver_target_for(self.domain.as_str());
                        self.go(
                            Phase::AwaitDomainAddress { current },
                            None,
                            Action::ResolveDomain { target },
                        )
                    },
                    Err(_) => self.fail(Step::GettingPublicAddress, SyncError::ParseError),
                },
                Reply::PublicAddress(Err(failure)) => {
                    let error = failure.error_at(Step::GettingPublicAddress);
                    self.fail(Step::GettingPublicAddress, error)
                },
                _ => self.fail(Step::GettingPublicAddress, SyncError::UnexpectedReply),
            },
            Phase::AwaitDomainAddress { current } => match reply {
                Reply::DomainAddresses(Some(addresses)) => match find_ipv4(&addresses) {
                    Some(published) => {
                        if published == current {
                            let notice = String::from_str("IPv4 Address matches. Exiting.");
                            self.end(Outcome::InSync, Some(notice))
                        } else {
                            let notice = String::from_str(
                                "IPv4 Address does not match. Updating Cloudflare DNS records.",
                            );
                            let request = zones_request(self.api_key.as_str());
                            self.go(
                                Phase::AwaitZones { current, published },
                                Some(notice),
                                Action::ListZones { request },
                            )
                        }
                    },
                    None => self.fail(Step::GettingDomainAddress, SyncError::ResolutionError),
                },
                Reply::DomainAddresses(None) => self.fail(Step::GettingDomainAddress, SyncError::ResolutionError),
                _ => self.fail(Step::GettingDomainAddress, SyncError::UnexpectedReply),
            },
            Phase::AwaitZones { current, published } => match reply {
                Reply::Zones(Ok(zones)) => match find_zone(&zones, self.domain.as_str()) {
                    Some(zone) => {
                        let request = records_request(self.api_key.as_str(), zone.id.as_str());
                        self.go(
                            Phase::AwaitRecords { current, published },
                            None,
                            Action::ListRecords { request },
                        )
                    },
                    None => self.fail(Step::GettingZone, SyncError::ZoneNotFound),
                },
                Reply::Zones(Err(failure)) => {
                    let error = failure.error_at(Step::GettingZone);
                    self.fail(Step::GettingZone, error)
                },
                _ => self.fail(Step::GettingZone, SyncError::UnexpectedReply),
            },
            Phase::AwaitRecords { current, published } => match reply {
                Reply::Records(Ok(records)) => match find_address_record(
                    &records,
                    self.domain.as_str(),
                ) {
                    Some(found) => {
                        let request = record_request(
                            self.api_key.as_str(),
                            found.zone_id.as_str(),
                            found.id.as_str(),
                        );
                        let record = found.clone().with_content(current.to_text());
                        self.go(
                            Phase::AwaitPatch { current, published },
                            None,
                            Action::PatchRecord { request, record },
                        )
                    },
                    None => self.fail(Step::GettingRecord, SyncError::RecordNotFound),
                },
                Reply::Records(Err(failure)) => {
                    let error = failure.error_at(Step::GettingRecord);
                    self.fail(Step::GettingRecord, error)
                },
                _ => self.fail(Step::GettingRecord, SyncError::UnexpectedReply),
            },
            Phase::AwaitPatch { current, published } => match reply {
                Reply::Patched(Ok(confirmed)) => {
                    if confirmed {
                        let mut notice = String::from_str("Updated DNS Record from ");
                        notice.append(published.to_text().as_str());
                        notice.append(" to ");
                        notice.append(current.to_text().as_str());
                        self.end(Outcome::Updated { from: published, to: current }, Some(notice))
                    } else {
                        self.end(Outcome::NotConfirmed, None)
                    }
                },
                Reply::Patched(Err(failure)) => {
                    let error = failure.error_at(Step::PatchingRecord);
                    self.fail(Step::PatchingRecord, error)
                },
                _ => self.fail(Step::PatchingRecord, SyncError::UnexpectedReply),
            },
        }
    }
}

} // verus!
