//! What holds of every run, whatever the driver hands back.

use crate::address::{address_of, first_ipv4, Ipv4Address};
use crate::failure::{Failure, Step, SyncError};
use crate::provider::{record_url, records_url, request_to, zones_url};
use crate::records::{chosen_record, chosen_zone, DnsRecordView, ZoneView};
use crate::sync::{
    begin, differs_notice, ended, matches_notice, next, ActionView, Outcome, Phase, ReplyView,
    TransitionView,
};
use vstd::prelude::*;

verus! {

/// The move that a run makes after the first `i` of `replies`, where `first`
/// is the move it started with.
pub open spec fn move_at(first: TransitionView, replies: Seq<ReplyView>, i: nat) -> TransitionView
    decreases i,
{
    if i == 0 {
        first
    } else {
        next(move_at(first, replies, (i - 1) as nat).session, replies[i - 1])
    }
}

/// How far a run has come: each move either goes further or finds the run
/// finished.
pub open spec fn progress(phase: Phase) -> nat {
    match phase {
        Phase::AwaitPublicAddress => 0,
        Phase::AwaitDomainAddress { .. } => 1,
        Phase::AwaitZones { .. } => 2,
        Phase::AwaitRecords { .. } => 3,
        Phase::AwaitPatch { .. } => 4,
        Phase::Finished { .. } => 5,
    }
}

/// Whether a move is one that a run can make: the action is the one that the
/// phase waits for, the provider is only turned to for two addresses that
/// differ, and a change carries the current address to the record that names
/// its own place.
pub open spec fn coherent(t: TransitionView) -> bool {
    &&& match t.session.phase {
        Phase::AwaitPublicAddress => t.action is FetchPublicAddress,
        Phase::AwaitDomainAddress { .. } => t.action is ResolveDomain,
        Phase::AwaitZones { current, published } => current != published
            && t.action is ListZones,
        Phase::AwaitRecords { current, published } => current != published
            && t.action is ListRecords,
        Phase::AwaitPatch { current, published } => {
            &&& current != published
            &&& t.action matches ActionView::PatchRecord { request, record }
            &&& record.content == current.text()
            &&& request == request_to(record_url(record.zone_id, record.id), t.session.api_key)
        },
        Phase::Finished { outcome } => t.action == (ActionView::Finish { outcome }),
    }
    &&& t.session.phase matches Phase::Finished { outcome: Outcome::Updated { from, to } } ==> from
        != to
}

/// A move on a reply goes further, or finds the run finished and leaves it
/// as it is.
pub proof fn lemma_next_goes_on(t: TransitionView, reply: ReplyView)
    ensures
        t.session.phase is Finished ==> next(t.session, reply) == ended(
            t.session,
            t.session.phase->outcome,
            None,
        ) && next(t.session, reply).session == t.session,
        !(t.session.phase is Finished) ==> progress(next(t.session, reply).session.phase)
            > progress(t.session.phase),
        next(t.session, reply).session.domain == t.session.domain,
        next(t.session, reply).session.api_key == t.session.api_key,
{
}

/// A move that follows a coherent move is coherent.
pub proof fn lemma_next_coherent(t: TransitionView, reply: ReplyView)
    requires
        coherent(t),
    ensures
        coherent(next(t.session, reply)),
{
}

/// Every move of a run is coherent.
pub proof fn lemma_run_coherent(
    domain: Seq<char>,
    credential: Option<Seq<char>>,
    replies: Seq<ReplyView>,
    i: nat,
)
    ensures
        coherent(move_at(begin(domain, credential), replies, i)),
    decreases i,
{
    if i > 0 {
        lemma_run_coherent(domain, credential, replies, (i - 1) as nat);
        lemma_next_coherent(
            move_at(begin(domain, credential), replies, (i - 1) as nat),
            replies[i - 1],
        );
    }
}

/// A run never falls back: a later move has come at least as far.
pub proof fn lemma_progress_grows(first: TransitionView, replies: Seq<ReplyView>, i: nat, j: nat)
    requires
        i <= j,
    ensures
        progress(move_at(first, replies, i).session.phase) <= progress(
            move_at(first, replies, j).session.phase,
        ),
        i < j && !(move_at(first, replies, i).session.phase is Finished) ==> progress(
            move_at(first, replies, i).session.phase,
        ) < progress(move_at(first, replies, j).session.phase),
    decreases j,
{
    if i < j {
        lemma_progress_grows(first, replies, i, (j - 1) as nat);
        lemma_next_goes_on(move_at(first, replies, (j - 1) as nat), replies[j - 1]);
    }
}

/// Once a run has finished, every later move only says so again: it names
/// the same outcome, has nothing for the console, and asks for no call.
pub proof fn lemma_finished_stays(first: TransitionView, replies: Seq<ReplyView>, i: nat, j: nat)
    requires
        i < j,
        move_at(first, replies, i).session.phase is Finished,
    ensures
        move_at(first, replies, j) == ended(
            move_at(first, replies, i).session,
            move_at(first, replies, i).session.phase->outcome,
            None,
        ),
        move_at(first, replies, j).session == move_at(first, replies, i).session,
    decreases j,
{
    if i + 1 < j {
        lemma_finished_stays(first, replies, i, (j - 1) as nat);
    }
    lemma_next_goes_on(move_at(first, replies, (j - 1) as nat), replies[j - 1]);
}

/// A run sends at most one change to the provider, whatever replies come and
/// in whatever order.
pub proof fn lemma_at_most_one_patch(
    domain: Seq<char>,
    credential: Option<Seq<char>>,
    replies: Seq<ReplyView>,
    i: nat,
    j: nat,
)
    requires
        i < j,
    ensures
        !(move_at(begin(domain, credential), replies, i).action is PatchRecord && move_at(
            begin(domain, credential),
            replies,
            j,
        ).action is PatchRecord),
{
    let first = begin(domain, credential);
    lemma_run_coherent(domain, credential, replies, i);
    lemma_run_coherent(domain, credential, replies, j);
    lemma_progress_grows(first, replies, i, j);
}

/// A run sends a change only for two addresses that differ; the change goes
/// to the zone and the record that the sent record names, under the run's
/// credential, and carries the text of the current address as its content.
pub proof fn lemma_patch_only_on_difference(
    domain: Seq<char>,
    credential: Option<Seq<char>>,
    replies: Seq<ReplyView>,
    i: nat,
)
    requires
        move_at(begin(domain, credential), replies, i).action is PatchRecord,
    ensures
        ({
            let t = move_at(begin(domain, credential), replies, i);
            &&& credential is Some
            &&& t.session.phase matches Phase::AwaitPatch { current, published }
            &&& current != published
            &&& t.action->PatchRecord_record.content == current.text()
            &&& t.action->PatchRecord_request == request_to(
                record_url(
                    t.action->PatchRecord_record.zone_id,
                    t.action->PatchRecord_record.id,
                ),
                credential->0,
            )
        }),
{
    lemma_run_coherent(domain, credential, replies, i);
    lemma_session_keeps_names(domain, credential, replies, i);
    if credential is None {
        if i > 0 {
            lemma_finished_stays(begin(domain, credential), replies, 0, i);
        }
    }
}

/// A run turns to the provider only with a credential, and only once it
/// holds two addresses that differ.
pub proof fn lemma_provider_called_only_on_difference(
    domain: Seq<char>,
    credential: Option<Seq<char>>,
    replies: Seq<ReplyView>,
    i: nat,
)
    requires
        move_at(begin(domain, credential), replies, i).action.calls_provider(),
    ensures
        credential is Some,
        match move_at(begin(domain, credential), replies, i).session.phase {
            Phase::AwaitZones { current, published } => current != published,
            Phase::AwaitRecords { current, published } => current != published,
            Phase::AwaitPatch { current, published } => current != published,
            _ => false,
        },
{
    lemma_run_coherent(domain, credential, replies, i);
    if credential is None {
        if i > 0 {
            lemma_finished_stays(begin(domain, credential), replies, 0, i);
        }
    }
}

/// A run keeps the domain and the credential that it started with.
pub proof fn lemma_session_keeps_names(
    domain: Seq<char>,
    credential: Option<Seq<char>>,
    replies: Seq<ReplyView>,
    i: nat,
)
    ensures
        move_at(begin(domain, credential), replies, i).session.domain == domain,
        credential matches Some(api_key) ==> move_at(
            begin(domain, credential),
            replies,
            i,
        ).session.api_key == api_key,
    decreases i,
{
    if i > 0 {
        lemma_session_keeps_names(domain, credential, replies, (i - 1) as nat);
        lemma_next_goes_on(
            move_at(begin(domain, credential), replies, (i - 1) as nat),
            replies[i - 1],
        );
    }
}

/// Without a credential a run ends before it asks for any call: every move
/// of it, the first one too, only reports the missing credential.
pub proof fn lemma_no_credential_no_call(domain: Seq<char>, replies: Seq<ReplyView>, i: nat)
    ensures
        move_at(begin(domain, None), replies, i).action == (ActionView::Finish {
            outcome: Outcome::Failed(
                Failure { step: Step::ReadingCredential, error: SyncError::AuthError },
            ),
        }),
        !move_at(begin(domain, None), replies, i).action.calls_network(),
{
    if i > 0 {
        lemma_finished_stays(begin(domain, None), replies, 0, i);
    }
}

/// Whether `replies` starts with the two addresses: a body of the echo
/// service that reads as `current`, and addresses of the domain of which the
/// first IPv4 one is `published`.
pub open spec fn learns(replies: Seq<ReplyView>, current: Ipv4Address, published: Ipv4Address) -> bool {
    &&& replies.len() >= 2
    &&& replies[0] matches ReplyView::PublicAddress(Ok(body))
    &&& address_of(body) == Some(current)
    &&& replies[1] matches ReplyView::DomainAddresses(Some(addresses))
    &&& first_ipv4(addresses) == Some(published)
}

/// A move goes one phase further, or ends the run.
pub proof fn lemma_next_one_further(t: TransitionView, reply: ReplyView)
    ensures
        next(t.session, reply).session.phase is Finished || progress(
            next(t.session, reply).session.phase,
        ) == progress(t.session.phase) + 1,
{
}

/// A run that has not finished after `i` replies is in its `i`-th phase.
pub proof fn lemma_progress_counts(
    domain: Seq<char>,
    api_key: Seq<char>,
    replies: Seq<ReplyView>,
    i: nat,
)
    ensures
        move_at(begin(domain, Some(api_key)), replies, i).session.phase is Finished || progress(
            move_at(begin(domain, Some(api_key)), replies, i).session.phase,
        ) == i,
    decreases i,
{
    if i > 0 {
        let first = begin(domain, Some(api_key));
        lemma_progress_counts(domain, api_key, replies, (i - 1) as nat);
        lemma_next_one_further(move_at(first, replies, (i - 1) as nat), replies[i - 1]);
        lemma_next_goes_on(move_at(first, replies, (i - 1) as nat), replies[i - 1]);
    }
}

/// A change is sent only as the fifth move of a run that has learned two
/// addresses that differ, has found a zone of the domain's name in the
/// third reply and an address record of the domain's name in the fourth:
/// the record that is sent is that record with the text of the current
/// address as its content.
pub proof fn lemma_patch_follows_lookups(
    domain: Seq<char>,
    credential: Option<Seq<char>>,
    replies: Seq<ReplyView>,
    i: nat,
)
    requires
        i <= replies.len(),
        move_at(begin(domain, credential), replies, i).action is PatchRecord,
    ensures
        i == 4,
        ({
            let t = move_at(begin(domain, credential), replies, i);
            &&& t.session.phase matches Phase::AwaitPatch { current, published }
            &&& current != published
            &&& learns(replies, current, published)
            &&& replies[2] matches ReplyView::Zones(Ok(zones))
            &&& chosen_zone(zones, domain) is Some
            &&& replies[3] matches ReplyView::Records(Ok(records))
            &&& chosen_record(records, domain) matches Some(record)
            &&& t.action->PatchRecord_record == record.with_content(current.text())
        }),
{
    lemma_patch_only_on_difference(domain, credential, replies, i);
    let api_key = credential->0;
    let first = begin(domain, credential);
    lemma_progress_counts(domain, api_key, replies, i);
    assert(i == 4);
    lemma_progress_counts(domain, api_key, replies, 1);
    lemma_progress_counts(domain, api_key, replies, 2);
    lemma_progress_counts(domain, api_key, replies, 3);
    lemma_progress_grows(first, replies, 1, 4);
    lemma_progress_grows(first, replies, 2, 4);
    lemma_progress_grows(first, replies, 3, 4);
    lemma_session_keeps_names(domain, credential, replies, 2);
    lemma_session_keeps_names(domain, credential, replies, 3);
    assert(move_at(first, replies, 0) == first);
    assert(move_at(first, replies, 1) == next(move_at(first, replies, 0).session, replies[0]));
    assert(move_at(first, replies, 2) == next(move_at(first, replies, 1).session, replies[1]));
    assert(move_at(first, replies, 3) == next(move_at(first, replies, 2).session, replies[2]));
    assert(move_at(first, replies, 4) == next(move_at(first, replies, 3).session, replies[3]));
}

/// Where the domain already points at the current address, the run reports
/// so and ends in success, and none of its moves turns to the provider: no
/// zone is listed, no record is listed, nothing is changed.
pub proof fn lemma_equal_addresses_change_nothing(
    domain: Seq<char>,
    api_key: Seq<char>,
    replies: Seq<ReplyView>,
    address: Ipv4Address,
    i: nat,
)
    requires
        learns(replies, address, address),
    ensures
        move_at(begin(domain, Some(api_key)), replies, 2) == ended(
            move_at(begin(domain, Some(api_key)), replies, 1).session,
            Outcome::InSync,
            Some(matches_notice()),
        ),
        Outcome::InSync.exit_code() == 0,
        !move_at(begin(domain, Some(api_key)), replies, i).action.calls_provider(),
        i >= 2 ==> move_at(begin(domain, Some(api_key)), replies, i).action == (
        ActionView::Finish { outcome: Outcome::InSync }),
{
    let first = begin(domain, Some(api_key));
    lemma_first_moves(domain, api_key, replies, address, address);
    if i > 2 {
        lemma_finished_stays(first, replies, 2, i);
    }
    if i == 1 {
        assert(move_at(first, replies, 1) == next(move_at(first, replies, 0).session, replies[0]));
    }
}

/// The first three moves of a run that learns both addresses.
proof fn lemma_first_moves(
    domain: Seq<char>,
    api_key: Seq<char>,
    replies: Seq<ReplyView>,
    current: Ipv4Address,
    published: Ipv4Address,
)
    requires
        learns(replies, current, published),
    ensures
        ({
            let first = begin(domain, Some(api_key));
            let second = move_at(first, replies, 1);
            let third = move_at(first, replies, 2);
            &&& move_at(first, replies, 0) == first
            &&& second == next(first.session, replies[0])
            &&& second.session.phase == (Phase::AwaitDomainAddress { current })
            &&& second.session.domain == domain
            &&& second.session.api_key == api_key
            &&& second.action is ResolveDomain
            &&& third == next(second.session, replies[1])
            &&& third.session.domain == domain
            &&& third.session.api_key == api_key
            &&& current == published ==> third == ended(
                second.session,
                Outcome::InSync,
                Some(matches_notice()),
            )
            &&& current != published ==> {
                &&& third.session.phase == (Phase::AwaitZones { current, published })
                &&& third.notice == Some(differs_notice())
                &&& third.action == (ActionView::ListZones {
                    request: request_to(zones_url(), api_key),
                })
            }
        }),
{
    let first = begin(domain, Some(api_key));
    assert(move_at(first, replies, 0) == first);
    assert(move_at(first, replies, 1) == next(move_at(first, replies, 0).session, replies[0]));
    assert(move_at(first, replies, 2) == next(move_at(first, replies, 1).session, replies[1]));
}

/// Where the two addresses differ and both lookups find what they look for,
/// the run sends exactly one change: as its fifth move, to the zone and the
/// record that the chosen record names, under the run's credential, with
/// the chosen record as its body, in which the text of the current address
/// has taken the place of the content and nothing else has changed. The
/// records were asked for of the chosen zone, so where the chosen record
/// names the zone that it was listed under, the change goes to the chosen
/// zone.
pub proof fn lemma_differing_addresses_patch_once(
    domain: Seq<char>,
    api_key: Seq<char>,
    replies: Seq<ReplyView>,
    current: Ipv4Address,
    published: Ipv4Address,
    zone: ZoneView,
    record: DnsRecordView,
    i: nat,
)
    requires
        learns(replies, current, published),
        current != published,
        replies.len() >= 4,
        replies[2] matches ReplyView::Zones(Ok(zones)) && chosen_zone(zones, domain) == Some(zone),
        replies[3] matches ReplyView::Records(Ok(records)) && chosen_record(records, domain)
            == Some(record),
    ensures
        move_at(begin(domain, Some(api_key)), replies, 3).action == (ActionView::ListRecords {
            request: request_to(records_url(zone.id), api_key),
        }),
        move_at(begin(domain, Some(api_key)), replies, 4).action == (ActionView::PatchRecord {
            request: request_to(record_url(record.zone_id, record.id), api_key),
            record: record.with_content(current.text()),
        }),
        record.zone_id == zone.id ==> move_at(
            begin(domain, Some(api_key)),
            replies,
            4,
        ).action->PatchRecord_request.url == record_url(zone.id, record.id),
        move_at(begin(domain, Some(api_key)), replies, 4).action->PatchRecord_record
            == (DnsRecordView { content: current.text(), ..record }),
        i != 4 ==> !(move_at(begin(domain, Some(api_key)), replies, i).action is PatchRecord),
{
    let first = begin(domain, Some(api_key));
    lemma_first_moves(domain, api_key, replies, current, published);
    assert(move_at(first, replies, 3) == next(move_at(first, replies, 2).session, replies[2]));
    assert(move_at(first, replies, 4) == next(move_at(first, replies, 3).session, replies[3]));
    if i < 4 {
        lemma_at_most_one_patch(domain, Some(api_key), replies, i, 4);
    } else if i > 4 {
        lemma_at_most_one_patch(domain, Some(api_key), replies, 4, i);
    }
}

/// Where no zone has the domain's name, the run ends with `ZoneNotFound`,
/// and no call follows.
pub proof fn lemma_missing_zone_ends_run(
    domain: Seq<char>,
    api_key: Seq<char>,
    replies: Seq<ReplyView>,
    current: Ipv4Address,
    published: Ipv4Address,
    i: nat,
)
    requires
        learns(replies, current, published),
        current != published,
        replies.len() >= 3,
        replies[2] matches ReplyView::Zones(Ok(zones)) && chosen_zone(zones, domain) is None,
        i >= 3,
    ensures
        move_at(begin(domain, Some(api_key)), replies, i).action == (ActionView::Finish {
            outcome: Outcome::Failed(
                Failure { step: Step::GettingZone, error: SyncError::ZoneNotFound },
            ),
        }),
{
    let first = begin(domain, Some(api_key));
    lemma_first_moves(domain, api_key, replies, current, published);
    assert(move_at(first, replies, 3) == next(move_at(first, replies, 2).session, replies[2]));
    if i > 3 {
        lemma_finished_stays(first, replies, 3, i);
    }
}

/// Where the zone has no address record of the domain's name, the run ends
/// with `RecordNotFound`, and no call follows: nothing is changed.
pub proof fn lemma_missing_record_ends_run(
    domain: Seq<char>,
    api_key: Seq<char>,
    replies: Seq<ReplyView>,
    current: Ipv4Address,
    published: Ipv4Address,
    i: nat,
)
    requires
        learns(replies, current, published),
        current != published,
        replies.len() >= 4,
        replies[2] matches ReplyView::Zones(Ok(zones)) && chosen_zone(zones, domain) is Some,
        replies[3] matches ReplyView::Records(Ok(records)) && chosen_record(records, domain)
            is None,
        i >= 4,
    ensures
        move_at(begin(domain, Some(api_key)), replies, i).action == (ActionView::Finish {
            outcome: Outcome::Failed(
                Failure { step: Step::GettingRecord, error: SyncError::RecordNotFound },
            ),
        }),
{
    let first = begin(domain, Some(api_key));
    lemma_first_moves(domain, api_key, replies, current, published);
    assert(move_at(first, replies, 3) == next(move_at(first, replies, 2).session, replies[2]));
    assert(move_at(first, replies, 4) == next(move_at(first, replies, 3).session, replies[3]));
    if i > 4 {
        lemma_finished_stays(first, replies, 4, i);
    }
}

} // verus!
