//! Zones and DNS records as the provider lists them, and the choice of the
//! one that belongs to a domain.

use crate::search::{first_where, is_first, lemma_first_found, lemma_first_missing};
use crate::text::same_text;
use vstd::prelude::*;
use vstd::string::*;

verus! {

/// The provider's unit of management for a domain.
#[derive(Debug, PartialEq, Eq)]
pub struct Zone {
    pub id: String,
    pub name: String,
}

/// What a [`Zone`] holds.
pub struct ZoneView {
    pub id: Seq<char>,
    pub name: Seq<char>,
}

impl View for Zone {
    type V = ZoneView;

    open spec fn view(&self) -> ZoneView {
        ZoneView { id: self.id@, name: self.name@ }
    }
}

impl DeepView for Zone {
    type V = ZoneView;

    open spec fn deep_view(&self) -> ZoneView {
        self@
    }
}

impl Clone for Zone {
    fn clone(&self) -> (r: Self)
        ensures
            r == *self,
    {
        Zone { id: self.id.clone(), name: self.name.clone() }
    }
}

/// One resource record of a zone.
#[derive(Debug, PartialEq, Eq)]
pub struct DnsRecord {
    pub id: String,
    pub zone_id: String,
    pub name: String,
    pub record_type: String,
    pub content: String,
    pub ttl: isize,
}

/// What a [`DnsRecord`] holds.
pub struct DnsRecordView {
    pub id: Seq<char>,
    pub zone_id: Seq<char>,
    pub name: Seq<char>,
    pub record_type: Seq<char>,
    pub content: Seq<char>,
    pub ttl: isize,
}

impl DnsRecordView {
    /// The same record with `content` in place of its content.
    pub open spec fn with_content(self, content: Seq<char>) -> DnsRecordView {
        DnsRecordView { content, ..self }
    }
}

impl View for DnsRecord {
    type V = DnsRecordView;

    open spec fn view(&self) -> DnsRecordView {
        DnsRecordView {
            id: self.id@,
            zone_id: self.zone_id@,
            name: self.name@,
            record_type: self.record_type@,
            content: self.content@,
            ttl: self.ttl,
        }
    }
}

impl DeepView for DnsRecord {
    type V = DnsRecordView;

    open spec fn deep_view(&self) -> DnsRecordView {
        self@
    }
}

impl Clone for DnsRecord {
    fn clone(&self) -> (r: Self)
        ensures
            r == *self,
    {
        DnsRecord {
            id: self.id.clone(),
            zone_id: self.zone_id.clone(),
            name: self.name.clone(),
            record_type: self.record_type.clone(),
            content: self.content.clone(),
            ttl: self.ttl,
        }
    }
}

impl DnsRecord {
    /// The same record with `content` in place of its content.
    pub fn with_content(self, content: String) -> (r: DnsRecord)
        ensures
            r@ == self@.with_content(content@),
    {
        DnsRecord {
            id: self.id,
            zone_id: self.zone_id,
            name: self.name,
            record_type: self.record_type,
            content,
            ttl: self.ttl,
        }
    }
}

/// The test for a zone of the name `domain`, letter for letter.
pub open spec fn zone_named(domain: Seq<char>) -> spec_fn(ZoneView) -> bool {
    |zone: ZoneView| zone.name == domain
}

/// The test for an address record (type `A`) of the name `domain`, letter
/// for letter.
pub open spec fn address_record_named(domain: Seq<char>) -> spec_fn(DnsRecordView) -> bool {
    |record: DnsRecordView| record.record_type == seq!['A'] && record.name == domain
}

/// The zone that is chosen for `domain`: the first of that name.
pub open spec fn chosen_zone(zones: Seq<ZoneView>, domain: Seq<char>) -> Option<ZoneView> {
    first_where(zones, zone_named(domain))
}

/// The record that is chosen for `domain`: the first address record of that
/// name.
pub open spec fn chosen_record(records: Seq<DnsRecordView>, domain: Seq<char>) -> Option<
    DnsRecordView,
> {
    first_where(records, address_record_named(domain))
}

/// Finds the first zone whose name is `domain`.
pub fn find_zone<'a>(zones: &'a Vec<Zone>, domain: &str) -> (r: Option<&'a Zone>)
    ensures
        match r {
            Some(zone) => exists|i: int|
                is_first(zones.deep_view(), zone_named(domain@), i) && *zone == zones@[i],
            None => forall|i: int| 0 <= i < zones.len() ==> zones@[i].name@ != domain@,
        },
        match r {
            Some(zone) => chosen_zone(zones.deep_view(), domain@) == Some(zone@),
            None => chosen_zone(zones.deep_view(), domain@) is None,
        },
{
    let ghost items = zones.deep_view();
    let ghost wanted = zone_named(domain@);
    let mut i: usize = 0;
    while i < zones.len()
        invariant
            i <= zones.len(),
            items == zones.deep_view(),
            wanted == zone_named(domain@),
            forall|j: int| 0 <= j < i ==> !wanted(#[trigger] items[j]),
        decreases zones.len() - i,
    {
        if same_text(zones[i].name.as_str(), domain) {
            proof {
                assert(is_first(items, wanted, i as int));
                lemma_first_found(items, wanted, i as int);
            }
            return Some(&zones[i]);
        }
        i += 1;
    }
    proof {
        lemma_first_missing(items, wanted);
        assert forall|k: int| 0 <= k < zones.len() implies zones@[k].name@ != domain@ by {
            assert(!wanted(items[k]));
        }
    }
    None
}

/// Finds the first record of type `A` whose name is `domain`.
pub fn find_address_record<'a>(records: &'a Vec<DnsRecord>, domain: &str) -> (r: Option<
    &'a DnsRecord,
>)
    ensures
        match r {
            Some(record) => exists|i: int|
                is_first(records.deep_view(), address_record_named(domain@), i) && *record
                    == records@[i],
            None => forall|i: int|
                0 <= i < records.len() ==> !(records@[i].record_type@ == seq!['A']
                    && records@[i].name@ == domain@),
        },
        match r {
            Some(record) => chosen_record(records.deep_view(), domain@) == Some(record@),
            None => chosen_record(records.deep_view(), domain@) is None,
        },
{
    let ghost items = records.deep_view();
    let ghost wanted = address_record_named(domain@);
    proof {
        reveal_strlit("A");
        assert("A"@ =~= seq!['A']);
    }
    let mut i: usize = 0;
    while i < records.len()
        invariant
            i <= records.len(),
            items == records.deep_view(),
            wanted == address_record_named(domain@),
            "A"@ == seq!['A'],
            forall|j: int| 0 <= j < i ==> !wanted(#[trigger] items[j]),
        decreases records.len() - i,
    {
        if same_text(records[i].record_type.as_str(), "A") && same_text(
            records[i].name.as_str(),
            domain,
        ) {
            proof {
                assert(is_first(items, wanted, i as int));
                lemma_first_found(items, wanted, i as int);
            }
            return Some(&records[i]);
        }
        i += 1;
    }
    proof {
        lemma_first_missing(items, wanted);
        assert forall|k: int| 0 <= k < records.len() implies !(records@[k].record_type@
            == seq!['A'] && records@[k].name@ == domain@) by {
            assert(!wanted(items[k]));
        }
    }
    None
}

} // verus!
