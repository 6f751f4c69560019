//! The DNS-zone ownership model: which zone, if any, owns a hostname.
//!
//! Zones come from two backends.  A Lightsail zone carries a snapshot of
//! its TXT record ids (needed to decide create-versus-update); a Route53
//! zone carries its hosted-zone id.  Ownership is longest-suffix-match
//! over lower-cased domain names.
use vstd::prelude::*;

use crate::bytestr::{copy_bytes, ends_with, is_suffix_of, lower, to_lower_vec, trim_trailing_dots,
    trim_trailing_dots_vec};
use crate::config::pairs_view;

verus! {

/// ASCII code of `'T'`.
pub const LETTER_T: u8 = 84;

/// ASCII code of `'X'`.
pub const LETTER_X: u8 = 88;

/// The mathematical model of one DNS zone.
pub enum ZoneModel {
    Lightsail { domain_name: Seq<u8>, txt_record_ids: Seq<(Seq<u8>, Seq<u8>)> },
    Route53 { domain_name: Seq<u8>, hosted_zone_id: Seq<u8> },
}

impl ZoneModel {
    /// The zone's domain name.
    pub open spec fn domain_name(self) -> Seq<u8> {
        match self {
            ZoneModel::Lightsail { domain_name, .. } => domain_name,
            ZoneModel::Route53 { domain_name, .. } => domain_name,
        }
    }

    /// Whether the hostname lies under this zone's domain name.
    pub open spec fn contains(self, hostname: Seq<u8>) -> bool {
        is_suffix_of(self.domain_name(), hostname)
    }
}

/// One DNS zone the caller's credentials can mutate.
pub enum DnsZone {
    /// A Lightsail domain, with the known TXT `(record name, entry id)`
    /// pairs at load time.  The snapshot may go stale if other actors
    /// create records concurrently; that staleness window is accepted.
    Lightsail { domain_name: Vec<u8>, txt_record_ids: Vec<(Vec<u8>, Vec<u8>)> },
    /// A Route53 hosted zone.
    Route53 { domain_name: Vec<u8>, hosted_zone_id: Vec<u8> },
}

impl View for DnsZone {
    type V = ZoneModel;

    open spec fn view(&self) -> ZoneModel {
        match self {
            DnsZone::Lightsail { domain_name, txt_record_ids } => ZoneModel::Lightsail {
                domain_name: domain_name@,
                txt_record_ids: pairs_view(txt_record_ids@),
            },
            DnsZone::Route53 { domain_name, hosted_zone_id } => ZoneModel::Route53 {
                domain_name: domain_name@,
                hosted_zone_id: hosted_zone_id@,
            },
        }
    }
}

impl DnsZone {
    /// The zone's domain name.
    pub fn domain_name(&self) -> (r: &Vec<u8>)
        ensures
            r@ == self@.domain_name(),
    {
        match self {
            DnsZone::Lightsail { domain_name, .. } => domain_name,
            DnsZone::Route53 { domain_name, .. } => domain_name,
        }
    }

    /// Whether the hostname lies under this zone.
    ///
    /// A hostname that matches an NS-delegated subdomain at the zone apex
    /// is not distinguished from an ordinary record here; that gap is
    /// known and deliberately left open.
    pub fn contains(&self, hostname: &[u8]) -> (r: bool)
        ensures
            r == self@.contains(hostname@),
    {
        ends_with(hostname, self.domain_name().as_slice())
    }
}

/// The views of a zone list.
pub open spec fn zones_view(zones: Seq<DnsZone>) -> Seq<ZoneModel> {
    zones.map_values(|z: DnsZone| z@)
}

/// `i` indexes a zone that owns `hostname`.
pub open spec fn zone_matches(zones: Seq<ZoneModel>, hostname: Seq<u8>, i: int) -> bool {
    0 <= i < zones.len() && zones[i].contains(hostname)
}

/// `i` indexes the zone `find_zone` must return: it owns `hostname`, no
/// owning zone has a longer domain name, and every earlier owning zone
/// has a strictly shorter one (first match wins on equal lengths).
pub open spec fn is_best_match(zones: Seq<ZoneModel>, hostname: Seq<u8>, i: int) -> bool {
    &&& zone_matches(zones, hostname, i)
    &&& forall|j: int|
        zone_matches(zones, hostname, j) ==> zones[j].domain_name().len()
            <= zones[i].domain_name().len()
    &&& forall|j: int|
        0 <= j < i && zone_matches(zones, hostname, j) ==> zones[j].domain_name().len()
            < zones[i].domain_name().len()
}

/// At most one index can be the best match.
pub proof fn lemma_best_match_unique(zones: Seq<ZoneModel>, hostname: Seq<u8>, i: int, j: int)
    requires
        is_best_match(zones, hostname, i),
        is_best_match(zones, hostname, j),
    ensures
        i == j,
{
    if i < j {
        assert(zones[i].domain_name().len() < zones[j].domain_name().len());
        assert(zones[j].domain_name().len() <= zones[i].domain_name().len());
    } else if j < i {
        assert(zones[j].domain_name().len() < zones[i].domain_name().len());
        assert(zones[i].domain_name().len() <= zones[j].domain_name().len());
    }
}

/// The full set of zones reachable under the caller's credentials,
/// loaded once and then only read.
pub struct AllDnsZones {
    /// All zones of both backends.
    pub dns_zones: Vec<DnsZone>,
}

impl View for AllDnsZones {
    type V = Seq<ZoneModel>;

    open spec fn view(&self) -> Seq<ZoneModel> {
        zones_view(self.dns_zones@)
    }
}

impl AllDnsZones {
    /// Concatenate the zone lists of the two backends.  Listing them is
    /// two API calls made by the caller; a failure of either call must
    /// fail the whole load there, since an incomplete zone set would
    /// make ownership lookups silently wrong.
    pub fn load(lightsail_zones: Vec<DnsZone>, route53_zones: Vec<DnsZone>) -> (r: AllDnsZones)
        ensures
            r@ == zones_view(lightsail_zones@ + route53_zones@),
    {
        let mut all = lightsail_zones;
        let mut rest = route53_zones;
        let ghost ls = all@;
        let ghost rt = rest@;
        all.append(&mut rest);
        proof {
            assert(zones_view(all@) =~= zones_view(ls + rt));
        }
        AllDnsZones { dns_zones: all }
    }

    /// Among all zones owning `hostname`, the one with the longest domain
    /// name; none when no zone owns it.  On equal lengths the first match
    /// encountered wins.
    pub fn find_zone<'a>(&'a self, hostname: &[u8]) -> (r: Option<&'a DnsZone>)
        ensures
            match r {
                Some(z) => exists|i: int|
                    #[trigger] is_best_match(self@, hostname@, i) && z@ == self@[i],
                None => forall|i: int|
                    0 <= i < self@.len() ==> !self@[i].contains(hostname@),
            },
    {
        let mut best: Option<usize> = None;
        let mut i: usize = 0;
        while i < self.dns_zones.len()
            invariant
                i <= self@.len(),
                self@.len() == self.dns_zones@.len(),
                forall|j: int| 0 <= j < self@.len() ==> self@[j] == #[trigger] self.dns_zones@[j]@,
                match best {
                    Some(b) => {
                        &&& b < i
                        &&& zone_matches(self@, hostname@, b as int)
                        &&& forall|j: int|
                            0 <= j < i && self@[j].contains(hostname@)
                                ==> #[trigger] self@[j].domain_name().len()
                                <= self@[b as int].domain_name().len()
                        &&& forall|j: int|
                            0 <= j < b && self@[j].contains(hostname@)
                                ==> #[trigger] self@[j].domain_name().len()
                                < self@[b as int].domain_name().len()
                    },
                    None => forall|j: int| 0 <= j < i ==> !self@[j].contains(hostname@),
                },
            decreases self@.len() - i,
        {
            if self.dns_zones[i].contains(hostname) {
                match best {
                    None => {
                        best = Some(i);
                    },
                    Some(b) => {
                        if self.dns_zones[i].domain_name().len()
                            > self.dns_zones[b].domain_name().len() {
                            best = Some(i);
                        }
                    },
                }
            }
            i = i + 1;
        }
        match best {
            Some(b) => {
                proof {
                    assert(is_best_match(self@, hostname@, b as int));
                }
                Some(&self.dns_zones[b])
            },
            None => None,
        }
    }
}

/// One domain entry as the Lightsail list-domains call reports it; every
/// field is optional in the wire shape.
pub struct LightsailDomainEntry {
    /// The record name.
    pub name: Option<Vec<u8>>,
    /// The provider-assigned entry id.
    pub id: Option<Vec<u8>>,
    /// The record type, such as `TXT` or `A`.
    pub entry_type: Option<Vec<u8>>,
}

/// One domain as the Lightsail list-domains call reports it.
pub struct LightsailDomain {
    /// The domain name.
    pub name: Option<Vec<u8>>,
    /// All records of the domain.
    pub entries: Vec<LightsailDomainEntry>,
}

/// One hosted zone as the Route53 list-hosted-zones call reports it.
pub struct Route53ZoneInfo {
    /// The zone name, as reported: possibly with a trailing dot.
    pub name: Vec<u8>,
    /// The hosted-zone id.
    pub id: Vec<u8>,
}

/// An entry contributes to the TXT-record-id snapshot when its name, id
/// and type are all present and the type is `TXT`.
pub open spec fn is_txt_entry(e: LightsailDomainEntry) -> bool {
    &&& e.name is Some
    &&& e.id is Some
    &&& match e.entry_type {
        Some(t) => t@ == seq![LETTER_T, LETTER_X, LETTER_T],
        None => false,
    }
}

/// The `(lower-cased record name, entry id)` pairs of the TXT entries.
pub open spec fn spec_txt_pairs(entries: Seq<LightsailDomainEntry>) -> Seq<(Seq<u8>, Seq<u8>)>
    decreases entries.len(),
{
    if entries.len() == 0 {
        Seq::empty()
    } else {
        let rest = spec_txt_pairs(entries.drop_last());
        let e = entries.last();
        if is_txt_entry(e) {
            rest.push((lower(e.name->Some_0@), e.id->Some_0@))
        } else {
            rest
        }
    }
}

/// The zone a named Lightsail domain becomes: lower-cased name plus the
/// TXT snapshot.
pub open spec fn spec_lightsail_zone(name: Seq<u8>, entries: Seq<LightsailDomainEntry>) -> ZoneModel {
    ZoneModel::Lightsail { domain_name: lower(name), txt_record_ids: spec_txt_pairs(entries) }
}

/// The zones of a Lightsail domain list: one per named domain, in order;
/// a domain without a name is dropped.
pub open spec fn spec_lightsail_zones(domains: Seq<LightsailDomain>) -> Seq<ZoneModel>
    decreases domains.len(),
{
    if domains.len() == 0 {
        Seq::empty()
    } else {
        let rest = spec_lightsail_zones(domains.drop_last());
        match domains.last().name {
            Some(n) => rest.push(spec_lightsail_zone(n@, domains.last().entries@)),
            None => rest,
        }
    }
}

/// The zones of a Route53 hosted-zone list: names lower-cased with any
/// trailing dot removed, in order.
pub open spec fn spec_route53_zones(zones: Seq<Route53ZoneInfo>) -> Seq<ZoneModel> {
    zones.map_values(
        |z: Route53ZoneInfo| ZoneModel::Route53 {
            domain_name: lower(trim_trailing_dots(z.name@)),
            hosted_zone_id: z.id@,
        },
    )
}

/// Turn the Lightsail list-domains response into zones.
pub fn lightsail_zones_from_domains(domains: &Vec<LightsailDomain>) -> (r: Vec<DnsZone>)
    ensures
        zones_view(r@) == spec_lightsail_zones(domains@),
{
    let mut r: Vec<DnsZone> = Vec::new();
    let mut i: usize = 0;
    while i < domains.len()
        invariant
            i <= domains@.len(),
            zones_view(r@) == spec_lightsail_zones(domains@.subrange(0, i as int)),
        decreases domains@.len() - i,
    {
        let d = &domains[i];
        match &d.name {
            Some(n) => {
                let mut pairs: Vec<(Vec<u8>, Vec<u8>)> = Vec::new();
                let mut j: usize = 0;
                while j < d.entries.len()
                    invariant
                        j <= d.entries@.len(),
                        pairs_view(pairs@) == spec_txt_pairs(d.entries@.subrange(0, j as int)),
                    decreases d.entries@.len() - j,
                {
                    let e = &d.entries[j];
                    match (&e.name, &e.id, &e.entry_type) {
                        (Some(en), Some(eid), Some(et)) => {
                            if et.len() == 3 && et[0] == LETTER_T && et[1] == LETTER_X && et[2] == LETTER_T {
                                proof {
                                    assert(et@ =~= seq![LETTER_T, LETTER_X, LETTER_T]);
                                }
                                let key = to_lower_vec(en.as_slice());
                                let val = copy_bytes(eid.as_slice());
                                pairs.push((key, val));
                            } else {
                                proof {
                                    assert(et@ != seq![LETTER_T, LETTER_X, LETTER_T]) by {
                                        if et@ == seq![LETTER_T, LETTER_X, LETTER_T] {
                                            assert(et@.len() == 3);
                                        }
                                    }
                                }
                            }
                        },
                        _ => {},
                    }
                    proof {
                        let pre = d.entries@.subrange(0, j as int);
                        let post = d.entries@.subrange(0, j + 1 as int);
                        assert(post =~= pre.push(d.entries@[j as int]));
                        assert(post.drop_last() =~= pre);
                        assert(pairs_view(pairs@) =~= spec_txt_pairs(post));
                    }
                    j = j + 1;
                }
                proof {
                    assert(d.entries@.subrange(0, d.entries@.len() as int) =~= d.entries@);
                }
                let dn = to_lower_vec(n.as_slice());
                r.push(DnsZone::Lightsail { domain_name: dn, txt_record_ids: pairs });
            },
            None => {},
        }
        proof {
            let pre = domains@.subrange(0, i as int);
            let post = domains@.subrange(0, i + 1 as int);
            assert(post =~= pre.push(domains@[i as int]));
            assert(post.drop_last() =~= pre);
            assert(zones_view(r@) =~= spec_lightsail_zones(post));
        }
        i = i + 1;
    }
    proof {
        assert(domains@.subrange(0, domains@.len() as int) =~= domains@);
    }
    r
}

/// Turn the Route53 list-hosted-zones response into zones.
pub fn route53_zones_from_list(zones: &Vec<Route53ZoneInfo>) -> (r: Vec<DnsZone>)
    ensures
        zones_view(r@) == spec_route53_zones(zones@),
{
    let mut r: Vec<DnsZone> = Vec::new();
    let mut i: usize = 0;
    while i < zones.len()
        invariant
            i <= zones@.len(),
            zones_view(r@) == spec_route53_zones(zones@.subrange(0, i as int)),
        decreases zones@.len() - i,
    {
        let z = &zones[i];
        let trimmed = trim_trailing_dots_vec(z.name.as_slice());
        let dn = to_lower_vec(trimmed.as_slice());
        let id = copy_bytes(z.id.as_slice());
        let ghost r_pre = r@;
        r.push(DnsZone::Route53 { domain_name: dn, hosted_zone_id: id });
        proof {
            let pre = zones@.subrange(0, i as int);
            let post = zones@.subrange(0, i + 1 as int);
            assert(post =~= pre.push(zones@[i as int]));
            assert(spec_route53_zones(post) =~= spec_route53_zones(pre).push(
                ZoneModel::Route53 {
                    domain_name: lower(trim_trailing_dots(zones@[i as int].name@)),
                    hosted_zone_id: zones@[i as int].id@,
                },
            ));
            assert(zones_view(r@) =~= zones_view(r_pre).push(r@.last()@));
            assert(zones_view(r@) =~= spec_route53_zones(post));
        }
        i = i + 1;
    }
    proof {
        assert(zones@.subrange(0, zones@.len() as int) =~= zones@);
    }
    r
}

} // verus!
