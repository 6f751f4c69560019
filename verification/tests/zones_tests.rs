//! Zone ownership and zone-list loading.
use acme_client_route53::config::Config;
use acme_client_route53::zones::{
    AllDnsZones, DnsZone, LightsailDomain, LightsailDomainEntry, Route53ZoneInfo,
    lightsail_zones_from_domains, route53_zones_from_list,
};

fn lightsail(domain: &str, ids: &[(&str, &str)]) -> DnsZone {
    DnsZone::Lightsail {
        domain_name: domain.as_bytes().to_vec(),
        txt_record_ids: ids
            .iter()
            .map(|(k, v)| (k.as_bytes().to_vec(), v.as_bytes().to_vec()))
            .collect(),
    }
}

fn route53(domain: &str, id: &str) -> DnsZone {
    DnsZone::Route53 {
        domain_name: domain.as_bytes().to_vec(),
        hosted_zone_id: id.as_bytes().to_vec(),
    }
}

#[test]
fn find_zone_picks_longest_suffix() {
    let zones = AllDnsZones::load(
        vec![lightsail("example.com", &[])],
        vec![route53("staging.example.com", "Z1")],
    );
    let found = zones.find_zone(b"app.staging.example.com").unwrap();
    assert_eq!(found.domain_name(), &b"staging.example.com".to_vec());
}

#[test]
fn find_zone_prefers_first_on_equal_length() {
    let zones = AllDnsZones::load(
        vec![lightsail("example.com", &[])],
        vec![route53("example.com", "Z1")],
    );
    let found = zones.find_zone(b"www.example.com").unwrap();
    assert!(matches!(found, DnsZone::Lightsail { .. }));
}

#[test]
fn find_zone_none_when_no_suffix_matches() {
    let zones = AllDnsZones::load(vec![lightsail("example.com", &[])], vec![]);
    assert!(zones.find_zone(b"example.org").is_none());
}

#[test]
fn zone_contains_is_suffix_match() {
    let z = route53("example.com", "Z1");
    assert!(z.contains(b"www.example.com"));
    assert!(z.contains(b"example.com"));
    assert!(!z.contains(b"example.org"));
    // The known, deliberately open gap: a sibling name that merely ends
    // with the domain text still matches.
    assert!(z.contains(b"evilexample.com"));
}

#[test]
fn lightsail_load_filters_txt_and_lowercases() {
    let domains = vec![
        LightsailDomain {
            name: Some(b"Example.COM".to_vec()),
            entries: vec![
                LightsailDomainEntry {
                    name: Some(b"_Acme-Challenge.Example.COM".to_vec()),
                    id: Some(b"id-1".to_vec()),
                    entry_type: Some(b"TXT".to_vec()),
                },
                LightsailDomainEntry {
                    name: Some(b"www.example.com".to_vec()),
                    id: Some(b"id-2".to_vec()),
                    entry_type: Some(b"A".to_vec()),
                },
                LightsailDomainEntry {
                    name: None,
                    id: Some(b"id-3".to_vec()),
                    entry_type: Some(b"TXT".to_vec()),
                },
            ],
        },
        LightsailDomain { name: None, entries: vec![] },
    ];
    let zones = lightsail_zones_from_domains(&domains);
    assert_eq!(zones.len(), 1);
    match &zones[0] {
        DnsZone::Lightsail { domain_name, txt_record_ids } => {
            assert_eq!(domain_name, &b"example.com".to_vec());
            assert_eq!(
                txt_record_ids,
                &vec![(b"_acme-challenge.example.com".to_vec(), b"id-1".to_vec())]
            );
        }
        _ => unreachable!(),
    }
}

#[test]
fn route53_load_trims_trailing_dot_and_lowercases() {
    let zones = route53_zones_from_list(&vec![
        Route53ZoneInfo { name: b"Example.COM.".to_vec(), id: b"Z9".to_vec() },
        Route53ZoneInfo { name: b"plain.net".to_vec(), id: b"Z8".to_vec() },
    ]);
    assert_eq!(zones.len(), 2);
    assert_eq!(zones[0].domain_name(), &b"example.com".to_vec());
    assert_eq!(zones[1].domain_name(), &b"plain.net".to_vec());
    match &zones[0] {
        DnsZone::Route53 { hosted_zone_id, .. } => {
            assert_eq!(hosted_zone_id, &b"Z9".to_vec());
        }
        _ => unreachable!(),
    }
}

#[test]
fn canonical_host_applies_remap() {
    let config = Config::new(
        vec![(
            b"_acme-challenge.www.example.com".to_vec(),
            b"_acme-challenge.delegated.example.net".to_vec(),
        )],
        vec![],
    );
    assert_eq!(
        config.canonical_host(b"_acme-challenge.www.example.com"),
        b"_acme-challenge.delegated.example.net".to_vec()
    );
    assert_eq!(
        config.canonical_host(b"other.example.com"),
        b"other.example.com".to_vec()
    );
}
