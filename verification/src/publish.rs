//! Challenge publication planning: what write to issue against which
//! backend for a TXT record, and which initial-wait strategy follows.
//!
//! The caller executes the plan against the backend API and reports the
//! outcome; the decisions on both sides of that call are made here.
use vstd::prelude::*;

use crate::bytestr::copy_bytes;
use crate::config::{assoc_lookup, assoc_get};
use crate::zones::{AllDnsZones, DnsZone, ZoneModel, is_best_match, zone_matches};
use crate::Error;

verus! {

/// ASCII code of `'"'`.
pub const DQUOTE: u8 = 34;

/// Settle time before polling after updating an existing Lightsail
/// record.
pub const UPDATE_SETTLE_SECS: u32 = 10;

/// Settle time before polling after creating a fresh Lightsail record:
/// Lightsail's authoritative DNS has a long negative-cache TTL, so a
/// fresh name needs much longer than an update.
pub const CREATE_SETTLE_SECS: u32 = 50;

/// Settle time when a Route53 change is accepted without a tracking id.
pub const ROUTE53_FALLBACK_SETTLE_SECS: u32 = 50;

/// TTL of the TXT record written through Route53.
pub const ROUTE53_TTL_SECS: u32 = 60;

/// `v` wrapped in double quotes, as the TXT wire format requires.
pub open spec fn quote_txt(v: Seq<u8>) -> Seq<u8> {
    seq![DQUOTE] + v + seq![DQUOTE]
}

/// The mathematical model of a publication plan.
pub enum PlanModel {
    LightsailUpdate {
        domain_name: Seq<u8>,
        entry_id: Seq<u8>,
        record_name: Seq<u8>,
        quoted_value: Seq<u8>,
    },
    LightsailCreate { domain_name: Seq<u8>, record_name: Seq<u8>, quoted_value: Seq<u8> },
    Route53Upsert {
        hosted_zone_id: Seq<u8>,
        record_name: Seq<u8>,
        quoted_value: Seq<u8>,
        ttl_secs: u32,
    },
}

/// The provider-specific write to issue for one TXT record.
#[derive(Debug, PartialEq, Eq)]
pub enum PublishPlan {
    /// Update the existing Lightsail entry with the known id.
    LightsailUpdate {
        domain_name: Vec<u8>,
        entry_id: Vec<u8>,
        record_name: Vec<u8>,
        quoted_value: Vec<u8>,
    },
    /// Create a fresh Lightsail entry.
    LightsailCreate { domain_name: Vec<u8>, record_name: Vec<u8>, quoted_value: Vec<u8> },
    /// Send a Route53 upsert change batch with a single TXT record set.
    Route53Upsert {
        hosted_zone_id: Vec<u8>,
        record_name: Vec<u8>,
        quoted_value: Vec<u8>,
        ttl_secs: u32,
    },
}

impl View for PublishPlan {
    type V = PlanModel;

    open spec fn view(&self) -> PlanModel {
        match self {
            PublishPlan::LightsailUpdate { domain_name, entry_id, record_name, quoted_value } => PlanModel::LightsailUpdate {
                domain_name: domain_name@,
                entry_id: entry_id@,
                record_name: record_name@,
                quoted_value: quoted_value@,
            },
            PublishPlan::LightsailCreate { domain_name, record_name, quoted_value } => PlanModel::LightsailCreate {
                domain_name: domain_name@,
                record_name: record_name@,
                quoted_value: quoted_value@,
            },
            PublishPlan::Route53Upsert { hosted_zone_id, record_name, quoted_value, ttl_secs } => PlanModel::Route53Upsert {
                hosted_zone_id: hosted_zone_id@,
                record_name: record_name@,
                quoted_value: quoted_value@,
                ttl_secs: *ttl_secs,
            },
        }
    }
}

/// The mathematical model of an initial-wait strategy.
pub enum StrategyModel {
    ConstantDelay(u32),
    TrackChangeStatus(Seq<u8>),
}

/// How long to wait, or what to poll, before DNS polling can begin.
#[derive(Debug, PartialEq, Eq)]
pub enum InitialWaitStrategy {
    /// The backend's write gave no completion signal: wait a constant
    /// number of seconds.
    ConstantDelay(u32),
    /// The backend exposes a change-propagation status under this id:
    /// poll it until it reports in-sync.
    TrackChangeStatus(Vec<u8>),
}

impl View for InitialWaitStrategy {
    type V = StrategyModel;

    open spec fn view(&self) -> StrategyModel {
        match self {
            InitialWaitStrategy::ConstantDelay(secs) => StrategyModel::ConstantDelay(*secs),
            InitialWaitStrategy::TrackChangeStatus(id) => StrategyModel::TrackChangeStatus(id@),
        }
    }
}

/// The plan the owning zone dictates for `(record_name, txt_value)`:
/// Lightsail updates the known entry id when the snapshot has one and
/// creates otherwise; Route53 always upserts.
pub open spec fn spec_plan_for(zone: ZoneModel, record_name: Seq<u8>, txt_value: Seq<u8>) -> PlanModel {
    match zone {
        ZoneModel::Lightsail { domain_name, txt_record_ids } => match assoc_lookup(
            txt_record_ids,
            record_name,
        ) {
            Some(id) => PlanModel::LightsailUpdate {
                domain_name,
                entry_id: id,
                record_name,
                quoted_value: quote_txt(txt_value),
            },
            None => PlanModel::LightsailCreate {
                domain_name,
                record_name,
                quoted_value: quote_txt(txt_value),
            },
        },
        ZoneModel::Route53 { domain_name: _, hosted_zone_id } => PlanModel::Route53Upsert {
            hosted_zone_id,
            record_name,
            quoted_value: quote_txt(txt_value),
            ttl_secs: ROUTE53_TTL_SECS,
        },
    }
}

/// The initial-wait strategy that follows a successful write: a short
/// settle for an updated Lightsail record, a long settle for a created
/// one, and for Route53 the change tracker when the API returned an id,
/// else the long fallback settle.
pub open spec fn spec_wait_strategy(plan: PlanModel, change_id: Option<Seq<u8>>) -> StrategyModel {
    match plan {
        PlanModel::LightsailUpdate { .. } => StrategyModel::ConstantDelay(UPDATE_SETTLE_SECS),
        PlanModel::LightsailCreate { .. } => StrategyModel::ConstantDelay(CREATE_SETTLE_SECS),
        PlanModel::Route53Upsert { .. } => match change_id {
            Some(id) => StrategyModel::TrackChangeStatus(id),
            None => StrategyModel::ConstantDelay(ROUTE53_FALLBACK_SETTLE_SECS),
        },
    }
}

/// `v` wrapped in double quotes.
pub fn quote_txt_value(v: &[u8]) -> (r: Vec<u8>)
    ensures
        r@ == quote_txt(v@),
{
    let mut r: Vec<u8> = Vec::new();
    r.push(DQUOTE);
    let mut i: usize = 0;
    while i < v.len()
        invariant
            i <= v@.len(),
            r@ == seq![DQUOTE] + v@.subrange(0, i as int),
        decreases v@.len() - i,
    {
        r.push(v[i]);
        proof {
            assert(r@ =~= seq![DQUOTE] + v@.subrange(0, i + 1 as int));
        }
        i = i + 1;
    }
    r.push(DQUOTE);
    proof {
        assert(v@.subrange(0, v@.len() as int) =~= v@);
        assert(r@ =~= quote_txt(v@));
    }
    r
}

impl AllDnsZones {
    /// Decide the write for `(record_name, txt_value)`: the zone owning
    /// `record_name` (longest suffix match) dictates the plan; no owning
    /// zone is a configuration error.
    pub fn plan_txt_update(&self, record_name: &[u8], txt_value: &[u8]) -> (r: Result<
        PublishPlan,
        Error,
    >)
        ensures
            match r {
                Ok(plan) => exists|i: int|
                    #[trigger] is_best_match(self@, record_name@, i) && plan@ == spec_plan_for(
                        self@[i],
                        record_name@,
                        txt_value@,
                    ),
                Err(e) => {
                    &&& forall|i: int|
                        0 <= i < self@.len() ==> !self@[i].contains(record_name@)
                    &&& e matches Error::NoDnsZone(h) && h@ == record_name@
                },
            },
    {
        match self.find_zone(record_name) {
            None => Err(Error::NoDnsZone(copy_bytes(record_name))),
            Some(zone) => match zone {
                DnsZone::Lightsail { domain_name, txt_record_ids } => {
                    let quoted_value = quote_txt_value(txt_value);
                    match assoc_get(txt_record_ids, record_name) {
                        Some(id) => Ok(
                            PublishPlan::LightsailUpdate {
                                domain_name: copy_bytes(domain_name.as_slice()),
                                entry_id: copy_bytes(id.as_slice()),
                                record_name: copy_bytes(record_name),
                                quoted_value,
                            },
                        ),
                        None => Ok(
                            PublishPlan::LightsailCreate {
                                domain_name: copy_bytes(domain_name.as_slice()),
                                record_name: copy_bytes(record_name),
                                quoted_value,
                            },
                        ),
                    }
                },
                DnsZone::Route53 { domain_name: _, hosted_zone_id } => {
                    let quoted_value = quote_txt_value(txt_value);
                    Ok(
                        PublishPlan::Route53Upsert {
                            hosted_zone_id: copy_bytes(hosted_zone_id.as_slice()),
                            record_name: copy_bytes(record_name),
                            quoted_value,
                            ttl_secs: ROUTE53_TTL_SECS,
                        },
                    )
                },
            },
        }
    }
}

/// The strategy to wait out after the plan's write succeeded;
/// `change_id` is the tracking id the API returned, if any.
pub fn wait_strategy_for(plan: &PublishPlan, change_id: Option<Vec<u8>>) -> (r: InitialWaitStrategy)
    ensures
        r@ == spec_wait_strategy(
            plan@,
            match change_id {
                Some(id) => Some(id@),
                None => None,
            },
        ),
{
    match plan {
        PublishPlan::LightsailUpdate { .. } => InitialWaitStrategy::ConstantDelay(
            UPDATE_SETTLE_SECS,
        ),
        PublishPlan::LightsailCreate { .. } => InitialWaitStrategy::ConstantDelay(
            CREATE_SETTLE_SECS,
        ),
        PublishPlan::Route53Upsert { .. } => match change_id {
            Some(id) => InitialWaitStrategy::TrackChangeStatus(id),
            None => InitialWaitStrategy::ConstantDelay(ROUTE53_FALLBACK_SETTLE_SECS),
        },
    }
}

/// For the same zone, record and value, a Lightsail publish settles
/// `UPDATE_SETTLE_SECS` when the record id is already known and
/// `CREATE_SETTLE_SECS` when it is not: prior existence alone decides.
pub proof fn lemma_lightsail_settle_times(
    domain_name: Seq<u8>,
    ids_with: Seq<(Seq<u8>, Seq<u8>)>,
    ids_without: Seq<(Seq<u8>, Seq<u8>)>,
    record_name: Seq<u8>,
    txt_value: Seq<u8>,
    change_id: Option<Seq<u8>>,
)
    requires
        assoc_lookup(ids_with, record_name) is Some,
        assoc_lookup(ids_without, record_name) is None,
    ensures
        spec_wait_strategy(
            spec_plan_for(
                ZoneModel::Lightsail { domain_name, txt_record_ids: ids_with },
                record_name,
                txt_value,
            ),
            change_id,
        ) == StrategyModel::ConstantDelay(UPDATE_SETTLE_SECS),
        spec_wait_strategy(
            spec_plan_for(
                ZoneModel::Lightsail { domain_name, txt_record_ids: ids_without },
                record_name,
                txt_value,
            ),
            change_id,
        ) == StrategyModel::ConstantDelay(CREATE_SETTLE_SECS),
{
}

} // verus!
