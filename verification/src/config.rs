use vstd::prelude::*;
use crate::name::{fold_name, name_matches, DomainName};

verus! {

/// A network endpoint, as plain values: a textual host (an IP address in the
/// usual dotted or colon form) and a port. The core never inspects it; the
/// surrounding program turns it into a socket address.
pub struct Endpoint {
    pub host: String,
    pub port: u16,
}

/// The credential binding of one zone: its primary nameserver and the TSIG
/// key that signs update transactions against it.
pub struct ZoneConfig {
    pub primary_ns: Endpoint,
    pub tsig_name: DomainName,
    pub tsig_key: Vec<u8>,
    pub tsig_algorithm: DomainName,
}

/// One entry of the configuration mapping: a zone and its credential.
pub struct ZoneEntry {
    pub zone: DomainName,
    pub config: ZoneConfig,
}

/// The configuration: the recursive resolver endpoint, and the mapping from
/// zone names to credentials.
pub struct Config {
    pub resolver: Endpoint,
    pub zones: Vec<ZoneEntry>,
}

/// Whether the mapping holds a credential for `zone` (compared with ASCII
/// case folding).
pub open spec fn zone_configured(zones: Seq<ZoneEntry>, zone: Seq<Seq<u8>>) -> bool {
    exists|i: int| 0 <= i < zones.len() && fold_name(zones[i].zone@) == fold_name(zone)
}

impl Config {
    /// The mapping is well formed when no two entries name the same zone.
    pub open spec fn wf(self) -> bool {
        forall|i: int, j: int|
            0 <= i < j < self.zones@.len() ==> fold_name(self.zones@[i].zone@) != fold_name(
                self.zones@[j].zone@,
            )
    }
}

/// Looks `zone` up in the mapping and returns the index of the first entry
/// for it; `None` exactly when no entry names it.
pub fn find_zone_credential(config: &Config, zone: &DomainName) -> (r: Option<usize>)
    ensures
        (match r {
            Some(i) => i < config.zones@.len() && fold_name(config.zones@[i as int].zone@)
                == fold_name(zone@) && (forall|j: int|
                0 <= j < i ==> fold_name(config.zones@[j].zone@) != fold_name(zone@)),
            None => !zone_configured(config.zones@, zone@),
        }),
        r is Some <==> zone_configured(config.zones@, zone@),
{
    let mut i: usize = 0;
    while i < config.zones.len()
        invariant
            i <= config.zones@.len(),
            forall|j: int| 0 <= j < i ==> fold_name(config.zones@[j].zone@) != fold_name(zone@),
        decreases config.zones@.len() - i,
    {
        if name_matches(&config.zones[i].zone, zone) {
            return Some(i);
        }
        i += 1;
    }
    None
}

/// Checks that no two entries of the mapping name the same zone: duplicate
/// zone keys are a configuration error and must be rejected at load time.
pub fn check_unique_zones(config: &Config) -> (r: bool)
    ensures
        r == config.wf(),
{
    let mut i: usize = 0;
    while i < config.zones.len()
        invariant
            i <= config.zones@.len(),
            forall|p: int, q: int|
                0 <= p < q < config.zones@.len() && p < i ==> fold_name(config.zones@[p].zone@)
                    != fold_name(config.zones@[q].zone@),
        decreases config.zones@.len() - i,
    {
        let mut j: usize = i + 1;
        while j < config.zones.len()
            invariant
                i < j,
                j <= config.zones@.len(),
                i < config.zones@.len(),
                forall|q: int|
                    i < q < j ==> fold_name(config.zones@[i as int].zone@) != fold_name(
                        config.zones@[q].zone@,
                    ),
            decreases config.zones@.len() - j,
        {
            if name_matches(&config.zones[i].zone, &config.zones[j].zone) {
                return false;
            }
            j += 1;
        }
        i += 1;
    }
    true
}

} // verus!
