use vstd::prelude::*;
use crate::dns::{DnsResponse, ResponseCode};
use crate::failure::PipelineError;
use crate::name::DomainName;

verus! {

/// What zone location concludes from the response to the SOA query on the
/// resolved record name: with code NoError or NXDomain, the owner name of the
/// last authority record is the owning zone (a non-existent name still
/// carries an authority section naming the enclosing zone); any other code,
/// or an empty authority section, is fatal.
pub open spec fn locate_zone_spec(response: DnsResponse) -> Result<Seq<Seq<u8>>, PipelineError> {
    if !(response.code is NoError || response.code is NXDomain) {
        Err(PipelineError::UnhandledResponseType(response.code))
    } else if response.authority@.len() == 0 {
        Err(PipelineError::NoZoneFound)
    } else {
        Ok(response.authority@.last().owner@)
    }
}

/// Extracts the owning zone from the response to the SOA query, as
/// `locate_zone_spec` says.
pub fn locate_zone(response: &DnsResponse) -> (r: Result<DomainName, PipelineError>)
    ensures
        ({
            let s = locate_zone_spec(*response);
            match r {
                Ok(zone) => s is Ok && zone@ == s->Ok_0,
                Err(e) => s is Err && e == s->Err_0,
            }
        }),
{
    let usable = match response.code {
        ResponseCode::NoError => true,
        ResponseCode::NXDomain => true,
        _ => false,
    };
    if !usable {
        return Err(PipelineError::UnhandledResponseType(response.code));
    }
    if response.authority.len() == 0 {
        return Err(PipelineError::NoZoneFound);
    }
    let last = &response.authority[response.authority.len() - 1];
    proof {
        assert(response.authority@.last() == response.authority@[response.authority@.len() - 1]);
    }
    Ok(last.owner.clone())
}

} // verus!
