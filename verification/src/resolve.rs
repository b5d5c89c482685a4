use vstd::prelude::*;
use crate::dns::{DnsResponse, RecordData};
use crate::failure::PipelineError;
use crate::name::{clone_label, DomainName};

verus! {

/// The bytes of the fixed label `_acme-challenge`.
pub open spec fn acme_label() -> Seq<u8> {
    seq![95u8, 97u8, 99u8, 109u8, 101u8, 45u8, 99u8, 104u8, 97u8, 108u8, 108u8, 101u8, 110u8, 103u8, 101u8]
}

/// The canonical challenge name of an identifier: the fixed label
/// `_acme-challenge` prefixed to it.
pub open spec fn challenge_name_spec(identifier: Seq<Seq<u8>>) -> Seq<Seq<u8>> {
    seq![acme_label()] + identifier
}

fn acme_challenge_label() -> (r: Vec<u8>)
    ensures
        r@ == acme_label(),
{
    let mut r: Vec<u8> = Vec::new();
    r.push(95);
    r.push(97);
    r.push(99);
    r.push(109);
    r.push(101);
    r.push(45);
    r.push(99);
    r.push(104);
    r.push(97);
    r.push(108);
    r.push(108);
    r.push(101);
    r.push(110);
    r.push(103);
    r.push(101);
    proof {
        assert(r@ =~= acme_label());
    }
    r
}

/// The name to query for an identifier: exactly `_acme-challenge` prefixed to
/// the identifier, which is left unchanged.
pub fn challenge_name(identifier: &DomainName) -> (r: DomainName)
    ensures
        r@ == challenge_name_spec(identifier@),
{
    let mut labels: Vec<Vec<u8>> = Vec::new();
    labels.push(acme_challenge_label());
    let mut i: usize = 0;
    while i < identifier.labels.len()
        invariant
            i <= identifier.labels@.len(),
            labels@.len() == i + 1,
            labels@[0]@ == acme_label(),
            forall|j: int| 0 <= j < i ==> labels@[j + 1]@ == identifier.labels@[j]@,
        decreases identifier.labels@.len() - i,
    {
        labels.push(clone_label(&identifier.labels[i]));
        i += 1;
    }
    let r = DomainName { labels };
    proof {
        assert(r@ =~= challenge_name_spec(identifier@));
    }
    r
}

/// What record resolution concludes from the response to the TXT query on
/// `qname`: the CNAME target if the last answer is a CNAME, `qname` itself if
/// it is a TXT record, and a fatal error on an empty answer section or any
/// other record type.
pub open spec fn resolve_spec(qname: Seq<Seq<u8>>, response: DnsResponse) -> Result<
    Seq<Seq<u8>>,
    PipelineError,
> {
    if response.answers@.len() == 0 {
        Err(PipelineError::NoRecordInResponse)
    } else {
        match response.answers@.last().data {
            RecordData::Cname(target) => Ok(target@),
            RecordData::Txt(_) => Ok(qname),
            _ => Err(PipelineError::UnexpectedRecordType),
        }
    }
}

/// Resolves the record that must hold the challenge: reads the response to
/// the TXT query on the identifier's challenge name, follows one level of
/// CNAME indirection, and fails fatally when no usable record came back.
pub fn resolve_challenge_record(identifier: &DomainName, response: &DnsResponse) -> (r: Result<
    DomainName,
    PipelineError,
>)
    ensures
        ({
            let s = resolve_spec(challenge_name_spec(identifier@), *response);
            match r {
                Ok(name) => s is Ok && name@ == s->Ok_0,
                Err(e) => s is Err && e == s->Err_0,
            }
        }),
{
    if response.answers.len() == 0 {
        return Err(PipelineError::NoRecordInResponse);
    }
    let last = &response.answers[response.answers.len() - 1];
    proof {
        assert(response.answers@.last() == response.answers@[response.answers@.len() - 1]);
    }
    match &last.data {
        RecordData::Cname(target) => Ok(target.clone()),
        RecordData::Txt(_) => Ok(challenge_name(identifier)),
        _ => Err(PipelineError::UnexpectedRecordType),
    }
}

} // verus!
