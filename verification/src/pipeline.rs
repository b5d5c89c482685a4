use vstd::prelude::*;
use crate::config::{find_zone_credential, zone_configured, Config};
use crate::dns::{DnsResponse, QueryType};
use crate::failure::{FailureKind, PipelineError, Stage};
use crate::name::{fold_name, DomainName};
use crate::resolve::{challenge_name, challenge_name_spec, resolve_challenge_record, resolve_spec};
use crate::update::{
    interpret_update_response, interpret_update_spec, ChallengeRecord, Commands, OperationOutcome,
    CHALLENGE_TTL_SECONDS,
};
use crate::zone::{locate_zone, locate_zone_spec};

verus! {

/// One run's fixed inputs: the operation, the domain identifier, and the
/// proof token to publish or retract.
pub struct PipelineInput {
    pub command: Commands,
    pub identifier: DomainName,
    pub proof_token: String,
}

/// Where one run stands: which response it waits for, or its final result.
pub enum PipelineState {
    /// The TXT query on the challenge name is out.
    AwaitChallengeAnswer,
    /// The SOA query on the resolved record name is out.
    AwaitZoneAnswer { record_name: DomainName },
    /// The signed update transaction is out.
    AwaitUpdateAnswer,
    /// The run is over, with this result.
    Finished(Result<OperationOutcome, PipelineError>),
}

/// What the surrounding program is to do next. Queries go to the recursive
/// resolver; the update goes, signed, to the primary nameserver of the
/// configuration entry at `credential`. Every exchange runs under the retry
/// wrapper, and its terminal outcome comes back as the next event.
pub enum PipelineAction {
    /// Query the recursive resolver for `name` with record type `rtype`.
    SendQuery { name: DomainName, rtype: QueryType },
    /// Issue the signed transaction against `zone`: for `SetRecord`, create
    /// `record` only if no such record set exists; for `UnsetRecord`, delete
    /// the record set.
    SendUpdate { credential: usize, zone: DomainName, record: ChallengeRecord, op: Commands },
    /// Nothing more: the state is final.
    Stop,
}

/// Starts one run: the first action queries exactly the identifier's
/// challenge name, `_acme-challenge` prefixed to it, with record type TXT.
pub fn pipeline_start(input: &PipelineInput) -> (r: (PipelineState, PipelineAction))
    ensures
        r.0 is AwaitChallengeAnswer,
        (r.1 matches PipelineAction::SendQuery { name, rtype } && name@ == challenge_name_spec(
            input.identifier@,
        ) && rtype is Txt),
{
    let name = challenge_name(&input.identifier);
    (PipelineState::AwaitChallengeAnswer, PipelineAction::SendQuery { name, rtype: QueryType::Txt })
}

/// Advances one run by one event: the terminal outcome of the exchange the
/// last action asked for. Each stage reads its response exactly as the
/// component's specification says; a terminal failure of any exchange ends
/// the run at once with the failing stage; a zone with no configured
/// credential ends the run before any update transaction is built or sent.
pub fn pipeline_step(
    input: &PipelineInput,
    config: &Config,
    state: PipelineState,
    event: Result<DnsResponse, FailureKind>,
) -> (r: (PipelineState, PipelineAction))
    ensures
        (state is AwaitChallengeAnswer && event is Err) ==> r.0 == PipelineState::Finished(
            Err(PipelineError::QueryFailed(Stage::Resolution, event->Err_0)),
        ) && r.1 is Stop,
        state is AwaitChallengeAnswer ==> (event matches Ok(resp) ==> (match resolve_spec(
            challenge_name_spec(input.identifier@),
            resp,
        ) {
            Ok(target) => (r.0 matches PipelineState::AwaitZoneAnswer { record_name }
                && record_name@ == target) && (r.1 matches PipelineAction::SendQuery { name, rtype }
                && name@ == target && rtype is Soa),
            Err(e) => r.0 == PipelineState::Finished(Err(e)) && r.1 is Stop,
        })),
        (state is AwaitZoneAnswer && event is Err) ==> r.0 == PipelineState::Finished(
            Err(PipelineError::QueryFailed(Stage::ZoneLocation, event->Err_0)),
        ) && r.1 is Stop,
        state matches PipelineState::AwaitZoneAnswer { record_name } ==> (event matches Ok(resp)
            ==> (match locate_zone_spec(resp) {
            Ok(zone) => {
                if zone_configured(config.zones@, zone) {
                    &&& r.0 is AwaitUpdateAnswer
                    &&& (r.1 matches PipelineAction::SendUpdate { credential, zone: z, record, op }
                        && credential < config.zones@.len()
                        && fold_name(config.zones@[credential as int].zone@) == fold_name(zone)
                        && z@ == zone
                        && record.owner@ == record_name@
                        && record.ttl_seconds == CHALLENGE_TTL_SECONDS
                        && record.value@ == input.proof_token@
                        && op == input.command)
                } else {
                    r.0 == PipelineState::Finished(Err(PipelineError::ZoneNotConfigured))
                        && r.1 is Stop
                }
            },
            Err(e) => r.0 == PipelineState::Finished(Err(e)) && r.1 is Stop,
        })),
        (state is AwaitUpdateAnswer && event is Err) ==> r.0 == PipelineState::Finished(
            Err(PipelineError::QueryFailed(Stage::Update, event->Err_0)),
        ) && r.1 is Stop,
        state is AwaitUpdateAnswer ==> (event matches Ok(resp) ==> r.0 == PipelineState::Finished(
            Ok(interpret_update_spec(input.command, resp.code)),
        ) && r.1 is Stop),
        state matches PipelineState::Finished(res) ==> r.0 == PipelineState::Finished(res)
            && r.1 is Stop,
{
    match state {
        PipelineState::AwaitChallengeAnswer => {
            match event {
                Err(f) => (
                    PipelineState::Finished(Err(PipelineError::QueryFailed(Stage::Resolution, f))),
                    PipelineAction::Stop,
                ),
                Ok(resp) => {
                    match resolve_challenge_record(&input.identifier, &resp) {
                        Ok(record_name) => {
                            let query_name = record_name.clone();
                            (
                                PipelineState::AwaitZoneAnswer { record_name },
                                PipelineAction::SendQuery {
                                    name: query_name,
                                    rtype: QueryType::Soa,
                                },
                            )
                        },
                        Err(e) => (PipelineState::Finished(Err(e)), PipelineAction::Stop),
                    }
                },
            }
        },
        PipelineState::AwaitZoneAnswer { record_name } => {
            match event {
                Err(f) => (
                    PipelineState::Finished(
                        Err(PipelineError::QueryFailed(Stage::ZoneLocation, f)),
                    ),
                    PipelineAction::Stop,
                ),
                Ok(resp) => {
                    match locate_zone(&resp) {
                        Ok(zone) => {
                            match find_zone_credential(config, &zone) {
                                Some(credential) => {
                                    let record = ChallengeRecord {
                                        owner: record_name,
                                        ttl_seconds: CHALLENGE_TTL_SECONDS,
                                        value: input.proof_token.clone(),
                                    };
                                    (
                                        PipelineState::AwaitUpdateAnswer,
                                        PipelineAction::SendUpdate {
                                            credential,
                                            zone,
                                            record,
                                            op: input.command,
                                        },
                                    )
                                },
                                None => (
                                    PipelineState::Finished(Err(PipelineError::ZoneNotConfigured)),
                                    PipelineAction::Stop,
                                ),
                            }
                        },
                        Err(e) => (PipelineState::Finished(Err(e)), PipelineAction::Stop),
                    }
                },
            }
        },
        PipelineState::AwaitUpdateAnswer => {
            match event {
                Err(f) => (
                    PipelineState::Finished(Err(PipelineError::QueryFailed(Stage::Update, f))),
                    PipelineAction::Stop,
                ),
                Ok(resp) => {
                    let outcome = interpret_update_response(&input.command, resp.code);
                    (PipelineState::Finished(Ok(outcome)), PipelineAction::Stop)
                },
            }
        },
        PipelineState::Finished(res) => (PipelineState::Finished(res), PipelineAction::Stop),
    }
}

/// The final result of a run, once its state is `Finished`.
pub fn pipeline_result(state: &PipelineState) -> (r: Option<Result<OperationOutcome, PipelineError>>)
    ensures
        (*state matches PipelineState::Finished(res) ==> r == Some(res)),
        !(*state is Finished) ==> r is None,
{
    match state {
        PipelineState::Finished(res) => Some(*res),
        _ => None,
    }
}

} // verus!
