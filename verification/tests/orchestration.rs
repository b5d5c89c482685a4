use dns01::config::{check_unique_zones, find_zone_credential, Config, Endpoint, ZoneConfig, ZoneEntry};
use dns01::dns::{DnsRecord, DnsResponse, QueryType, RecordData, ResponseCode};
use dns01::failure::{FailureKind, PipelineError, Stage};
use dns01::name::DomainName;
use dns01::pipeline::{pipeline_result, pipeline_start, pipeline_step, PipelineAction, PipelineInput, PipelineState};
use dns01::update::{interpret_update_response, outcome_is_success, Commands, OperationOutcome};

fn name(labels: &[&str]) -> DomainName {
    DomainName { labels: labels.iter().map(|l| l.as_bytes().to_vec()).collect() }
}

fn endpoint(host: &str, port: u16) -> Endpoint {
    Endpoint { host: host.to_string(), port }
}

fn zone_entry(zone: &[&str]) -> ZoneEntry {
    ZoneEntry {
        zone: name(zone),
        config: ZoneConfig {
            primary_ns: endpoint("192.0.2.1", 53),
            tsig_name: name(&["update-key"]),
            tsig_key: vec![1, 2, 3, 4],
            tsig_algorithm: name(&["hmac-sha256"]),
        },
    }
}

fn config_with(zones: Vec<ZoneEntry>) -> Config {
    Config { resolver: endpoint("192.0.2.53", 53), zones }
}

fn input(command: Commands) -> PipelineInput {
    PipelineInput {
        command,
        identifier: name(&["example", "com"]),
        proof_token: "token-abc123".to_string(),
    }
}

fn cname_response(target: DomainName) -> DnsResponse {
    DnsResponse {
        code: ResponseCode::NoError,
        answers: vec![
            DnsRecord { owner: name(&["_acme-challenge", "example", "com"]), data: RecordData::Cname(target) },
        ],
        authority: vec![],
    }
}

fn soa_response(zone: &[&str]) -> DnsResponse {
    DnsResponse {
        code: ResponseCode::NXDomain,
        answers: vec![],
        authority: vec![DnsRecord { owner: name(zone), data: RecordData::Soa }],
    }
}

fn update_response(code: ResponseCode) -> DnsResponse {
    DnsResponse { code, answers: vec![], authority: vec![] }
}

#[test]
fn end_to_end_set_reports_success() {
    let cfg = config_with(vec![zone_entry(&["example", "org"])]);
    let inp = input(Commands::SetRecord);

    let (state, action) = pipeline_start(&inp);
    match &action {
        PipelineAction::SendQuery { name: qname, rtype } => {
            assert_eq!(qname.labels, name(&["_acme-challenge", "example", "com"]).labels);
            assert!(matches!(rtype, QueryType::Txt));
        },
        _ => panic!("expected a query"),
    }

    let target = name(&["abc123", "_acme-challenge", "example", "org"]);
    let (state, action) = pipeline_step(&inp, &cfg, state, Ok(cname_response(target)));
    match &action {
        PipelineAction::SendQuery { name: qname, rtype } => {
            assert_eq!(qname.labels, name(&["abc123", "_acme-challenge", "example", "org"]).labels);
            assert!(matches!(rtype, QueryType::Soa));
        },
        _ => panic!("expected the zone query"),
    }

    let (state, action) = pipeline_step(&inp, &cfg, state, Ok(soa_response(&["example", "org"])));
    match &action {
        PipelineAction::SendUpdate { credential, zone, record, op } => {
            assert_eq!(*credential, 0);
            assert_eq!(zone.labels, name(&["example", "org"]).labels);
            assert_eq!(record.owner.labels, name(&["abc123", "_acme-challenge", "example", "org"]).labels);
            assert_eq!(record.ttl_seconds, 60);
            assert_eq!(record.value, "token-abc123");
            assert!(matches!(op, Commands::SetRecord));
        },
        _ => panic!("expected the signed update"),
    }

    let (state, action) = pipeline_step(&inp, &cfg, state, Ok(update_response(ResponseCode::NoError)));
    assert!(matches!(action, PipelineAction::Stop));
    assert_eq!(pipeline_result(&state), Some(Ok(OperationOutcome::Success)));
    assert!(outcome_is_success(&OperationOutcome::Success));
}

#[test]
fn end_to_end_set_already_exists_is_success_with_warning() {
    let cfg = config_with(vec![zone_entry(&["example", "org"])]);
    let inp = input(Commands::SetRecord);

    let (state, _) = pipeline_start(&inp);
    let target = name(&["abc123", "_acme-challenge", "example", "org"]);
    let (state, _) = pipeline_step(&inp, &cfg, state, Ok(cname_response(target)));
    let (state, _) = pipeline_step(&inp, &cfg, state, Ok(soa_response(&["example", "org"])));
    let (state, action) = pipeline_step(&inp, &cfg, state, Ok(update_response(ResponseCode::YXRRSet)));

    assert!(matches!(action, PipelineAction::Stop));
    assert_eq!(pipeline_result(&state), Some(Ok(OperationOutcome::AlreadyExists)));
    // already-exists counts as success, not as an error
    assert!(outcome_is_success(&OperationOutcome::AlreadyExists));
}

#[test]
fn unset_against_unconfigured_zone_fails_before_any_update_is_sent() {
    // no credential for example.org: the run ends at zone location, and no
    // update action towards the primary server is ever produced
    let cfg = config_with(vec![zone_entry(&["example", "net"])]);
    let inp = input(Commands::UnsetRecord);

    let (state, _) = pipeline_start(&inp);
    let target = name(&["abc123", "_acme-challenge", "example", "org"]);
    let (state, _) = pipeline_step(&inp, &cfg, state, Ok(cname_response(target)));
    let (state, action) = pipeline_step(&inp, &cfg, state, Ok(soa_response(&["example", "org"])));

    assert!(matches!(action, PipelineAction::Stop));
    assert_eq!(pipeline_result(&state), Some(Err(PipelineError::ZoneNotConfigured)));
}

#[test]
fn unset_reports_success_on_noerror() {
    let cfg = config_with(vec![zone_entry(&["example", "org"])]);
    let inp = input(Commands::UnsetRecord);

    let (state, _) = pipeline_start(&inp);
    let target = name(&["abc123", "_acme-challenge", "example", "org"]);
    let (state, _) = pipeline_step(&inp, &cfg, state, Ok(cname_response(target)));
    let (state, action) = pipeline_step(&inp, &cfg, state, Ok(soa_response(&["example", "org"])));
    match &action {
        PipelineAction::SendUpdate { op, .. } => assert!(matches!(op, Commands::UnsetRecord)),
        _ => panic!("expected the signed update"),
    }
    let (state, _) = pipeline_step(&inp, &cfg, state, Ok(update_response(ResponseCode::NoError)));
    assert_eq!(pipeline_result(&state), Some(Ok(OperationOutcome::Success)));
}

#[test]
fn a_failed_exchange_names_its_stage() {
    let cfg = config_with(vec![zone_entry(&["example", "org"])]);
    let inp = input(Commands::SetRecord);

    let (state, _) = pipeline_start(&inp);
    let (state, _) = pipeline_step(&inp, &cfg, state, Err(FailureKind::Timeout));
    assert_eq!(
        pipeline_result(&state),
        Some(Err(PipelineError::QueryFailed(Stage::Resolution, FailureKind::Timeout)))
    );

    let (state2, _) = pipeline_start(&inp);
    let target = name(&["abc123", "_acme-challenge", "example", "org"]);
    let (state2, _) = pipeline_step(&inp, &cfg, state2, Ok(cname_response(target)));
    let (state2, _) = pipeline_step(&inp, &cfg, state2, Err(FailureKind::MalformedResponse));
    assert_eq!(
        pipeline_result(&state2),
        Some(Err(PipelineError::QueryFailed(Stage::ZoneLocation, FailureKind::MalformedResponse)))
    );

    let (state3, _) = pipeline_start(&inp);
    let target = name(&["abc123", "_acme-challenge", "example", "org"]);
    let (state3, _) = pipeline_step(&inp, &cfg, state3, Ok(cname_response(target)));
    let (state3, _) = pipeline_step(&inp, &cfg, state3, Ok(soa_response(&["example", "org"])));
    let (state3, _) = pipeline_step(&inp, &cfg, state3, Err(FailureKind::Io));
    assert_eq!(
        pipeline_result(&state3),
        Some(Err(PipelineError::QueryFailed(Stage::Update, FailureKind::Io)))
    );
}

#[test]
fn rejected_update_codes_surface_as_rejections() {
    assert_eq!(
        interpret_update_response(&Commands::SetRecord, ResponseCode::Refused),
        OperationOutcome::Rejected(ResponseCode::Refused)
    );
    assert_eq!(
        interpret_update_response(&Commands::UnsetRecord, ResponseCode::ServFail),
        OperationOutcome::Rejected(ResponseCode::ServFail)
    );
    assert_eq!(
        interpret_update_response(&Commands::UnsetRecord, ResponseCode::NXRRSet),
        OperationOutcome::NoSuchRecordSet
    );
    assert!(!outcome_is_success(&OperationOutcome::Rejected(ResponseCode::Refused)));
    assert!(!outcome_is_success(&OperationOutcome::NoSuchRecordSet));
}

#[test]
fn zone_lookup_folds_ascii_case() {
    let cfg = config_with(vec![zone_entry(&["EXAMPLE", "Org"])]);
    let found = find_zone_credential(&cfg, &name(&["example", "org"]));
    assert_eq!(found, Some(0));
    let missing = find_zone_credential(&cfg, &name(&["example", "com"]));
    assert_eq!(missing, None);
}

#[test]
fn duplicate_zone_keys_are_rejected() {
    let cfg = config_with(vec![zone_entry(&["example", "org"]), zone_entry(&["Example", "ORG"])]);
    assert!(!check_unique_zones(&cfg));
    let ok = config_with(vec![zone_entry(&["example", "org"]), zone_entry(&["example", "net"])]);
    assert!(check_unique_zones(&ok));
}
