use prediction_market::keys::Pubkey;
use prediction_market::registry::{
    initialize_registry, register_agent, request_proof, slash_agent, submit_proof,
    update_metadata, validate_metadata, withdraw_bond, Agent, AgentRegistryError, AgentSlashed,
    ProofRequest, ProofSubmitted, Registry, RequestProof,
};

fn id(n: u8) -> Pubkey {
    Pubkey { bytes: [n; 32] }
}

fn tags(list: &[&str]) -> Vec<String> {
    list.iter().map(|tag| String::from(*tag)).collect()
}

fn agent() -> Agent {
    Agent {
        authority: id(1),
        agent_wallet: id(2),
        name: String::from("oracle"),
        url: String::from("https://oracle.example"),
        tags: tags(&["weather"]),
        bond_lamports: 1_000,
        request_count: 0,
        pending_request: None,
        bump: 254,
    }
}

fn open_request() -> ProofRequest {
    ProofRequest {
        agent: id(10),
        requester: id(11),
        market_id: [3; 32],
        requested_at: 100,
        deadline_ts: 200,
        proof_uri: String::new(),
        log_root: [0; 32],
        signature: [0; 64],
        fulfilled: false,
        slashable: true,
        bump: 253,
    }
}

#[test]
fn penalty_is_capped_at_the_bond() {
    assert_eq!(
        initialize_registry(id(1), 1_000, 5_000, 9),
        Registry { authority: id(1), bond_lamports: 1_000, slash_penalty_lamports: 1_000, bump: 9 }
    );
    assert_eq!(initialize_registry(id(1), 1_000, 400, 9).slash_penalty_lamports, 400);
    assert_eq!(initialize_registry(id(1), 1_000, 1_000, 9).slash_penalty_lamports, 1_000);
    assert_eq!(initialize_registry(id(1), 0, 1, 9).slash_penalty_lamports, 0);
}

#[test]
fn metadata_is_refused_in_order() {
    let nine = tags(&["a", "b", "c", "d", "e", "f", "g", "h", ""]);
    assert_eq!(validate_metadata("", "", &nine), Err(AgentRegistryError::NameTooLong));
    assert_eq!(validate_metadata("n", "", &nine), Err(AgentRegistryError::UrlTooLong));
    assert_eq!(validate_metadata("n", "u", &nine), Err(AgentRegistryError::TooManyTags));
    assert_eq!(
        validate_metadata("n", "u", &tags(&["a", ""])),
        Err(AgentRegistryError::TagTooLong)
    );
    assert_eq!(validate_metadata("n", "u", &tags(&["a", "b"])), Ok(()));
    assert_eq!(validate_metadata("n", "u", &[]), Ok(()));
}

#[test]
fn metadata_limits_are_counted_in_bytes() {
    assert_eq!(validate_metadata(&"n".repeat(32), "u", &[]), Ok(()));
    assert_eq!(
        validate_metadata(&"n".repeat(33), "u", &[]),
        Err(AgentRegistryError::NameTooLong)
    );
    assert_eq!(validate_metadata(&"é".repeat(16), "u", &[]), Ok(()));
    assert_eq!(
        validate_metadata(&"é".repeat(17), "u", &[]),
        Err(AgentRegistryError::NameTooLong)
    );
    assert_eq!(validate_metadata("n", &"u".repeat(128), &[]), Ok(()));
    assert_eq!(
        validate_metadata("n", &"u".repeat(129), &[]),
        Err(AgentRegistryError::UrlTooLong)
    );
    let eight = tags(&["a", "b", "c", "d", "e", "f", "g", "h"]);
    assert_eq!(validate_metadata("n", "u", &eight), Ok(()));
    assert_eq!(validate_metadata("n", "u", &[String::from("t").repeat(24)]), Ok(()));
    assert_eq!(
        validate_metadata("n", "u", &[String::from("a"), String::from("t").repeat(25)]),
        Err(AgentRegistryError::TagTooLong)
    );
}

#[test]
fn registered_agent_owes_the_bond_and_has_no_request() {
    let registry = initialize_registry(id(9), 1_000, 400, 1);
    let registered = register_agent(
        &registry,
        id(1),
        id(2),
        String::from("oracle"),
        String::from("https://oracle.example"),
        tags(&["weather"]),
        254,
    );
    assert_eq!(registered, Ok(agent()));
    assert_eq!(
        register_agent(&registry, id(1), id(2), String::new(), String::from("u"), vec![], 254),
        Err(AgentRegistryError::NameTooLong)
    );
}

#[test]
fn update_replaces_the_description_for_the_authority_only() {
    let mut changed = agent();
    assert_eq!(
        update_metadata(&mut changed, &id(1), String::from("seer"), String::from("u"), tags(&["x", "y"])),
        Ok(())
    );
    let mut expected = agent();
    expected.name = String::from("seer");
    expected.url = String::from("u");
    expected.tags = tags(&["x", "y"]);
    assert_eq!(changed, expected);

    let mut kept = agent();
    assert_eq!(
        update_metadata(&mut kept, &id(7), String::from("seer"), String::from("u"), vec![]),
        Err(AgentRegistryError::Unauthorized)
    );
    // The description is looked at before the caller.
    assert_eq!(
        update_metadata(&mut kept, &id(7), String::new(), String::from("u"), vec![]),
        Err(AgentRegistryError::NameTooLong)
    );
    assert_eq!(kept, agent());
}

#[test]
fn request_counts_and_becomes_pending() {
    let mut asked = agent();
    let (request, event) =
        request_proof(&mut asked, id(10), id(12), id(11), [3; 32], 200, 100, 253).unwrap();
    assert_eq!(request, open_request());
    assert_eq!(
        event,
        RequestProof { agent: id(10), market_id: [3; 32], deadline_ts: 200, request: id(12) }
    );
    let mut expected = agent();
    expected.request_count = 1;
    expected.pending_request = Some(id(12));
    assert_eq!(asked, expected);
}

#[test]
fn request_refuses_a_deadline_in_the_past_and_a_full_count() {
    let mut asked = agent();
    assert_eq!(
        request_proof(&mut asked, id(10), id(12), id(11), [3; 32], 99, 100, 253),
        Err(AgentRegistryError::DeadlineInPast)
    );
    assert!(request_proof(&mut asked, id(10), id(12), id(11), [3; 32], 100, 100, 253).is_ok());
    let mut full = agent();
    full.request_count = u64::MAX;
    assert_eq!(
        request_proof(&mut full, id(10), id(12), id(11), [3; 32], 200, 100, 253),
        Err(AgentRegistryError::Overflow)
    );
    assert_eq!(full.request_count, u64::MAX);
    assert_eq!(full.pending_request, None);
}

#[test]
fn proof_closes_the_request() {
    let mut request = open_request();
    let event = submit_proof(
        &mut request,
        id(12),
        &agent(),
        id(10),
        &id(1),
        [3; 32],
        [5; 32],
        String::from("ipfs://proof"),
        [6; 64],
    );
    assert_eq!(
        event,
        Ok(ProofSubmitted {
            agent: id(10),
            market_id: [3; 32],
            request: id(12),
            proof_uri: String::from("ipfs://proof"),
            log_root: [5; 32],
        })
    );
    let mut expected = open_request();
    expected.proof_uri = String::from("ipfs://proof");
    expected.log_root = [5; 32];
    expected.signature = [6; 64];
    expected.fulfilled = true;
    expected.slashable = false;
    assert_eq!(request, expected);
}

#[test]
fn proof_is_refused_in_order() {
    let long = "p".repeat(257);
    let mut fulfilled = open_request();
    fulfilled.fulfilled = true;
    assert_eq!(
        submit_proof(&mut fulfilled, id(12), &agent(), id(99), &id(7), [4; 32], [5; 32], long, [6; 64]),
        Err(AgentRegistryError::ProofUriTooLong)
    );
    assert_eq!(
        submit_proof(
            &mut fulfilled,
            id(12),
            &agent(),
            id(99),
            &id(7),
            [4; 32],
            [5; 32],
            "p".repeat(256),
            [6; 64]
        ),
        Err(AgentRegistryError::RequestAlreadyFulfilled)
    );
    let mut request = open_request();
    assert_eq!(
        submit_proof(&mut request, id(12), &agent(), id(99), &id(7), [4; 32], [5; 32], String::new(), [6; 64]),
        Err(AgentRegistryError::InvalidRequest)
    );
    assert_eq!(
        submit_proof(&mut request, id(12), &agent(), id(10), &id(7), [4; 32], [5; 32], String::new(), [6; 64]),
        Err(AgentRegistryError::InvalidRequest)
    );
    assert_eq!(
        submit_proof(&mut request, id(12), &agent(), id(10), &id(7), [3; 32], [5; 32], String::new(), [6; 64]),
        Err(AgentRegistryError::Unauthorized)
    );
    assert_eq!(request, open_request());
}

#[test]
fn slash_takes_the_penalty_once_the_deadline_has_passed() {
    let registry = initialize_registry(id(9), 1_000, 400, 1);
    let mut request = open_request();
    assert_eq!(
        slash_agent(&registry, &mut request, id(12), id(10), 200),
        Err(AgentRegistryError::DeadlineNotReached)
    );
    assert_eq!(request, open_request());
    assert_eq!(
        slash_agent(&registry, &mut request, id(12), id(10), 201),
        Ok(AgentSlashed { agent: id(10), request: id(12), market_id: [3; 32], penalty: 400 })
    );
    assert!(request.fulfilled);
    assert!(!request.slashable);
    assert_eq!(
        slash_agent(&registry, &mut request, id(12), id(10), 300),
        Err(AgentRegistryError::NotSlashable)
    );
}

#[test]
fn slash_refuses_a_request_that_was_proved() {
    let registry = initialize_registry(id(9), 1_000, 400, 1);
    let mut request = open_request();
    submit_proof(&mut request, id(12), &agent(), id(10), &id(1), [3; 32], [5; 32], String::from("u"), [6; 64])
        .unwrap();
    assert_eq!(
        slash_agent(&registry, &mut request, id(12), id(10), 300),
        Err(AgentRegistryError::NotSlashable)
    );
    let mut odd = open_request();
    odd.fulfilled = true;
    assert_eq!(
        slash_agent(&registry, &mut odd, id(12), id(10), 300),
        Err(AgentRegistryError::RequestAlreadyFulfilled)
    );
}

#[test]
fn bond_is_withdrawn_in_full_by_the_authority_without_pending_request() {
    assert_eq!(withdraw_bond(&agent(), &id(1), 1_000), Ok(1_000));
    assert_eq!(withdraw_bond(&agent(), &id(1), 1_500), Ok(1_500));
    assert_eq!(
        withdraw_bond(&agent(), &id(1), 999),
        Err(AgentRegistryError::InsufficientVaultBalance)
    );
    assert_eq!(withdraw_bond(&agent(), &id(7), 1_000), Err(AgentRegistryError::Unauthorized));
    let mut busy = agent();
    busy.pending_request = Some(id(12));
    assert_eq!(withdraw_bond(&busy, &id(1), 1_000), Err(AgentRegistryError::ActiveRequestPresent));
    assert_eq!(withdraw_bond(&busy, &id(7), 0), Err(AgentRegistryError::Unauthorized));
}
