use vstd::prelude::*;
use vstd::string::StringSliceAdditionalSpecFns;
use vstd::utf8::encode_utf8;
use crate::keys::{same_bytes, Pubkey};

verus! {

/// The longest name of an agent, in bytes.
pub const MAX_NAME: usize = 32;

/// The longest address of an agent's service, in bytes.
pub const MAX_URL: usize = 128;

/// The largest number of tags an agent may carry.
pub const MAX_TAGS: usize = 8;

/// The longest tag, in bytes.
pub const MAX_TAG_LEN: usize = 24;

/// The longest address of a proof, in bytes.
pub const MAX_PROOF_URI: usize = 256;

/// Why an operation on the registry was refused. Every refusal leaves things as they
/// were.
#[derive(Clone, Copy, Debug, PartialEq, Eq, Structural)]
pub enum AgentRegistryError {
    /// The name is empty or longer than `MAX_NAME` bytes.
    NameTooLong,
    /// The address is empty or longer than `MAX_URL` bytes.
    UrlTooLong,
    /// There are more than `MAX_TAGS` tags.
    TooManyTags,
    /// A tag is empty or longer than `MAX_TAG_LEN` bytes.
    TagTooLong,
    /// The caller is not the agent's authority.
    Unauthorized,
    /// The deadline lies before the current time.
    DeadlineInPast,
    /// The count of requests does not fit.
    Overflow,
    /// The request was fulfilled before.
    RequestAlreadyFulfilled,
    /// The request is not one of this agent for this market.
    InvalidRequest,
    /// The request cannot be slashed for.
    NotSlashable,
    /// The deadline has not passed.
    DeadlineNotReached,
    /// The agent has a request pending.
    ActiveRequestPresent,
    /// The vault holds less than the bond.
    InsufficientVaultBalance,
    /// The address of the proof is longer than `MAX_PROOF_URI` bytes.
    ProofUriTooLong,
}

/// The terms under which agents register: the bond each one posts and the part of it
/// that is taken for a missed proof.
#[derive(Clone, Copy, Debug, PartialEq, Eq)]
pub struct Registry {
    pub authority: Pubkey,
    pub bond_lamports: u64,
    pub slash_penalty_lamports: u64,
    pub bump: u8,
}

/// A registered agent.
#[derive(Clone, Debug, PartialEq, Eq)]
pub struct Agent {
    pub authority: Pubkey,
    pub agent_wallet: Pubkey,
    pub name: String,
    pub url: String,
    pub tags: Vec<String>,
    pub bond_lamports: u64,
    pub request_count: u64,
    pub pending_request: Option<Pubkey>,
    pub bump: u8,
}

/// A request that an agent prove how it came to its claim on a market.
#[derive(Clone, Debug, PartialEq, Eq)]
pub struct ProofRequest {
    pub agent: Pubkey,
    pub requester: Pubkey,
    pub market_id: [u8; 32],
    pub requested_at: i64,
    pub deadline_ts: i64,
    pub proof_uri: String,
    pub log_root: [u8; 32],
    pub signature: [u8; 64],
    pub fulfilled: bool,
    pub slashable: bool,
    pub bump: u8,
}

/// Told when a proof was requested.
#[derive(Clone, Copy, Debug, PartialEq, Eq)]
pub struct RequestProof {
    pub agent: Pubkey,
    pub market_id: [u8; 32],
    pub deadline_ts: i64,
    pub request: Pubkey,
}

/// Told when a proof was submitted.
#[derive(Clone, Debug, PartialEq, Eq)]
pub struct ProofSubmitted {
    pub agent: Pubkey,
    pub market_id: [u8; 32],
    pub request: Pubkey,
    pub proof_uri: String,
    pub log_root: [u8; 32],
}

/// Told when an agent was slashed: `penalty` is owed from the agent's vault to the
/// registry's authority.
#[derive(Clone, Copy, Debug, PartialEq, Eq)]
pub struct AgentSlashed {
    pub agent: Pubkey,
    pub request: Pubkey,
    pub market_id: [u8; 32],
    pub penalty: u64,
}

/// The length of a text in bytes.
pub open spec fn text_len(text: Seq<char>) -> nat {
    encode_utf8(text).len()
}

/// Whether a text is not empty and at most `max` bytes long.
pub open spec fn text_fits(text: Seq<char>, max: usize) -> bool {
    0 < text_len(text) <= max
}

/// Whether every tag is not empty and at most `MAX_TAG_LEN` bytes long.
pub open spec fn tags_fit(tags: Seq<String>) -> bool {
    forall|i: int| 0 <= i < tags.len() ==> text_fits(#[trigger] tags[i]@, MAX_TAG_LEN)
}

/// What the description of an agent is refused for, in the order in which it is looked
/// at: the name, the address, the number of tags, the tags.
pub open spec fn validate_metadata_spec(name: Seq<char>, url: Seq<char>, tags: Seq<String>)
    -> Result<(), AgentRegistryError> {
    if !text_fits(name, MAX_NAME) {
        Err(AgentRegistryError::NameTooLong)
    } else if !text_fits(url, MAX_URL) {
        Err(AgentRegistryError::UrlTooLong)
    } else if tags.len() > MAX_TAGS {
        Err(AgentRegistryError::TooManyTags)
    } else if !tags_fit(tags) {
        Err(AgentRegistryError::TagTooLong)
    } else {
        Ok(())
    }
}

/// The smaller of two amounts.
pub open spec fn smaller(a: u64, b: u64) -> u64 {
    if a <= b {
        a
    } else {
        b
    }
}

/// Whether a text is not empty and at most `max` bytes long.
fn fits(text: &str, max: usize) -> (ok: bool)
    ensures
        ok == text_fits(text@, max),
{
    let len = text.as_bytes().len();
    0 < len && len <= max
}

/// Validates the description of an agent: the name is not empty and at most 32 bytes
/// long, the address not empty and at most 128 bytes long, there are at most 8 tags, and
/// each tag is not empty and at most 24 bytes long.
pub fn validate_metadata(name: &str, url: &str, tags: &[String]) -> (res: Result<
    (),
    AgentRegistryError,
>)
    ensures
        res == validate_metadata_spec(name@, url@, tags@),
{
    if !fits(name, MAX_NAME) {
        return Err(AgentRegistryError::NameTooLong);
    }
    if !fits(url, MAX_URL) {
        return Err(AgentRegistryError::UrlTooLong);
    }
    if tags.len() > MAX_TAGS {
        return Err(AgentRegistryError::TooManyTags);
    }
    let mut i: usize = 0;
    while i < tags.len()
        invariant
            i <= tags.len(),
            text_fits(name@, MAX_NAME),
            text_fits(url@, MAX_URL),
            tags.len() <= MAX_TAGS,
            forall|j: int| 0 <= j < i ==> text_fits(#[trigger] tags@[j]@, MAX_TAG_LEN),
        decreases tags.len() - i,
    {
        if !fits(tags[i].as_str(), MAX_TAG_LEN) {
            assert(!text_fits(tags@[i as int]@, MAX_TAG_LEN));
            return Err(AgentRegistryError::TagTooLong);
        }
        i = i + 1;
    }
    Ok(())
}

/// Sets up a registry. The penalty for a missed proof is capped at the bond.
pub fn initialize_registry(
    authority: Pubkey,
    bond_lamports: u64,
    slash_penalty_lamports: u64,
    bump: u8,
) -> (registry: Registry)
    ensures
        registry == (Registry {
            authority: authority,
            bond_lamports: bond_lamports,
            slash_penalty_lamports: smaller(slash_penalty_lamports, bond_lamports),
            bump: bump,
        }),
        registry.slash_penalty_lamports <= registry.bond_lamports,
{
    let slash_penalty_lamports = if slash_penalty_lamports <= bond_lamports {
        slash_penalty_lamports
    } else {
        bond_lamports
    };
    Registry { authority, bond_lamports, slash_penalty_lamports, bump }
}

/// Registers an agent under the terms of `registry`. The new agent owes the registry's
/// bond, has had no request and has none pending. A description that does not validate is
/// refused with the error of `validate_metadata`.
pub fn register_agent(
    registry: &Registry,
    payer: Pubkey,
    agent_wallet: Pubkey,
    name: String,
    url: String,
    tags: Vec<String>,
    bump: u8,
) -> (res: Result<Agent, AgentRegistryError>)
    ensures
        match res {
            Ok(agent) => {
                &&& validate_metadata_spec(name@, url@, tags@) is Ok
                &&& agent == (Agent {
                    authority: payer,
                    agent_wallet: agent_wallet,
                    name: name,
                    url: url,
                    tags: tags,
                    bond_lamports: registry.bond_lamports,
                    request_count: 0,
                    pending_request: None,
                    bump: bump,
                })
            },
            Err(e) => validate_metadata_spec(name@, url@, tags@) == Err::<(), AgentRegistryError>(e),
        },
{
    validate_metadata(name.as_str(), url.as_str(), tags.as_slice())?;
    Ok(
        Agent {
            authority: payer,
            agent_wallet,
            name,
            url,
            tags,
            bond_lamports: registry.bond_lamports,
            request_count: 0,
            pending_request: None,
            bump,
        },
    )
}

/// What a change of an agent's description is refused for: a description that does not
/// validate first, then a caller who is not the agent's authority.
pub open spec fn update_metadata_spec(
    agent: Agent,
    authority: Pubkey,
    name: String,
    url: String,
    tags: Vec<String>,
) -> Result<Agent, AgentRegistryError> {
    match validate_metadata_spec(name@, url@, tags@) {
        Err(e) => Err(e),
        Ok(_) => if agent.authority@ != authority@ {
            Err(AgentRegistryError::Unauthorized)
        } else {
            Ok(Agent { name: name, url: url, tags: tags, ..agent })
        },
    }
}

/// Replaces the description of an agent on behalf of `authority`. On failure the agent is
/// as it was.
pub fn update_metadata(
    agent: &mut Agent,
    authority: &Pubkey,
    name: String,
    url: String,
    tags: Vec<String>,
) -> (res: Result<(), AgentRegistryError>)
    ensures
        match res {
            Ok(_) => update_metadata_spec(*old(agent), *authority, name, url, tags) == Ok::<
                Agent,
                AgentRegistryError,
            >(*final(agent)),
            Err(e) => {
                &&& update_metadata_spec(*old(agent), *authority, name, url, tags) == Err::<
                    Agent,
                    AgentRegistryError,
                >(e)
                &&& *final(agent) == *old(agent)
            },
        },
{
    validate_metadata(name.as_str(), url.as_str(), tags.as_slice())?;
    if agent.authority != *authority {
        return Err(AgentRegistryError::Unauthorized);
    }
    agent.name = name;
    agent.url = url;
    agent.tags = tags;
    Ok(())
}

/// The request that is opened for `agent_key` on `market_id`: not fulfilled, slashable,
/// without a proof.
pub open spec fn new_request(
    agent_key: Pubkey,
    requester: Pubkey,
    market_id: [u8; 32],
    deadline_ts: i64,
    now: i64,
    bump: u8,
    request: ProofRequest,
) -> bool {
    &&& request.agent == agent_key
    &&& request.requester == requester
    &&& request.market_id == market_id
    &&& request.requested_at == now
    &&& request.deadline_ts == deadline_ts
    &&& request.proof_uri@ == Seq::<char>::empty()
    &&& request.log_root@ == Seq::new(32, |i: int| 0u8)
    &&& request.signature@ == Seq::new(64, |i: int| 0u8)
    &&& !request.fulfilled
    &&& request.slashable
    &&& request.bump == bump
}

/// Opens a request at `request_key` that the agent at `agent_key` prove its claim on
/// `market_id` by `deadline_ts`. The deadline must not lie before `now`, else
/// `DeadlineInPast`; the agent's count of requests must not overflow, else `Overflow`. On
/// success the agent has one request more and this one pending; on failure the agent is
/// as it was.
pub fn request_proof(
    agent: &mut Agent,
    agent_key: Pubkey,
    request_key: Pubkey,
    requester: Pubkey,
    market_id: [u8; 32],
    deadline_ts: i64,
    now: i64,
    bump: u8,
) -> (res: Result<(ProofRequest, RequestProof), AgentRegistryError>)
    ensures
        match res {
            Ok((request, event)) => {
                &&& deadline_ts >= now
                &&& old(agent).request_count < u64::MAX
                &&& new_request(agent_key, requester, market_id, deadline_ts, now, bump, request)
                &&& *final(agent) == (Agent {
                    request_count: (old(agent).request_count + 1) as u64,
                    pending_request: Some(request_key),
                    ..*old(agent)
                })
                &&& event == (RequestProof {
                    agent: agent_key,
                    market_id: market_id,
                    deadline_ts: deadline_ts,
                    request: request_key,
                })
            },
            Err(e) => {
                &&& *final(agent) == *old(agent)
                &&& e == if deadline_ts < now {
                    AgentRegistryError::DeadlineInPast
                } else {
                    AgentRegistryError::Overflow
                }
                &&& deadline_ts < now || old(agent).request_count == u64::MAX
            },
        },
{
    if deadline_ts < now {
        return Err(AgentRegistryError::DeadlineInPast);
    }
    let request_count = match agent.request_count.checked_add(1) {
        Some(count) => count,
        None => {
            return Err(AgentRegistryError::Overflow);
        },
    };
    let request = ProofRequest {
        agent: agent_key,
        requester,
        market_id,
        requested_at: now,
        deadline_ts,
        proof_uri: String::new(),
        log_root: [0u8; 32],
        signature: [0u8; 64],
        fulfilled: false,
        slashable: true,
        bump,
    };
    proof {
        assert(request.log_root@ =~= Seq::new(32, |i: int| 0u8));
        assert(request.signature@ =~= Seq::new(64, |i: int| 0u8));
    }
    agent.request_count = request_count;
    agent.pending_request = Some(request_key);
    Ok((request, RequestProof { agent: agent_key, market_id, deadline_ts, request: request_key }))
}

/// The request after a proof was submitted for it. The checks come in this order: the
/// length of the proof's address, whether the request is still open, whether it is this
/// agent's, whether it is for this market, whether the caller is the agent's authority.
pub open spec fn submit_proof_spec(
    request: ProofRequest,
    agent: Agent,
    agent_key: Pubkey,
    authority: Pubkey,
    market_id: [u8; 32],
    log_root: [u8; 32],
    proof_uri: String,
    signature: [u8; 64],
) -> Result<ProofRequest, AgentRegistryError> {
    if text_len(proof_uri@) > MAX_PROOF_URI {
        Err(AgentRegistryError::ProofUriTooLong)
    } else if request.fulfilled {
        Err(AgentRegistryError::RequestAlreadyFulfilled)
    } else if request.agent@ != agent_key@ {
        Err(AgentRegistryError::InvalidRequest)
    } else if request.market_id@ != market_id@ {
        Err(AgentRegistryError::InvalidRequest)
    } else if agent.authority@ != authority@ {
        Err(AgentRegistryError::Unauthorized)
    } else {
        Ok(
            ProofRequest {
                proof_uri: proof_uri,
                log_root: log_root,
                signature: signature,
                fulfilled: true,
                slashable: false,
                ..request
            },
        )
    }
}

/// Submits the proof for a request on behalf of `authority`. On success the request
/// carries the proof, is fulfilled and can no longer be slashed for; on failure it is as
/// it was.
pub fn submit_proof(
    request: &mut ProofRequest,
    request_key: Pubkey,
    agent: &Agent,
    agent_key: Pubkey,
    authority: &Pubkey,
    market_id: [u8; 32],
    log_root: [u8; 32],
    proof_uri: String,
    signature: [u8; 64],
) -> (res: Result<ProofSubmitted, AgentRegistryError>)
    ensures
        match res {
            Ok(event) => {
                &&& submit_proof_spec(
                    *old(request),
                    *agent,
                    agent_key,
                    *authority,
                    market_id,
                    log_root,
                    proof_uri,
                    signature,
                ) == Ok::<ProofRequest, AgentRegistryError>(*final(request))
                &&& event.agent == agent_key
                &&& event.market_id == market_id
                &&& event.request == request_key
                &&& event.proof_uri@ == proof_uri@
                &&& event.log_root == log_root
            },
            Err(e) => {
                &&& submit_proof_spec(
                    *old(request),
                    *agent,
                    agent_key,
                    *authority,
                    market_id,
                    log_root,
                    proof_uri,
                    signature,
                ) == Err::<ProofRequest, AgentRegistryError>(e)
                &&& *final(request) == *old(request)
            },
        },
{
    if proof_uri.as_str().as_bytes().len() > MAX_PROOF_URI {
        return Err(AgentRegistryError::ProofUriTooLong);
    }
    if request.fulfilled {
        return Err(AgentRegistryError::RequestAlreadyFulfilled);
    }
    if request.agent != agent_key {
        return Err(AgentRegistryError::InvalidRequest);
    }
    if !same_bytes(&request.market_id, &market_id) {
        return Err(AgentRegistryError::InvalidRequest);
    }
    if agent.authority != *authority {
        return Err(AgentRegistryError::Unauthorized);
    }
    let event = ProofSubmitted {
        agent: agent_key,
        market_id,
        request: request_key,
        proof_uri: proof_uri.clone(),
        log_root,
    };
    request.proof_uri = proof_uri;
    request.log_root = log_root;
    request.signature = signature;
    request.fulfilled = true;
    request.slashable = false;
    Ok(event)
}

/// The request after the agent was slashed for it. A request that cannot be slashed for
/// is refused first, then one that was fulfilled, then one whose deadline has not passed.
pub open spec fn slash_agent_spec(request: ProofRequest, now: i64) -> Result<
    ProofRequest,
    AgentRegistryError,
> {
    if !request.slashable {
        Err(AgentRegistryError::NotSlashable)
    } else if request.fulfilled {
        Err(AgentRegistryError::RequestAlreadyFulfilled)
    } else if now <= request.deadline_ts {
        Err(AgentRegistryError::DeadlineNotReached)
    } else {
        Ok(ProofRequest { slashable: false, fulfilled: true, ..request })
    }
}

/// Slashes the agent at `agent_key` for a request whose deadline passed without a proof.
/// On success the request is closed, so that it cannot be slashed for twice, and the
/// event names the penalty that is owed; on failure the request is as it was.
pub fn slash_agent(
    registry: &Registry,
    request: &mut ProofRequest,
    request_key: Pubkey,
    agent_key: Pubkey,
    now: i64,
) -> (res: Result<AgentSlashed, AgentRegistryError>)
    ensures
        match res {
            Ok(event) => {
                &&& slash_agent_spec(*old(request), now) == Ok::<ProofRequest, AgentRegistryError>(
                    *final(request),
                )
                &&& event == (AgentSlashed {
                    agent: agent_key,
                    request: request_key,
                    market_id: old(request).market_id,
                    penalty: registry.slash_penalty_lamports,
                })
            },
            Err(e) => {
                &&& slash_agent_spec(*old(request), now) == Err::<ProofRequest, AgentRegistryError>(
                    e,
                )
                &&& *final(request) == *old(request)
            },
        },
{
    if !request.slashable {
        return Err(AgentRegistryError::NotSlashable);
    }
    if request.fulfilled {
        return Err(AgentRegistryError::RequestAlreadyFulfilled);
    }
    if now <= request.deadline_ts {
        return Err(AgentRegistryError::DeadlineNotReached);
    }
    request.slashable = false;
    request.fulfilled = true;
    Ok(
        AgentSlashed {
            agent: agent_key,
            request: request_key,
            market_id: request.market_id,
            penalty: registry.slash_penalty_lamports,
        },
    )
}

/// What is paid out when an agent withdraws its bond: all that the vault holds. A caller
/// who is not the agent's authority is refused first, then an agent with a request
/// pending, then a vault that holds less than the bond.
pub open spec fn withdraw_bond_spec(agent: Agent, authority: Pubkey, vault_lamports: u64)
    -> Result<u64, AgentRegistryError> {
    if agent.authority@ != authority@ {
        Err(AgentRegistryError::Unauthorized)
    } else if agent.pending_request is Some {
        Err(AgentRegistryError::ActiveRequestPresent)
    } else if vault_lamports < agent.bond_lamports {
        Err(AgentRegistryError::InsufficientVaultBalance)
    } else {
        Ok(vault_lamports)
    }
}

/// Decides the withdrawal of an agent's bond from a vault that holds `vault_lamports`,
/// on behalf of `authority`. Returns the amount that is owed to the authority.
pub fn withdraw_bond(agent: &Agent, authority: &Pubkey, vault_lamports: u64) -> (res: Result<
    u64,
    AgentRegistryError,
>)
    ensures
        res == withdraw_bond_spec(*agent, *authority, vault_lamports),
{
    if agent.authority != *authority {
        return Err(AgentRegistryError::Unauthorized);
    }
    if agent.pending_request.is_some() {
        return Err(AgentRegistryError::ActiveRequestPresent);
    }
    if vault_lamports < agent.bond_lamports {
        return Err(AgentRegistryError::InsufficientVaultBalance);
    }
    Ok(vault_lamports)
}

/// A request is paid for at most once: after a slash or a proof, the request refuses
/// every further slash, and after a slash every further proof.
pub proof fn law_request_is_closed_once(
    request: ProofRequest,
    now: i64,
    later: i64,
    closed: ProofRequest,
    agent: Agent,
    agent_key: Pubkey,
    authority: Pubkey,
    market_id: [u8; 32],
    log_root: [u8; 32],
    proof_uri: String,
    signature: [u8; 64],
)
    requires
        slash_agent_spec(request, now) == Ok::<ProofRequest, AgentRegistryError>(closed)
            || submit_proof_spec(
            request,
            agent,
            agent_key,
            authority,
            market_id,
            log_root,
            proof_uri,
            signature,
        ) == Ok::<ProofRequest, AgentRegistryError>(closed),
    ensures
        closed.fulfilled && !closed.slashable,
        slash_agent_spec(closed, later) == Err::<ProofRequest, AgentRegistryError>(
            AgentRegistryError::NotSlashable,
        ),
        submit_proof_spec(
            closed,
            agent,
            agent_key,
            authority,
            market_id,
            log_root,
            proof_uri,
            signature,
        ) is Err,
{
}

} // verus!
