use crate::hex::{hex_body, hex_value, is_scalar_hex, parse_scalar};
use crate::models::ApiResponse;
use crate::scalar::Scalar;
use vstd::prelude::*;
use vstd::string::StringSliceAdditionalSpecFns;

verus! {

/// Address of the deployed game contract.
pub const CONTRACT_ADDRESS: &'static str = "0x2c5ecb4bd05fb50fc0da17a804a4e9fa22272796c4e942b5d45d5513ea3888e";

/// Failures of the contract client.
#[derive(Clone, Debug, PartialEq, Eq)]
pub enum ClientError {
    /// A sender address or private key is not a hex literal of a field element.
    InvalidCredentialFormat,
    /// The configured contract address is not a hex literal of a field element.
    InvalidContractAddress,
    /// A method name holds a non-ASCII character, so it has no selector.
    NonAsciiMethodName,
    /// The node could not be reached, or it failed the request.
    NetworkError,
    /// The sender address has no account on chain.
    AccountNotFound,
    /// The node refused the transaction; the reason as the node gave it.
    SubmissionRejected(String),
    /// A query returned fewer values than its shape needs.
    MalformedResponse,
    /// The call's arguments break a rule of the endpoint.
    InvalidArguments,
}

/// The Starknet Keccak selector of a method name, as 32 big-endian bytes.
pub uninterp spec fn selector_of(name: Seq<u8>) -> Seq<u8>;

/// Relies on `starknet::core::utils::get_selector_from_name`: it fails exactly
/// on names with a non-ASCII byte, and otherwise returns a field element that
/// depends on the name alone; and on `Felt::to_bytes_be` for its encoding.
#[verifier::external_body]
fn selector_bytes(name: &str) -> (r: Option<[u8; 32]>)
    ensures
        r is Some <==> name.is_ascii(),
        r is Some ==> r->0@ == selector_of(name.spec_bytes()),
        r is Some ==> crate::scalar::be_value(r->0@) < crate::scalar::field_prime(),
{
    match starknet::core::utils::get_selector_from_name(name) {
        Ok(f) => Some(f.to_bytes_be()),
        Err(_) => None,
    }
}

/// What a selector derivation from `name` gives: the selector of the name when
/// it is ASCII, and `NonAsciiMethodName` otherwise.
pub open spec fn selects(name: &str, r: Result<Scalar, ClientError>) -> bool {
    &&& r is Ok <==> name.is_ascii()
    &&& r is Ok ==> r->Ok_0.wf() && r->Ok_0.to_bytes_spec() == selector_of(name.spec_bytes())
    &&& r is Err ==> r->Err_0 == ClientError::NonAsciiMethodName
}

/// The entry-point selector of a method: total on ASCII names, and a function
/// of the name alone, whether or not the contract has such a method.
pub fn method_selector(name: &str) -> (r: Result<Scalar, ClientError>)
    ensures
        selects(name, r),
{
    match selector_bytes(name) {
        Some(b) => Ok(Scalar::from_encoding(b)),
        None => Err(ClientError::NonAsciiMethodName),
    }
}

/// The number a hex literal stands for.
pub open spec fn hex_number(s: Seq<u8>) -> nat {
    hex_value(hex_body(s))
}

/// The sender's identity: an account address and the key that signs for it.
#[derive(Clone, Copy, Debug, PartialEq, Eq)]
pub struct Credentials {
    pub sender_address: Scalar,
    pub private_key: Scalar,
}

impl Credentials {
    /// Reads both values from hex; each must be a field element.
    pub fn new(sender_address: &str, private_key: &str) -> (r: Result<Credentials, ClientError>)
        ensures
            r is Ok <==> is_scalar_hex(sender_address.spec_bytes()) && is_scalar_hex(
                private_key.spec_bytes(),
            ),
            r is Ok ==> r->Ok_0.wf() && r->Ok_0.sender_address.value() == hex_number(
                sender_address.spec_bytes(),
            ) && r->Ok_0.private_key.value() == hex_number(private_key.spec_bytes()),
            r is Err ==> r->Err_0 == ClientError::InvalidCredentialFormat,
    {
        match (parse_scalar(sender_address), parse_scalar(private_key)) {
            (Some(a), Some(k)) => Ok(Credentials { sender_address: a, private_key: k }),
            _ => Err(ClientError::InvalidCredentialFormat),
        }
    }

    pub open spec fn wf(&self) -> bool {
        self.sender_address.wf() && self.private_key.wf()
    }
}

/// One call of a contract entry point.
#[derive(Clone, Debug, PartialEq, Eq)]
pub struct ContractCall {
    pub to: Scalar,
    pub selector: Scalar,
    pub calldata: Vec<Scalar>,
}

/// The contract's address, read from its hex form.
pub fn contract_address() -> (r: Result<Scalar, ClientError>)
    ensures
        r is Ok <==> is_scalar_hex(CONTRACT_ADDRESS.spec_bytes()),
        r is Ok ==> r->Ok_0.wf() && r->Ok_0.value() == hex_number(CONTRACT_ADDRESS.spec_bytes()),
        r is Err ==> r->Err_0 == ClientError::InvalidContractAddress,
{
    match parse_scalar(CONTRACT_ADDRESS) {
        Some(a) => Ok(a),
        None => Err(ClientError::InvalidContractAddress),
    }
}

/// The call of `method` on the contract with the given arguments.
pub fn contract_call(method: &str, calldata: Vec<Scalar>) -> (r: Result<ContractCall, ClientError>)
    ensures
        r is Ok <==> is_scalar_hex(CONTRACT_ADDRESS.spec_bytes()) && method.is_ascii(),
        r is Ok ==> r->Ok_0.to.value() == hex_number(CONTRACT_ADDRESS.spec_bytes()) && r->Ok_0.to.wf()
            && r->Ok_0.selector.to_bytes_spec() == selector_of(method.spec_bytes())
            && r->Ok_0.selector.wf() && r->Ok_0.calldata@ == calldata@,
        !is_scalar_hex(CONTRACT_ADDRESS.spec_bytes()) ==> r == Err::<ContractCall, _>(
            ClientError::InvalidContractAddress,
        ),
        is_scalar_hex(CONTRACT_ADDRESS.spec_bytes()) && !method.is_ascii() ==> r == Err::<
            ContractCall,
            _,
        >(ClientError::NonAsciiMethodName),
{
    let to = match contract_address() {
        Ok(a) => a,
        Err(e) => return Err(e),
    };
    let selector = match method_selector(method) {
        Ok(s) => s,
        Err(e) => return Err(e),
    };
    Ok(ContractCall { to, selector, calldata })
}

/// Where a state-changing call stands.
#[derive(Clone, Copy, Debug)]
pub enum Phase {
    /// The account's nonce is to be fetched from the node.
    AwaitingNonce,
    /// The call was signed with this nonce and handed to the node.
    AwaitingOutcome { nonce: Scalar },
    /// The outcome was reported.
    Finished,
}

/// What the node answered to the last action.
#[derive(Clone, Debug)]
pub enum NodeEvent {
    NonceFetched(Scalar),
    AccountMissing,
    TransportFailed,
    Accepted,
    Rejected(String),
}

/// What the caller is to do next.
#[derive(Debug)]
pub enum Action {
    /// Ask the node for the sender's current nonce.
    FetchNonce,
    /// Sign the call with this nonce and submit it.
    Submit { nonce: Scalar },
    /// The call is over: report this outcome.
    Report(Result<(), ClientError>),
    /// Nothing is left to do.
    Idle,
}

pub open spec fn next_phase(phase: Phase, event: NodeEvent) -> Phase {
    match phase {
        Phase::AwaitingNonce => match event {
            NodeEvent::NonceFetched(n) => Phase::AwaitingOutcome { nonce: n },
            NodeEvent::AccountMissing => Phase::Finished,
            NodeEvent::TransportFailed => Phase::Finished,
            _ => phase,
        },
        Phase::AwaitingOutcome { nonce } => match event {
            NodeEvent::Accepted => Phase::Finished,
            NodeEvent::Rejected(_) => Phase::Finished,
            NodeEvent::TransportFailed => Phase::Finished,
            _ => phase,
        },
        Phase::Finished => Phase::Finished,
    }
}

pub open spec fn next_action(phase: Phase, event: NodeEvent) -> Action {
    match phase {
        Phase::AwaitingNonce => match event {
            NodeEvent::NonceFetched(n) => Action::Submit { nonce: n },
            NodeEvent::AccountMissing => Action::Report(Err(ClientError::AccountNotFound)),
            NodeEvent::TransportFailed => Action::Report(Err(ClientError::NetworkError)),
            _ => Action::FetchNonce,
        },
        Phase::AwaitingOutcome { nonce } => match event {
            NodeEvent::Accepted => Action::Report(Ok(())),
            NodeEvent::Rejected(reason) => Action::Report(
                Err(ClientError::SubmissionRejected(reason)),
            ),
            NodeEvent::TransportFailed => Action::Report(Err(ClientError::NetworkError)),
            _ => Action::Submit { nonce },
        },
        Phase::Finished => Action::Idle,
    }
}

/// Selector derivation is pure and total: any two derivations from one ASCII
/// name succeed and give the same selector, whether or not the contract has a
/// method of that name; a rejection can only come from the node.
pub proof fn lemma_selector_deterministic(
    name: &str,
    first: Result<Scalar, ClientError>,
    second: Result<Scalar, ClientError>,
)
    requires
        name.is_ascii(),
        selects(name, first),
        selects(name, second),
    ensures
        first is Ok,
        second is Ok,
        first->Ok_0.to_bytes_spec() == second->Ok_0.to_bytes_spec(),
        first->Ok_0.value() == second->Ok_0.value(),
{
    crate::scalar::lemma_value_of_encoding(first->Ok_0, second->Ok_0);
}

/// The nonce that an action submits, if it submits one.
pub open spec fn submitted_nonce(a: Action) -> Option<nat> {
    match a {
        Action::Submit { nonce } => Some(nonce.value()),
        _ => None,
    }
}

/// Nonces are fetched fresh for every call and never kept: a session that
/// waits on its nonce submits exactly the one that the node hands it. So of
/// two sequential calls for one account, where the node hands out increasing
/// nonces, the second submits a strictly greater nonce than the first.
pub proof fn lemma_sequential_nonces(first: Phase, second: Phase, n1: Scalar, n2: Scalar)
    requires
        first == Phase::AwaitingNonce,
        second == Phase::AwaitingNonce,
        n1.value() < n2.value(),
    ensures
        submitted_nonce(next_action(first, NodeEvent::NonceFetched(n1))) == Some(n1.value()),
        submitted_nonce(next_action(second, NodeEvent::NonceFetched(n2))) == Some(n2.value()),
        submitted_nonce(next_action(first, NodeEvent::NonceFetched(n1)))->0 < submitted_nonce(
            next_action(second, NodeEvent::NonceFetched(n2)),
        )->0,
{
}

/// One signed, fee-paying call of the contract, from nonce fetch to outcome.
/// It keeps no nonce of its own: each session starts by fetching one.
pub struct InvokeSession {
    pub credentials: Credentials,
    pub call: ContractCall,
    pub phase: Phase,
}

impl InvokeSession {
    /// The action that the session waits on.
    pub fn pending(&self) -> (a: Action)
        ensures
            a == pending_action(self.phase),
    {
        match self.phase {
            Phase::AwaitingNonce => Action::FetchNonce,
            Phase::AwaitingOutcome { nonce } => Action::Submit { nonce },
            Phase::Finished => Action::Idle,
        }
    }

    /// Takes the node's answer and says what to do next.
    pub fn handle(&mut self, event: NodeEvent) -> (a: Action)
        ensures
            final(self).phase == next_phase(old(self).phase, event),
            a == next_action(old(self).phase, event),
            final(self).call == old(self).call,
            final(self).credentials == old(self).credentials,
    {
        match self.phase {
            Phase::AwaitingNonce => match event {
                NodeEvent::NonceFetched(n) => {
                    self.phase = Phase::AwaitingOutcome { nonce: n };
                    Action::Submit { nonce: n }
                },
                NodeEvent::AccountMissing => {
                    self.phase = Phase::Finished;
                    Action::Report(Err(ClientError::AccountNotFound))
                },
                NodeEvent::TransportFailed => {
                    self.phase = Phase::Finished;
                    Action::Report(Err(ClientError::NetworkError))
                },
                _ => Action::FetchNonce,
            },
            Phase::AwaitingOutcome { nonce } => match event {
                NodeEvent::Accepted => {
                    self.phase = Phase::Finished;
                    Action::Report(Ok(()))
                },
                NodeEvent::Rejected(reason) => {
                    self.phase = Phase::Finished;
                    Action::Report(Err(ClientError::SubmissionRejected(reason)))
                },
                NodeEvent::TransportFailed => {
                    self.phase = Phase::Finished;
                    Action::Report(Err(ClientError::NetworkError))
                },
                _ => Action::Submit { nonce },
            },
            Phase::Finished => Action::Idle,
        }
    }
}

pub open spec fn pending_action(phase: Phase) -> Action {
    match phase {
        Phase::AwaitingNonce => Action::FetchNonce,
        Phase::AwaitingOutcome { nonce } => Action::Submit { nonce },
        Phase::Finished => Action::Idle,
    }
}

/// Starts a state-changing call of `method`: reads the credentials, resolves
/// the selector and addresses the call at the contract. The session then asks
/// for a fresh nonce.
pub fn invoke_contract_method(
    method: &str,
    calldata: Vec<Scalar>,
    sender_address: &str,
    private_key: &str,
) -> (r: Result<InvokeSession, ClientError>)
    ensures
        r is Ok <==> is_scalar_hex(sender_address.spec_bytes()) && is_scalar_hex(
            private_key.spec_bytes(),
        ) && is_scalar_hex(CONTRACT_ADDRESS.spec_bytes()) && method.is_ascii(),
        r is Ok ==> ({
            let s = r->Ok_0;
            &&& s.phase == Phase::AwaitingNonce
            &&& s.credentials.wf()
            &&& s.credentials.sender_address.value() == hex_number(sender_address.spec_bytes())
            &&& s.credentials.private_key.value() == hex_number(private_key.spec_bytes())
            &&& s.call.to.value() == hex_number(CONTRACT_ADDRESS.spec_bytes())
            &&& s.call.selector.to_bytes_spec() == selector_of(method.spec_bytes())
            &&& s.call.calldata@ == calldata@
        }),
        !(is_scalar_hex(sender_address.spec_bytes()) && is_scalar_hex(private_key.spec_bytes()))
            ==> r == Err::<InvokeSession, _>(ClientError::InvalidCredentialFormat),
        is_scalar_hex(sender_address.spec_bytes()) && is_scalar_hex(private_key.spec_bytes())
            && !is_scalar_hex(CONTRACT_ADDRESS.spec_bytes()) ==> r == Err::<InvokeSession, _>(
            ClientError::InvalidContractAddress,
        ),
        is_scalar_hex(sender_address.spec_bytes()) && is_scalar_hex(private_key.spec_bytes())
            && is_scalar_hex(CONTRACT_ADDRESS.spec_bytes()) && !method.is_ascii() ==> r == Err::<
            InvokeSession,
            _,
        >(ClientError::NonAsciiMethodName),
{
    let credentials = match Credentials::new(sender_address, private_key) {
        Ok(c) => c,
        Err(e) => return Err(e),
    };
    let call = match contract_call(method, calldata) {
        Ok(c) => c,
        Err(e) => return Err(e),
    };
    Ok(InvokeSession { credentials, call, phase: Phase::AwaitingNonce })
}

/// A free, unsigned read of a contract entry point, at the latest block.
#[derive(Clone, Debug, PartialEq, Eq)]
pub struct ReadCall {
    pub contract_address: Scalar,
    pub entry_point_selector: Scalar,
    pub calldata: Vec<Scalar>,
}

/// The read of `method`, with no arguments, on the contract.
pub fn call_contract_ro_vec(method: &str) -> (r: Result<ReadCall, ClientError>)
    ensures
        r is Ok <==> is_scalar_hex(CONTRACT_ADDRESS.spec_bytes()) && method.is_ascii(),
        r is Ok ==> r->Ok_0.contract_address.value() == hex_number(CONTRACT_ADDRESS.spec_bytes())
            && r->Ok_0.entry_point_selector.to_bytes_spec() == selector_of(method.spec_bytes())
            && r->Ok_0.calldata@.len() == 0,
        !is_scalar_hex(CONTRACT_ADDRESS.spec_bytes()) ==> r == Err::<ReadCall, _>(
            ClientError::InvalidContractAddress,
        ),
        is_scalar_hex(CONTRACT_ADDRESS.spec_bytes()) && !method.is_ascii() ==> r == Err::<
            ReadCall,
            _,
        >(ClientError::NonAsciiMethodName),
{
    match contract_call(method, Vec::new()) {
        Ok(c) => Ok(
            ReadCall { contract_address: c.to, entry_point_selector: c.selector, calldata: c.calldata },
        ),
        Err(e) => Err(e),
    }
}

/// The first two values of a query result, as a pair.
pub fn call_contract_ro_tuple(values: &Vec<Scalar>) -> (r: Result<(Scalar, Scalar), ClientError>)
    ensures
        r is Ok <==> values@.len() >= 2,
        r is Ok ==> r->Ok_0 == (values@[0], values@[1]),
        r is Err ==> r->Err_0 == ClientError::MalformedResponse,
{
    if values.len() < 2 {
        Err(ClientError::MalformedResponse)
    } else {
        Ok((values[0], values[1]))
    }
}

/// The pairs of a flat result whose first value is a count: after it, values
/// are taken two by two, and a last unpaired value is left out.
pub open spec fn wall_pairs(v: Seq<Scalar>) -> Seq<(Scalar, Scalar)> {
    Seq::new(((v.len() - 1) / 2) as nat, |i: int| (v[1 + 2 * i], v[2 + 2 * i]))
}

/// The walls of a flat query result: the count in front is dropped and the
/// rest is paired up.
pub fn decode_wall_positions(values: &Vec<Scalar>) -> (r: Result<Vec<(Scalar, Scalar)>, ClientError>)
    ensures
        r is Ok <==> values@.len() >= 1,
        r is Ok ==> r->Ok_0@ == wall_pairs(values@),
        r is Err ==> r->Err_0 == ClientError::MalformedResponse,
{
    let n = values.len();
    if n == 0 {
        return Err(ClientError::MalformedResponse);
    }
    let count: usize = (n - 1) / 2;
    let mut walls: Vec<(Scalar, Scalar)> = Vec::new();
    let mut i: usize = 0;
    while i < count
        invariant
            n == values@.len(),
            n >= 1,
            count == (n - 1) / 2,
            i <= count,
            walls@ == wall_pairs(values@).take(i as int),
        decreases count - i,
    {
        walls.push((values[1 + 2 * i], values[2 + 2 * i]));
        assert(walls@ =~= wall_pairs(values@).take(i + 1));
        i = i + 1;
    }
    assert(walls@ =~= wall_pairs(values@));
    Ok(walls)
}

/// What a caller is told of a state-changing call.
pub open spec fn outcome_message(outcome: Result<(), ClientError>) -> Seq<char> {
    match outcome {
        Ok(()) => "Transaction sent successfully!"@,
        Err(ClientError::SubmissionRejected(reason)) => reason@,
        Err(ClientError::InvalidCredentialFormat) => "Error: invalid credential format"@,
        Err(ClientError::InvalidContractAddress) => "Error: invalid contract address"@,
        Err(ClientError::NonAsciiMethodName) => "Error: method name is not ASCII"@,
        Err(ClientError::NetworkError) => "Error: network error"@,
        Err(ClientError::AccountNotFound) => "Error: account not found"@,
        Err(ClientError::MalformedResponse) => "Error: malformed response"@,
        Err(ClientError::InvalidArguments) => "Error: invalid arguments"@,
    }
}

/// The response for the outcome of a state-changing call.
pub fn api_response(outcome: &Result<(), ClientError>) -> (r: ApiResponse)
    ensures
        r.message@ == outcome_message(*outcome),
{
    let text: &str = match outcome {
        Ok(()) => "Transaction sent successfully!",
        Err(ClientError::SubmissionRejected(reason)) => {
            return ApiResponse { message: reason.clone() };
        },
        Err(ClientError::InvalidCredentialFormat) => "Error: invalid credential format",
        Err(ClientError::InvalidContractAddress) => "Error: invalid contract address",
        Err(ClientError::NonAsciiMethodName) => "Error: method name is not ASCII",
        Err(ClientError::NetworkError) => "Error: network error",
        Err(ClientError::AccountNotFound) => "Error: account not found",
        Err(ClientError::MalformedResponse) => "Error: malformed response",
        Err(ClientError::InvalidArguments) => "Error: invalid arguments",
    };
    ApiResponse { message: text.to_owned() }
}

} // verus!
