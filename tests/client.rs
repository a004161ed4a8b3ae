use starknet_api_server::contract::{
    api_response, call_contract_ro_tuple, call_contract_ro_vec, contract_address,
    decode_wall_positions, invoke_contract_method, method_selector, Action, ClientError,
    Credentials, NodeEvent, Phase, CONTRACT_ADDRESS,
};
use starknet_api_server::handlers::{
    get_position, get_wall_positions, initialize_map, initialize_position, move_down,
    move_forward, move_left, move_right, teleport_to,
};
use starknet_api_server::hex::parse_scalar;
use starknet_api_server::models::{InitializeMapParams, TeleportParams};
use starknet_api_server::scalar::Scalar;

const PRIME_HEX: &str = "0x800000000000011000000000000000000000000000000000000000000000001";
const PRIME_MINUS_ONE_HEX: &str = "0x800000000000011000000000000000000000000000000000000000000000000";
const SENDER: &str = "0x4b3f4ba8c00a02b66142a4b1dd41a4dfab4f92650922a3280977b0f03c75ee1";
const KEY: &str = "0x1234abcd";

fn s(x: i64) -> Scalar {
    Scalar::from_i64(x)
}

fn scalars(xs: &[i64]) -> Vec<Scalar> {
    xs.iter().map(|&x| s(x)).collect()
}

fn bytes_of_u64(x: u64) -> [u8; 32] {
    let mut b = [0u8; 32];
    b[24..].copy_from_slice(&x.to_be_bytes());
    b
}

#[test]
fn walls_decode_pairs_after_count() {
    let walls = decode_wall_positions(&scalars(&[3, 1, 1, 2, 2, 3, 3])).unwrap();
    assert_eq!(walls, vec![(s(1), s(1)), (s(2), s(2)), (s(3), s(3))]);
}

#[test]
fn walls_of_zero_count_are_empty() {
    assert_eq!(decode_wall_positions(&scalars(&[0])).unwrap(), vec![]);
}

#[test]
fn walls_of_empty_result_are_malformed() {
    assert_eq!(decode_wall_positions(&vec![]), Err(ClientError::MalformedResponse));
}

#[test]
fn walls_drop_trailing_unpaired_value() {
    let walls = decode_wall_positions(&scalars(&[2, 4, 5, 6])).unwrap();
    assert_eq!(walls, vec![(s(4), s(5))]);
}

#[test]
fn wall_positions_response_holds_pairs() {
    let r = get_wall_positions(&scalars(&[2, -1, 0, 7, 8])).unwrap();
    assert_eq!(r.walls, vec![(s(-1), s(0)), (s(7), s(8))]);
    assert!(get_wall_positions(&vec![]).is_err());
}

#[test]
fn position_takes_first_two_values() {
    assert_eq!(call_contract_ro_tuple(&scalars(&[5, 7])), Ok((s(5), s(7))));
    assert_eq!(call_contract_ro_tuple(&scalars(&[5, 7, 9])), Ok((s(5), s(7))));
}

#[test]
fn position_of_one_value_is_malformed() {
    assert_eq!(call_contract_ro_tuple(&scalars(&[5])), Err(ClientError::MalformedResponse));
    assert_eq!(call_contract_ro_tuple(&vec![]), Err(ClientError::MalformedResponse));
}

#[test]
fn position_response_fields() {
    let p = get_position(&scalars(&[5, 7])).unwrap();
    assert_eq!((p.x, p.y), (s(5), s(7)));
    assert!(matches!(get_position(&scalars(&[5])), Err(ClientError::MalformedResponse)));
}

#[test]
fn credentials_accept_hex_scalars() {
    let c = Credentials::new("0x1a", "FF").unwrap();
    assert_eq!(c.sender_address.to_bytes_be(), bytes_of_u64(26));
    assert_eq!(c.private_key.to_bytes_be(), bytes_of_u64(255));
    assert!(Credentials::new(SENDER, KEY).is_ok());
    assert!(Credentials::new(PRIME_MINUS_ONE_HEX, "0").is_ok());
    let padded = format!("0x{}", "0".repeat(63) + "7");
    assert_eq!(Credentials::new(&padded, "7").unwrap().sender_address, s(7));
}

#[test]
fn credentials_reject_non_hex() {
    for bad in ["0xzz", "", "0x", "12g4", "0x-1", " 0x1", "0x1 "] {
        assert_eq!(Credentials::new(bad, KEY), Err(ClientError::InvalidCredentialFormat));
        assert_eq!(Credentials::new(SENDER, bad), Err(ClientError::InvalidCredentialFormat));
    }
}

#[test]
fn credentials_reject_values_out_of_range() {
    assert_eq!(Credentials::new(PRIME_HEX, KEY), Err(ClientError::InvalidCredentialFormat));
    let too_big = format!("0x{}", "f".repeat(64));
    assert_eq!(Credentials::new(SENDER, &too_big), Err(ClientError::InvalidCredentialFormat));
    let too_long = format!("0x{}", "0".repeat(64) + "1");
    assert_eq!(Credentials::new(&too_long, KEY), Err(ClientError::InvalidCredentialFormat));
}

#[test]
fn negative_integer_wraps_around_prime() {
    let minus_one = parse_scalar(PRIME_MINUS_ONE_HEX).unwrap();
    assert_eq!(s(-1), minus_one);
    assert_eq!(s(300).to_bytes_be(), bytes_of_u64(300));
}

#[test]
fn bytes_reduce_modulo_prime() {
    let prime = Scalar::from_bytes_be(parse_scalar(PRIME_MINUS_ONE_HEX).unwrap().to_bytes_be());
    assert_eq!(prime, s(-1));
    let mut p = s(-1).to_bytes_be();
    p[31] += 1;
    assert_eq!(Scalar::from_bytes_be(p), s(0));
}

#[test]
fn selector_is_deterministic_for_unknown_method() {
    let a = method_selector("no_such_method_here").unwrap();
    let b = method_selector("no_such_method_here").unwrap();
    assert_eq!(a, b);
    assert_ne!(a, method_selector("update_position").unwrap());
}

#[test]
fn selector_matches_starknet_keccak() {
    let expected =
        parse_scalar("0x83afd3f4caedc6eebf44246fe54e38c95e3179a5ec9ea81740eca5b482d12e").unwrap();
    assert_eq!(method_selector("transfer").unwrap(), expected);
}

#[test]
fn selector_rejects_non_ascii_name() {
    assert_eq!(method_selector("déplacer"), Err(ClientError::NonAsciiMethodName));
}

#[test]
fn contract_address_parses() {
    let a = contract_address().unwrap();
    assert_eq!(parse_scalar(CONTRACT_ADDRESS), Some(a));
    let read = call_contract_ro_vec("get_position").unwrap();
    assert_eq!(read.contract_address, a);
    assert_eq!(read.entry_point_selector, method_selector("get_position").unwrap());
    assert!(read.calldata.is_empty());
}

#[test]
fn odd_map_coordinates_are_rejected() {
    let params = InitializeMapParams { coords: vec![1, 2, 3] };
    assert_eq!(initialize_map(&params), Err(ClientError::InvalidArguments));
}

#[test]
fn even_map_coordinates_become_calldata() {
    let params = InitializeMapParams { coords: vec![1, -2, 3, 4] };
    let call = initialize_map(&params).unwrap();
    assert_eq!(call.method, "initialize_map");
    assert_eq!(call.calldata, scalars(&[1, -2, 3, 4]));
    assert!(initialize_map(&InitializeMapParams { coords: vec![] }).unwrap().calldata.is_empty());
}

#[test]
fn moves_use_unit_deltas() {
    for (call, dx, dy) in [
        (move_forward(), 0, 1),
        (move_down(), 0, -1),
        (move_left(), -1, 0),
        (move_right(), 1, 0),
    ] {
        assert_eq!(call.method, "update_position");
        assert_eq!(call.calldata, scalars(&[dx, dy]));
    }
    let reset = initialize_position();
    assert_eq!(reset.method, "initialize_position");
    assert!(reset.calldata.is_empty());
}

#[test]
fn teleport_passes_target() {
    let call = teleport_to(&TeleportParams { x: -4, y: 9 });
    assert_eq!(call.method, "teleport");
    assert_eq!(call.calldata, scalars(&[-4, 9]));
}

#[test]
fn invoke_builds_single_call() {
    let session = invoke_contract_method("teleport", scalars(&[1, 2]), SENDER, KEY).unwrap();
    assert!(matches!(session.phase, Phase::AwaitingNonce));
    assert!(matches!(session.pending(), Action::FetchNonce));
    assert_eq!(session.call.to, contract_address().unwrap());
    assert_eq!(session.call.selector, method_selector("teleport").unwrap());
    assert_eq!(session.call.calldata, scalars(&[1, 2]));
    assert_eq!(session.credentials, Credentials::new(SENDER, KEY).unwrap());
}

#[test]
fn invoke_reports_each_setup_error() {
    assert!(matches!(
        invoke_contract_method("teleport", vec![], "0xnope", KEY),
        Err(ClientError::InvalidCredentialFormat)
    ));
    assert!(matches!(
        invoke_contract_method("téléport", vec![], SENDER, KEY),
        Err(ClientError::NonAsciiMethodName)
    ));
}

#[test]
fn session_success_path() {
    let mut session = invoke_contract_method("initialize_position", vec![], SENDER, KEY).unwrap();
    let a = session.handle(NodeEvent::NonceFetched(s(4)));
    assert!(matches!(a, Action::Submit { nonce } if nonce == s(4)));
    assert!(matches!(session.pending(), Action::Submit { nonce } if nonce == s(4)));
    let a = session.handle(NodeEvent::Accepted);
    assert!(matches!(a, Action::Report(Ok(()))));
    assert!(matches!(session.handle(NodeEvent::Accepted), Action::Idle));
}

#[test]
fn session_error_paths() {
    let mut missing = invoke_contract_method("teleport", vec![], SENDER, KEY).unwrap();
    assert!(matches!(
        missing.handle(NodeEvent::AccountMissing),
        Action::Report(Err(ClientError::AccountNotFound))
    ));
    let mut offline = invoke_contract_method("teleport", vec![], SENDER, KEY).unwrap();
    assert!(matches!(
        offline.handle(NodeEvent::TransportFailed),
        Action::Report(Err(ClientError::NetworkError))
    ));
    let mut refused = invoke_contract_method("teleport", vec![], SENDER, KEY).unwrap();
    refused.handle(NodeEvent::NonceFetched(s(1)));
    match refused.handle(NodeEvent::Rejected("Error: InvalidNonce".to_string())) {
        Action::Report(Err(ClientError::SubmissionRejected(r))) => {
            assert_eq!(r, "Error: InvalidNonce")
        }
        other => panic!("unexpected action {:?}", other),
    }
    let mut lost = invoke_contract_method("teleport", vec![], SENDER, KEY).unwrap();
    lost.handle(NodeEvent::NonceFetched(s(1)));
    assert!(matches!(
        lost.handle(NodeEvent::TransportFailed),
        Action::Report(Err(ClientError::NetworkError))
    ));
}

#[test]
fn session_repeats_pending_action_on_unexpected_event() {
    let mut session = invoke_contract_method("teleport", vec![], SENDER, KEY).unwrap();
    assert!(matches!(session.handle(NodeEvent::Accepted), Action::FetchNonce));
    session.handle(NodeEvent::NonceFetched(s(2)));
    assert!(matches!(
        session.handle(NodeEvent::NonceFetched(s(3))),
        Action::Submit { nonce } if nonce == s(2)
    ));
}

/// A node double that hands out the account's nonce and counts it up on each
/// accepted transaction, recording what each submission carried.
struct FakeNode {
    next_nonce: i64,
    seen: Vec<Scalar>,
}

impl FakeNode {
    fn run(&mut self, mut session: starknet_api_server::contract::InvokeSession) -> Action {
        let mut action = session.pending();
        loop {
            let event = match action {
                Action::FetchNonce => NodeEvent::NonceFetched(s(self.next_nonce)),
                Action::Submit { nonce } => {
                    self.seen.push(nonce);
                    if nonce == s(self.next_nonce) {
                        self.next_nonce += 1;
                        NodeEvent::Accepted
                    } else {
                        NodeEvent::Rejected("Error: InvalidTransactionNonce".to_string())
                    }
                }
                other => return other,
            };
            action = session.handle(event);
        }
    }
}

#[test]
fn sequential_moves_use_increasing_nonces() {
    let mut node = FakeNode { next_nonce: 7, seen: vec![] };
    for call in [move_forward(), move_right(), move_down()] {
        let session = invoke_contract_method(&call.method, call.calldata, SENDER, KEY).unwrap();
        assert!(matches!(node.run(session), Action::Report(Ok(()))));
    }
    assert_eq!(node.seen, scalars(&[7, 8, 9]));
}

#[test]
fn response_messages() {
    assert_eq!(api_response(&Ok(())).message, "Transaction sent successfully!");
    assert_eq!(
        api_response(&Err(ClientError::SubmissionRejected("Error: Reverted".to_string()))).message,
        "Error: Reverted"
    );
    assert_eq!(api_response(&Err(ClientError::NetworkError)).message, "Error: network error");
    assert_eq!(
        api_response(&Err(ClientError::AccountNotFound)).message,
        "Error: account not found"
    );
    assert_eq!(
        api_response(&Err(ClientError::InvalidArguments)).message,
        "Error: invalid arguments"
    );
}
