use mitemp::cipher::{cipher, mix_a, mix_b};
use mitemp::handshake::{
    bytes_equal, make_challenge, verify_response, HandshakeFailure, HandshakeSession,
    HandshakeState,
};

const MAC: [u8; 6] = [0x58, 0x2D, 0x34, 0x35, 0xF3, 0xD4];
const PRODUCT_ID: u16 = 426;
const TOKEN: [u8; 12] = [1, 2, 3, 4, 5, 6, 7, 8, 9, 10, 11, 12];
const CHALLENGE: [u8; 12] = [160, 60, 142, 1, 155, 152, 185, 200, 233, 215, 16, 152];
const RESPONSE: [u8; 12] = [198, 75, 68, 178, 44, 41, 251, 82, 146, 59, 91, 135];

fn device_response(token: &[u8]) -> Vec<u8> {
    cipher(&mix_a(MAC, PRODUCT_ID), &cipher(&mix_b(MAC, PRODUCT_ID), token))
}

fn awaiting() -> HandshakeSession {
    let mut session = HandshakeSession::new(MAC, PRODUCT_ID, TOKEN);
    session.start();
    session.challenge();
    session.await_response();
    session
}

#[test]
fn challenge_is_token_under_first_key() {
    assert_eq!(make_challenge(MAC, PRODUCT_ID, &TOKEN), CHALLENGE.to_vec());
}

#[test]
fn challenge_decrypts_to_token_under_first_key() {
    let challenge = make_challenge(MAC, PRODUCT_ID, &TOKEN);
    assert_eq!(cipher(&mix_a(MAC, PRODUCT_ID), &challenge), TOKEN.to_vec());
}

#[test]
fn device_response_has_expected_bytes() {
    assert_eq!(device_response(&TOKEN), RESPONSE.to_vec());
}

#[test]
fn verify_accepts_device_response() {
    assert!(verify_response(MAC, PRODUCT_ID, &TOKEN, &RESPONSE));
}

#[test]
fn verify_accepts_device_response_for_many_tokens() {
    for seed in 0..=255u8 {
        let token: Vec<u8> = (0..12u8).map(|i| seed.wrapping_mul(31).wrapping_add(i)).collect();
        assert!(verify_response(MAC, PRODUCT_ID, &token, &device_response(&token)));
    }
}

#[test]
fn verify_rejects_any_flipped_bit() {
    for i in 0..12 {
        let mut response = RESPONSE;
        response[i] ^= 0x01;
        assert!(!verify_response(MAC, PRODUCT_ID, &TOKEN, &response));
    }
}

#[test]
fn verify_rejects_wrong_length() {
    assert!(!verify_response(MAC, PRODUCT_ID, &TOKEN, &RESPONSE[..11]));
    assert!(!verify_response(MAC, PRODUCT_ID, &TOKEN, &[]));
}

#[test]
fn verify_rejects_echoed_challenge() {
    assert!(!verify_response(MAC, PRODUCT_ID, &TOKEN, &CHALLENGE));
    let zero = [0u8; 12];
    let challenge = make_challenge(MAC, PRODUCT_ID, &zero);
    let key_a = mix_a(MAC, PRODUCT_ID);
    let key_b = mix_b(MAC, PRODUCT_ID);
    assert_eq!(
        cipher(&key_b, &cipher(&key_a, &challenge)),
        vec![102, 119, 202, 179, 183, 177, 66, 154, 123, 236, 75, 31]
    );
}

#[test]
fn verify_rejects_response_for_other_device() {
    let other = [0x58, 0x2D, 0x34, 0x35, 0xF3, 0xD5];
    assert!(!verify_response(other, PRODUCT_ID, &TOKEN, &RESPONSE));
    assert!(!verify_response(MAC, 427, &TOKEN, &RESPONSE));
}

#[test]
fn bytes_equal_compares_length_and_content() {
    assert!(bytes_equal(&[], &[]));
    assert!(bytes_equal(&[1, 2, 3], &[1, 2, 3]));
    assert!(!bytes_equal(&[1, 2, 3], &[1, 2]));
    assert!(!bytes_equal(&[1, 2, 3], &[1, 2, 4]));
    assert!(!bytes_equal(&[0, 2, 3], &[1, 2, 3]));
}

#[test]
fn session_runs_to_completion() {
    let mut session = HandshakeSession::new(MAC, PRODUCT_ID, TOKEN);
    assert_eq!(session.state(), HandshakeState::Idle);
    assert_eq!(session.start(), [0x90, 0xCA, 0x85, 0xDE]);
    assert_eq!(session.state(), HandshakeState::InitWritten);
    assert_eq!(session.challenge(), CHALLENGE.to_vec());
    assert_eq!(session.state(), HandshakeState::ChallengeSent);
    session.await_response();
    assert_eq!(session.state(), HandshakeState::AwaitingResponse);
    assert!(session.receive(&RESPONSE));
    assert_eq!(session.state(), HandshakeState::Verified);
    assert_eq!(session.confirm(), [0x92, 0xAB, 0x54, 0xFA]);
    assert_eq!(session.state(), HandshakeState::ConfirmSent);
    session.finish();
    assert_eq!(session.state(), HandshakeState::Complete);
    assert!(session.state().is_terminal());
}

#[test]
fn session_fails_on_wrong_response() {
    let mut session = awaiting();
    assert!(!session.receive(&CHALLENGE));
    assert_eq!(
        session.state(),
        HandshakeState::Failed(HandshakeFailure::AuthMismatch)
    );
    assert!(session.state().is_terminal());
}

#[test]
fn session_fails_on_timeout() {
    let mut session = awaiting();
    session.time_out();
    assert_eq!(
        session.state(),
        HandshakeState::Failed(HandshakeFailure::Timeout)
    );
}

#[test]
fn session_fails_on_transport_error() {
    let mut session = HandshakeSession::new(MAC, PRODUCT_ID, TOKEN);
    session.start();
    session.fail_transport();
    assert_eq!(
        session.state(),
        HandshakeState::Failed(HandshakeFailure::TransportError)
    );
}

#[test]
fn only_complete_and_failed_are_terminal() {
    assert!(!HandshakeState::Idle.is_terminal());
    assert!(!HandshakeState::InitWritten.is_terminal());
    assert!(!HandshakeState::ChallengeSent.is_terminal());
    assert!(!HandshakeState::AwaitingResponse.is_terminal());
    assert!(!HandshakeState::Verified.is_terminal());
    assert!(!HandshakeState::ConfirmSent.is_terminal());
    assert!(HandshakeState::Complete.is_terminal());
    assert!(HandshakeState::Failed(HandshakeFailure::Timeout).is_terminal());
    assert!(HandshakeState::Failed(HandshakeFailure::AuthMismatch).is_terminal());
    assert!(HandshakeState::Failed(HandshakeFailure::TransportError).is_terminal());
}
