//! The challenge–response exchange that unlocks a sensor.
//!
//! The session performs no transfer itself. Each operation is one step of
//! the exchange: it hands out the bytes to write or takes in the bytes that
//! arrived, and moves the session to its next state. The caller carries the
//! bytes to and from the device between the steps.

use crate::cipher::{
    cipher,
    lemma_cipher_self_inverse,
    lemma_crypt_injective,
    mix_a,
    mix_b,
    spec_cipher,
    spec_cipher_init,
    spec_mix_a,
    spec_mix_b,
};
use vstd::prelude::*;

verus! {

/// Why a session failed.
#[derive(Debug, Clone, Copy, PartialEq, Eq, Structural)]
pub enum HandshakeFailure {
    /// No response arrived within the bounded wait.
    Timeout,
    /// The response does not answer the challenge.
    AuthMismatch,
    /// The transport reported an error.
    TransportError,
}

/// How far a session has come.
#[derive(Debug, Clone, Copy, PartialEq, Eq, Structural)]
pub enum HandshakeState {
    Idle,
    InitWritten,
    ChallengeSent,
    AwaitingResponse,
    Verified,
    ConfirmSent,
    Complete,
    Failed(HandshakeFailure),
}

impl HandshakeState {
    /// The session has ended, in success or in failure.
    pub open spec fn spec_is_terminal(self) -> bool {
        self is Complete || self is Failed
    }

    /// Whether the session has ended, in success or in failure.
    pub fn is_terminal(self) -> (terminal: bool)
        ensures
            terminal == self.spec_is_terminal(),
    {
        match self {
            HandshakeState::Complete => true,
            HandshakeState::Failed(_) => true,
            _ => false,
        }
    }
}

/// The command that opens the exchange.
pub open spec fn spec_init_command() -> Seq<u8> {
    seq![0x90u8, 0xCAu8, 0x85u8, 0xDEu8]
}

/// The command that closes the exchange after a verified response.
pub open spec fn spec_confirm_command() -> Seq<u8> {
    seq![0x92u8, 0xABu8, 0x54u8, 0xFAu8]
}

/// The challenge for a device: the token encrypted under its first key.
pub open spec fn spec_challenge(mac: Seq<u8>, product_id: u16, token: Seq<u8>) -> Seq<u8> {
    spec_cipher(spec_mix_a(mac, product_id), token)
}

/// What a response decrypts to: first under the first key, then under the
/// second.
pub open spec fn spec_recover(mac: Seq<u8>, product_id: u16, response: Seq<u8>) -> Seq<u8> {
    spec_cipher(spec_mix_b(mac, product_id), spec_cipher(spec_mix_a(mac, product_id), response))
}

/// The response of a device that holds the same keys and the same token:
/// the token encrypted under the second key, then under the first.
pub open spec fn spec_expected_response(mac: Seq<u8>, product_id: u16, token: Seq<u8>) -> Seq<u8> {
    spec_cipher(spec_mix_a(mac, product_id), spec_cipher(spec_mix_b(mac, product_id), token))
}

/// The response of a device that holds the same keys and token decrypts to
/// the token.
pub proof fn lemma_expected_response_recovers(mac: Seq<u8>, product_id: u16, token: Seq<u8>)
    ensures
        spec_recover(mac, product_id, spec_expected_response(mac, product_id, token)) == token,
{
    let key_a = spec_mix_a(mac, product_id);
    let key_b = spec_mix_b(mac, product_id);
    lemma_cipher_self_inverse(key_a, spec_cipher(key_b, token));
    lemma_cipher_self_inverse(key_b, token);
}

/// Exactly one response decrypts to the token: the one that a device with
/// the same keys and token gives.
pub proof fn lemma_recovers_only_expected_response(
    mac: Seq<u8>,
    product_id: u16,
    token: Seq<u8>,
    response: Seq<u8>,
)
    ensures
        spec_recover(mac, product_id, response) == token <==> response == spec_expected_response(
            mac,
            product_id,
            token,
        ),
{
    let key_a = spec_mix_a(mac, product_id);
    let key_b = spec_mix_b(mac, product_id);
    let expected = spec_expected_response(mac, product_id, token);
    lemma_expected_response_recovers(mac, product_id, token);
    if spec_recover(mac, product_id, response) == token {
        lemma_crypt_injective(
            spec_cipher(key_a, response),
            spec_cipher(key_a, expected),
            spec_cipher_init(key_b),
        );
        lemma_crypt_injective(response, expected, spec_cipher_init(key_a));
    }
}

/// Decrypting the challenge under the first key and encrypting the result
/// under the second is the same as encrypting the token under the second
/// key alone.
pub proof fn lemma_challenge_round_trip(mac: Seq<u8>, product_id: u16, token: Seq<u8>)
    ensures
        spec_recover(mac, product_id, spec_challenge(mac, product_id, token)) == spec_cipher(
            spec_mix_b(mac, product_id),
            token,
        ),
{
    lemma_cipher_self_inverse(spec_mix_a(mac, product_id), token);
}

/// Where the second key leaves a twelve-byte token as it is, the challenge
/// itself decrypts to the token.
pub proof fn lemma_challenge_recovers_token(mac: Seq<u8>, product_id: u16, token: Seq<u8>)
    requires
        token.len() == 12,
        spec_cipher(spec_mix_b(mac, product_id), token) == token,
    ensures
        spec_recover(mac, product_id, spec_challenge(mac, product_id, token)) == token,
{
    lemma_challenge_round_trip(mac, product_id, token);
}

/// Whether two byte strings hold the same bytes.
pub fn bytes_equal(a: &[u8], b: &[u8]) -> (same: bool)
    ensures
        same == (a@ == b@),
{
    if a.len() != b.len() {
        return false;
    }
    let mut i: usize = 0;
    while i < a.len()
        invariant
            i <= a@.len(),
            a@.len() == b@.len(),
            forall|k: int| 0 <= k < i ==> a@[k] == b@[k],
        decreases a@.len() - i,
    {
        if a[i] != b[i] {
            return false;
        }
        i += 1;
    }
    assert(a@ =~= b@);
    true
}

/// The challenge to write to a device: the token encrypted under the
/// device's first key.
pub fn make_challenge(mac: [u8; 6], product_id: u16, token: &[u8]) -> (challenge: Vec<u8>)
    ensures
        challenge@ == spec_challenge(mac@, product_id, token@),
{
    let key_a = mix_a(mac, product_id);
    cipher(key_a.as_slice(), token)
}

/// Decides whether a device's response answers the challenge made from
/// `token`: the response, decrypted under the first key and then under the
/// second, must be the token, byte for byte.
pub fn verify_response(mac: [u8; 6], product_id: u16, token: &[u8], response: &[u8]) -> (accepted:
    bool)
    ensures
        accepted == (spec_recover(mac@, product_id, response@) == token@),
{
    let key_a = mix_a(mac, product_id);
    let key_b = mix_b(mac, product_id);
    let inner = cipher(key_a.as_slice(), response);
    let recovered = cipher(key_b.as_slice(), inner.as_slice());
    bytes_equal(recovered.as_slice(), token)
}

/// What a session is, apart from how it is stored.
pub struct HandshakeView {
    pub mac: Seq<u8>,
    pub product_id: u16,
    pub token: Seq<u8>,
    pub state: HandshakeState,
}

/// One authentication attempt against one device with one token.
pub struct HandshakeSession {
    mac: [u8; 6],
    product_id: u16,
    token: [u8; 12],
    state: HandshakeState,
}

impl View for HandshakeSession {
    type V = HandshakeView;

    closed spec fn view(&self) -> HandshakeView {
        HandshakeView {
            mac: self.mac@,
            product_id: self.product_id,
            token: self.token@,
            state: self.state,
        }
    }
}

impl HandshakeSession {
    /// A session for the device at `mac`, not yet begun.
    pub fn new(mac: [u8; 6], product_id: u16, token: [u8; 12]) -> (session: HandshakeSession)
        ensures
            session@ == (HandshakeView {
                mac: mac@,
                product_id,
                token: token@,
                state: HandshakeState::Idle,
            }),
    {
        HandshakeSession { mac, product_id, token, state: HandshakeState::Idle }
    }

    /// How far the session has come.
    pub fn state(&self) -> (state: HandshakeState)
        ensures
            state == self@.state,
    {
        self.state
    }

    /// Opens the exchange. Returns the command to write to the device's
    /// init characteristic; the caller also subscribes to the responses.
    pub fn start(&mut self) -> (command: [u8; 4])
        requires
            old(self)@.state == HandshakeState::Idle,
        ensures
            command@ == spec_init_command(),
            final(self)@ == (HandshakeView { state: HandshakeState::InitWritten, ..old(self)@ }),
    {
        self.state = HandshakeState::InitWritten;
        let command: [u8; 4] = [0x90, 0xCA, 0x85, 0xDE];
        assert(command@ =~= spec_init_command());
        command
    }

    /// Returns the challenge to write to the device.
    pub fn challenge(&mut self) -> (challenge: Vec<u8>)
        requires
            old(self)@.state == HandshakeState::InitWritten,
        ensures
            challenge@ == spec_challenge(old(self)@.mac, old(self)@.product_id, old(self)@.token),
            final(self)@ == (HandshakeView { state: HandshakeState::ChallengeSent, ..old(self)@ }),
    {
        self.state = HandshakeState::ChallengeSent;
        make_challenge(self.mac, self.product_id, self.token.as_slice())
    }

    /// Records that the caller now waits, for a bounded time, for the
    /// device's response.
    pub fn await_response(&mut self)
        requires
            old(self)@.state == HandshakeState::ChallengeSent,
        ensures
            final(self)@ == (HandshakeView {
                state: HandshakeState::AwaitingResponse,
                ..old(self)@
            }),
    {
        self.state = HandshakeState::AwaitingResponse;
    }

    /// Takes in the device's response. The session is verified where the
    /// response answers the challenge, and has failed otherwise.
    pub fn receive(&mut self, response: &[u8]) -> (accepted: bool)
        requires
            old(self)@.state == HandshakeState::AwaitingResponse,
        ensures
            accepted == (spec_recover(old(self)@.mac, old(self)@.product_id, response@) == old(
                self,
            )@.token),
            final(self)@ == (HandshakeView {
                state: if accepted {
                    HandshakeState::Verified
                } else {
                    HandshakeState::Failed(HandshakeFailure::AuthMismatch)
                },
                ..old(self)@
            }),
    {
        let accepted = verify_response(
            self.mac,
            self.product_id,
            self.token.as_slice(),
            response,
        );
        if accepted {
            self.state = HandshakeState::Verified;
        } else {
            self.state = HandshakeState::Failed(HandshakeFailure::AuthMismatch);
        }
        accepted
    }

    /// Records that no response arrived within the bounded wait.
    pub fn time_out(&mut self)
        requires
            old(self)@.state == HandshakeState::AwaitingResponse,
        ensures
            final(self)@ == (HandshakeView {
                state: HandshakeState::Failed(HandshakeFailure::Timeout),
                ..old(self)@
            }),
    {
        self.state = HandshakeState::Failed(HandshakeFailure::Timeout);
    }

    /// Returns the command that confirms a verified response, to be written
    /// to the device.
    pub fn confirm(&mut self) -> (command: [u8; 4])
        requires
            old(self)@.state == HandshakeState::Verified,
        ensures
            command@ == spec_confirm_command(),
            final(self)@ == (HandshakeView { state: HandshakeState::ConfirmSent, ..old(self)@ }),
    {
        self.state = HandshakeState::ConfirmSent;
        let command: [u8; 4] = [0x92, 0xAB, 0x54, 0xFA];
        assert(command@ =~= spec_confirm_command());
        command
    }

    /// Ends the exchange after the device's version has been read. What the
    /// version holds does not matter.
    pub fn finish(&mut self)
        requires
            old(self)@.state == HandshakeState::ConfirmSent,
        ensures
            final(self)@ == (HandshakeView { state: HandshakeState::Complete, ..old(self)@ }),
    {
        self.state = HandshakeState::Complete;
    }

    /// Records that the transport failed during a step. The session has
    /// failed for good.
    pub fn fail_transport(&mut self)
        requires
            !old(self)@.state.spec_is_terminal(),
        ensures
            final(self)@ == (HandshakeView {
                state: HandshakeState::Failed(HandshakeFailure::TransportError),
                ..old(self)@
            }),
    {
        self.state = HandshakeState::Failed(HandshakeFailure::TransportError);
    }
}

} // verus!
