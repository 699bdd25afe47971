use vstd::prelude::*;
use crate::identity::UID;

verus! {

/// The blockchains whose wallets can authenticate.
#[derive(Debug, Clone, Copy, PartialEq, Eq, Structural)]
pub enum Web3Blockchain {
    Solana,
    Ethereum,
}

/// A request to register an account.
#[derive(Debug, Clone)]
pub enum AuthRegisterMsg {
    Web3(Web3AuthRegisterRequest),
}

/// Registers a wallet's public key with an email address that it signed.
#[derive(Debug, Clone)]
pub struct Web3AuthRegisterRequest {
    pub blockchain: Web3Blockchain,
    pub public_key: [u8; 32],
    pub email_address: String,
    pub email_address_signature: [u8; 64],
}

/// A request to authenticate.
#[derive(Debug, Clone)]
pub enum AuthRequestMsg {
    Web3(Web3AuthRequest),
}

/// The server's challenge to an authentication request.
#[derive(Debug)]
pub enum AuthChallengeMsg {
    Web3(Web3AuthChallenge),
}

/// The client's answer to a challenge.
#[derive(Debug, Clone)]
pub enum AuthAnswerMsg {
    Web3(Web3AuthAnswer),
}

/// Authentication has succeeded: the interface that the client now controls.
#[derive(Debug, Clone, Copy, PartialEq, Eq, Structural)]
pub struct AuthorizedMsg {
    pub interface_uid: UID,
}

/// The client sends its public key and a nonce for the server to sign
#[derive(Debug, Clone)]
pub struct Web3AuthRequest {
    pub blockchain: Web3Blockchain,
    pub client_public_key: [u8; 32],
    /// Nonce, generated for each request
    pub client_challenge: [u8; 32],
}

/// The server responds to a request with its public key and the client's nonce signed.
/// The client will:
///   1. Verify the signature
///   2. Launch the wallet's sign-in process
#[derive(Debug)]
pub struct Web3AuthChallenge {
    pub blockchain: Web3Blockchain,
    pub server_public_key: [u8; 32],
    /// The result of the server signing the request's client challenge
    pub server_challenge: [u8; 64],
}

/// The client has signed in with the server's challenge and answers with that challenge signed.
/// The server will:
///   1. Verify the signature.
///   2. Start a session for the client's Interface
///   3. Return the UID of the interface
#[derive(Debug, Clone)]
pub struct Web3AuthAnswer {
    pub signature: [u8; 64],
}

} // verus!
