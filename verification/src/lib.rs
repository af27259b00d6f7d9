//! Client-side engine of a two-party Bitcoin statechain wallet: deterministic
//! key-share derivation, MuSig2 key aggregation with the Taproot key-path
//! tweak, the two-round nonce / partial-signature protocol, and construction
//! and finalization of the timelocked backup transaction.
//!
//! Network and database access stay outside this crate; the functions here
//! work on plain values and on an in-memory model of the signer store.
use vstd::prelude::*;

pub mod crypto;
pub mod key_derivation;
pub mod musig;
pub mod transaction;
pub mod wallet;
pub mod deposit;
pub mod hexutil;

verus! {

/// Failure taxonomy of the client.
#[derive(Debug, Clone, Copy, PartialEq, Eq, Structural)]
pub enum CError {
    /// Seed or key persistence failed or is inconsistent.
    Storage,
    /// The remote signer sent a malformed or inconsistent response.
    Protocol,
    /// A signature computation or a local cryptographic self-check failed.
    Crypto,
    /// The finalized transaction failed verification against its prevout.
    Verification,
    /// Transport failure talking to a collaborator.
    Network,
}

/// The Bitcoin network a key or address belongs to.
#[derive(Debug, Clone, Copy, PartialEq, Eq, Structural)]
pub enum Network {
    Bitcoin,
    Testnet,
    Signet,
    Regtest,
}

impl Network {
    /// Whether extended keys carry mainnet version bytes.
    pub open spec fn spec_is_mainnet(self) -> bool {
        self == Network::Bitcoin
    }

    pub fn is_mainnet(&self) -> (r: bool)
        ensures
            r == self.spec_is_mainnet(),
    {
        match self {
            Network::Bitcoin => true,
            _ => false,
        }
    }

    /// Address prefix family of the network: 0 for mainnet, 1 for the test
    /// networks (testnet and signet share the bech32 prefix), 2 for regtest.
    pub open spec fn spec_hrp_code(self) -> u8 {
        match self {
            Network::Bitcoin => 0,
            Network::Testnet => 1,
            Network::Signet => 1,
            Network::Regtest => 2,
        }
    }

    pub fn hrp_code(&self) -> (r: u8)
        ensures
            r == self.spec_hrp_code(),
    {
        match self {
            Network::Bitcoin => 0,
            Network::Testnet => 1,
            Network::Signet => 1,
            Network::Regtest => 2,
        }
    }
}

} // verus!
