//! What a maker must offer so that requests can be answered from its wallet.
//!
//! The wallet itself lives outside this library. A maker exposes it through
//! [`MakerWalletAccess`]: one method for each wallet operation that a request
//! needs, each on plain values. How the wallet is locked, and what it does on
//! the network and on disk, is the implementer's business; this library only
//! decides which operation to run next and what to answer.

use crate::message::Balances;
use crate::message::FeeRate;
use crate::message::Utxo;
use std::path::PathBuf;
use std::str::FromStr;
use vstd::prelude::*;

verus! {

/// The script type of the addresses that a wallet derives.
#[derive(Debug, Clone, Copy, PartialEq, Eq)]
pub enum AddressType {
    /// Pay to witness public key hash.
    P2WPKH,
    /// Pay to taproot.
    P2TR,
}

/// An error of the wallet, in the two forms in which it prints: its `Display`
/// text and its `Debug` text.
#[derive(Debug, Clone, PartialEq, Eq)]
pub struct WalletError {
    pub display: String,
    pub debug: String,
}

/// Why a wallet operation gave no result.
#[derive(Debug, PartialEq, Eq)]
pub enum WalletFailure {
    /// The wallet could not be locked for the operation. The text is that of
    /// the lock's error.
    Lock(String),
    /// The wallet was locked and the operation itself failed.
    Operation(WalletError),
}

impl WalletFailure {
    /// The failure as a reply shows it where the wallet's error is printed
    /// with `Display`.
    pub open spec fn shown(self) -> Seq<char> {
        match self {
            WalletFailure::Lock(text) => text@,
            WalletFailure::Operation(error) => error.display@,
        }
    }

    /// The failure as a reply shows it where the wallet's error is printed
    /// with `Debug`.
    pub open spec fn debugged(self) -> Seq<char> {
        match self {
            WalletFailure::Lock(text) => text@,
            WalletFailure::Operation(error) => error.debug@,
        }
    }

    /// Takes the text of the failure, the wallet's error printed with
    /// `Display`.
    pub fn into_shown(self) -> (text: String)
        ensures
            text@ == self.shown(),
    {
        match self {
            WalletFailure::Lock(text) => text,
            WalletFailure::Operation(error) => error.display,
        }
    }

    /// Takes the text of the failure, the wallet's error printed with
    /// `Debug`.
    pub fn into_debugged(self) -> (text: String)
        ensures
            text@ == self.debugged(),
    {
        match self {
            WalletFailure::Lock(text) => text,
            WalletFailure::Operation(error) => error.debug,
        }
    }
}

/// A payment of `amount` satoshis to `address`; what the chosen coins hold
/// beyond it returns to a fresh address of type `change_address_type`.
#[derive(Debug, PartialEq, Eq)]
pub struct Destination {
    pub address: String,
    pub amount: u64,
    pub change_address_type: AddressType,
}

/// The capability set of a maker: its wallet's operations, the kind of
/// address it derives by default, and its data directory.
///
/// No method promises anything about what it returns. What the library
/// proves of a reply therefore holds for every implementation.
pub trait MakerWalletAccess: Send + Sync + 'static {
    /// The coins that coin selection picks for a payment.
    type Coins;

    /// A signed transaction, ready to be broadcast.
    type Transaction;

    /// The type of the addresses that this maker derives by default.
    fn default_address_type(&self) -> AddressType;

    /// The directory in which this maker keeps its data.
    fn data_dir(&self) -> PathBuf;

    /// All outputs in the wallet. The wallet's listing cannot fail once the
    /// wallet is locked, so the error of each of the four listings is a
    /// text: that of the lock's error, or of what else kept the outputs from
    /// being read.
    fn list_all_utxo_spend_info(&self) -> Result<Vec<Utxo>, String>;

    /// The outputs received in swaps.
    fn list_incoming_swap_coin_utxo_spend_info(&self) -> Result<Vec<Utxo>, String>;

    /// The outputs locked in live timelock contracts.
    fn list_live_timelock_contract_spend_info(&self) -> Result<Vec<Utxo>, String>;

    /// The outputs locked in fidelity bonds.
    fn list_fidelity_spend_info(&self) -> Result<Vec<Utxo>, String>;

    /// The balance of each category.
    fn get_balances(&self) -> Result<Balances, WalletFailure>;

    /// Derives the next receiving address of the given type and records it.
    fn get_next_external_address(&self, address_type: AddressType) -> Result<String, WalletFailure>;

    /// Picks coins that cover `amount` satoshis and the fee at `feerate`.
    fn coin_select(&self, amount: u64, feerate: FeeRate) -> Result<Self::Coins, WalletFailure>;

    /// Builds and signs the transaction that pays `destination` from `coins`.
    fn spend_from_wallet(
        &self,
        feerate: FeeRate,
        destination: &Destination,
        coins: &Self::Coins,
    ) -> Result<Self::Transaction, WalletFailure>;

    /// Broadcasts the transaction and returns its identifier.
    fn send_tx(&self, tx: &Self::Transaction) -> Result<String, WalletFailure>;

    /// Synchronises the wallet with the chain and saves it.
    fn sync_and_save(&self) -> Result<(), WalletFailure>;

    /// A description of all fidelity bonds, live and past.
    fn display_fidelity_bonds(&self) -> Result<String, WalletFailure>;
}

/// Why the address parser of the `bitcoin` crate rejects a text, in the
/// parser's own words; `None` for a text that it accepts.
pub uninterp spec fn address_rejection(address: Seq<char>) -> Option<Seq<char>>;

/// Parses `address` with `bitcoin::Address::from_str` and, where the parser
/// rejects it, returns the error's `Display` text. The parser reads nothing
/// but its argument, so what it says of a text is a fact about that text.
#[verifier::external_body]
pub(crate) fn reject_address(address: &str) -> (reason: Option<String>)
    ensures
        match reason {
            Some(text) => address_rejection(address@) == Some(text@),
            None => address_rejection(address@) is None,
        },
{
    match bitcoin::Address::from_str(address) {
        Ok(_) => None,
        Err(e) => Some(e.to_string()),
    }
}

} // verus!
