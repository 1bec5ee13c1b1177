//! The requests a maker accepts and the responses it gives.
//!
//! A request carries no correlation identifier: a response belongs to the
//! request that was submitted before it on the same channel pair. Every
//! failure of an operation travels as [`MessageResponse::ServerError`]; there
//! is no other way for a maker to report one.

use std::path::PathBuf;
use vstd::prelude::*;

verus! {

/// `std::path::PathBuf`, which the library only carries from a maker to the
/// caller and never looks into.
#[verifier::external_type_specification]
#[verifier::external_body]
pub struct ExPathBuf(PathBuf);

/// `PathBuf`'s `clone`, which returns a duplicate of the path.
pub assume_specification[ <PathBuf as Clone>::clone ](path: &PathBuf) -> (copy: PathBuf)
    ensures
        copy == *path,
;

/// A fee rate in satoshis per virtual byte, held as the bit pattern of the
/// IEEE-754 double that the wallet works with. The library hands it on
/// unchanged and never computes with it.
#[derive(Debug, Clone, Copy, PartialEq, Eq)]
pub struct FeeRate {
    pub bits: u64,
}

/// One unspent output as a wallet reports it.
#[derive(Debug, Clone, PartialEq, Eq)]
pub struct Utxo {
    /// The address that holds the output.
    pub addr: String,
    /// Its value in satoshis.
    pub amount: u64,
    /// The number of blocks that confirm it.
    pub confirmations: u32,
    /// The wallet's label for the kind of output.
    pub utxo_type: String,
}

/// The mathematical value of a [`Utxo`].
pub struct UtxoView {
    pub addr: Seq<char>,
    pub amount: u64,
    pub confirmations: u32,
    pub utxo_type: Seq<char>,
}

impl View for Utxo {
    type V = UtxoView;

    open spec fn view(&self) -> UtxoView {
        UtxoView {
            addr: self.addr@,
            amount: self.amount,
            confirmations: self.confirmations,
            utxo_type: self.utxo_type@,
        }
    }
}

/// The value of a listing: the value of each output, in order.
pub open spec fn listing(utxos: Vec<Utxo>) -> Seq<UtxoView> {
    utxos@.map_values(|u: Utxo| u@)
}

/// Wallet balances in satoshis, by category.
#[derive(Debug, Clone, Copy, PartialEq, Eq)]
pub struct Balances {
    pub regular: u64,
    pub swap: u64,
    pub contract: u64,
    pub fidelity: u64,
    pub spendable: u64,
}

/// A request to one maker.
#[derive(Debug, PartialEq, Eq)]
pub enum MessageRequest {
    /// Checks that the maker answers.
    Ping,
    /// Asks for all outputs in the wallet.
    Utxo,
    /// Asks for the outputs received in swaps.
    SwapUtxo,
    /// Asks for the outputs locked in live contracts.
    ContractUtxo,
    /// Asks for the outputs locked in fidelity bonds.
    FidelityUtxo,
    /// Asks for the balance of each category.
    Balances,
    /// Asks for a fresh receiving address.
    NewAddress,
    /// Asks the maker to pay `amount` satoshis to `address`.
    SendToAddress { address: String, amount: u64, feerate: FeeRate },
    /// Asks for the maker's onion address.
    GetTorAddress,
    /// Asks for the maker's data directory.
    GetDataDir,
    /// Asks the maker to stop. It is acknowledged and changes nothing.
    Stop,
    /// Asks for a description of all fidelity bonds.
    ListFidelity,
    /// Asks the maker to synchronise its wallet with the chain.
    SyncWallet,
}

/// A maker's answer to one request.
#[derive(Debug, PartialEq, Eq)]
pub enum MessageResponse {
    /// Answers `Ping`, and reports a finished `SyncWallet`.
    Pong,
    /// All outputs in the wallet.
    UtxoResp { utxos: Vec<Utxo> },
    /// The outputs received in swaps.
    SwapUtxoResp { utxos: Vec<Utxo> },
    /// The outputs locked in fidelity bonds.
    FidelityUtxoResp { utxos: Vec<Utxo> },
    /// The outputs locked in live contracts.
    ContractUtxoResp { utxos: Vec<Utxo> },
    /// The balance of each category.
    TotalBalanceResp(Balances),
    /// A fresh receiving address.
    NewAddressResp(String),
    /// The identifier of the transaction that paid.
    SendToAddressResp(String),
    /// The maker's onion address.
    GetTorAddressResp(String),
    /// The maker's data directory.
    GetDataDirResp(PathBuf),
    /// Acknowledges `Stop`.
    Shutdown,
    /// The identifier of a transaction that spent a fidelity bond.
    FidelitySpend(String),
    /// An operation failed; the text says at which step and why.
    ServerError(String),
    /// A description of all fidelity bonds.
    ListBonds(String),
}

/// The mathematical value of a [`MessageResponse`].
pub enum ResponseView {
    Pong,
    UtxoResp { utxos: Seq<UtxoView> },
    SwapUtxoResp { utxos: Seq<UtxoView> },
    FidelityUtxoResp { utxos: Seq<UtxoView> },
    ContractUtxoResp { utxos: Seq<UtxoView> },
    TotalBalanceResp(Balances),
    NewAddressResp(Seq<char>),
    SendToAddressResp(Seq<char>),
    GetTorAddressResp(Seq<char>),
    GetDataDirResp(PathBuf),
    Shutdown,
    FidelitySpend(Seq<char>),
    ServerError(Seq<char>),
    ListBonds(Seq<char>),
}

impl View for MessageResponse {
    type V = ResponseView;

    open spec fn view(&self) -> ResponseView {
        match *self {
            MessageResponse::Pong => ResponseView::Pong,
            MessageResponse::UtxoResp { utxos } => ResponseView::UtxoResp { utxos: listing(utxos) },
            MessageResponse::SwapUtxoResp { utxos } => ResponseView::SwapUtxoResp {
                utxos: listing(utxos),
            },
            MessageResponse::FidelityUtxoResp { utxos } => ResponseView::FidelityUtxoResp {
                utxos: listing(utxos),
            },
            MessageResponse::ContractUtxoResp { utxos } => ResponseView::ContractUtxoResp {
                utxos: listing(utxos),
            },
            MessageResponse::TotalBalanceResp(balances) => ResponseView::TotalBalanceResp(balances),
            MessageResponse::NewAddressResp(address) => ResponseView::NewAddressResp(address@),
            MessageResponse::SendToAddressResp(txid) => ResponseView::SendToAddressResp(txid@),
            MessageResponse::GetTorAddressResp(address) => ResponseView::GetTorAddressResp(
                address@,
            ),
            MessageResponse::GetDataDirResp(path) => ResponseView::GetDataDirResp(path),
            MessageResponse::Shutdown => ResponseView::Shutdown,
            MessageResponse::FidelitySpend(txid) => ResponseView::FidelitySpend(txid@),
            MessageResponse::ServerError(text) => ResponseView::ServerError(text@),
            MessageResponse::ListBonds(text) => ResponseView::ListBonds(text@),
        }
    }
}

impl ResponseView {
    /// The text of a response that prints as plain text: the words of a
    /// response without content, or the text that the response carries.
    /// `None` for a response that prints in another form: balances and
    /// listings as JSON, a data directory as its path.
    pub open spec fn plain_text(self) -> Option<Seq<char>> {
        match self {
            ResponseView::Pong => Some("Pong"@),
            ResponseView::NewAddressResp(address) => Some(address),
            ResponseView::SendToAddressResp(txid) => Some(txid),
            ResponseView::GetTorAddressResp(address) => Some(address),
            ResponseView::Shutdown => Some("Shutdown Initiated"@),
            ResponseView::FidelitySpend(txid) => Some(txid),
            ResponseView::ServerError(text) => Some(text),
            ResponseView::ListBonds(text) => Some(text),
            ResponseView::UtxoResp { .. } => None,
            ResponseView::SwapUtxoResp { .. } => None,
            ResponseView::FidelityUtxoResp { .. } => None,
            ResponseView::ContractUtxoResp { .. } => None,
            ResponseView::TotalBalanceResp(_) => None,
            ResponseView::GetDataDirResp(_) => None,
        }
    }
}

impl MessageResponse {
    /// The text of the response, if it prints as plain text.
    pub fn text(&self) -> (text: Option<String>)
        ensures
            match text {
                Some(text) => self@.plain_text() == Some(text@),
                None => self@.plain_text() is None,
            },
    {
        match self {
            MessageResponse::Pong => Some(String::from_str("Pong")),
            MessageResponse::NewAddressResp(address) => Some(address.clone()),
            MessageResponse::SendToAddressResp(txid) => Some(txid.clone()),
            MessageResponse::GetTorAddressResp(address) => Some(address.clone()),
            MessageResponse::Shutdown => Some(String::from_str("Shutdown Initiated")),
            MessageResponse::FidelitySpend(txid) => Some(txid.clone()),
            MessageResponse::ServerError(text) => Some(text.clone()),
            MessageResponse::ListBonds(text) => Some(text.clone()),
            _ => None,
        }
    }
}

} // verus!
