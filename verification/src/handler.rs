//! How one request is answered on a maker.
//!
//! [`handle_request`] runs the wallet operations that a request calls for and
//! turns what they return into the response. No failure leaves it in any other
//! form than an error response: the caller can always tell a request that
//! never reached the maker from one that reached it and failed.

use crate::message::listing;
use crate::message::Balances;
use crate::message::FeeRate;
use crate::message::MessageRequest;
use crate::message::MessageResponse;
use crate::message::ResponseView;
use crate::message::Utxo;
use crate::wallet::address_rejection;
use crate::wallet::reject_address;
use crate::wallet::AddressType;
use crate::wallet::Destination;
use crate::wallet::MakerWalletAccess;
use crate::wallet::WalletFailure;
use std::path::PathBuf;
use vstd::prelude::*;

verus! {

/// The four listings of unspent outputs that a wallet offers.
#[derive(Debug, Clone, Copy, PartialEq, Eq)]
pub enum UtxoKind {
    All,
    IncomingSwap,
    LiveContract,
    Fidelity,
}

/// The wallet steps of a payment, in the order in which they run. Each one
/// can fail, and the first failure ends the payment.
#[derive(Debug, Clone, Copy, PartialEq, Eq)]
pub enum SendStage {
    CoinSelection,
    TransactionBuilding,
    Broadcast,
    Sync,
}

impl SendStage {
    /// The words that open the report of a failure at this step.
    pub open spec fn prefix(self) -> Seq<char> {
        match self {
            SendStage::CoinSelection => "Coin selection failed: "@,
            SendStage::TransactionBuilding => "Transaction building failed: "@,
            SendStage::Broadcast => "Broadcast failed: "@,
            SendStage::Sync => "Sync failed: "@,
        }
    }

    /// The words that open the report of a failure at this step.
    pub fn label(self) -> (label: &'static str)
        ensures
            label@ == self.prefix(),
    {
        match self {
            SendStage::CoinSelection => "Coin selection failed: ",
            SendStage::TransactionBuilding => "Transaction building failed: ",
            SendStage::Broadcast => "Broadcast failed: ",
            SendStage::Sync => "Sync failed: ",
        }
    }
}

/// The reply to a listing request, given what the wallet returned.
pub open spec fn utxo_reply(kind: UtxoKind, listed: Result<Vec<Utxo>, String>) -> ResponseView {
    match listed {
        Ok(utxos) => match kind {
            UtxoKind::All => ResponseView::UtxoResp { utxos: listing(utxos) },
            UtxoKind::IncomingSwap => ResponseView::SwapUtxoResp { utxos: listing(utxos) },
            UtxoKind::LiveContract => ResponseView::ContractUtxoResp { utxos: listing(utxos) },
            UtxoKind::Fidelity => ResponseView::FidelityUtxoResp { utxos: listing(utxos) },
        },
        Err(text) => ResponseView::ServerError(text@),
    }
}

/// Answers a listing request: the outputs in the response variant of their
/// kind, or the text of the lock that failed as an error response.
pub fn utxo_response(kind: UtxoKind, listed: Result<Vec<Utxo>, String>) -> (reply:
    MessageResponse)
    ensures
        reply@ == utxo_reply(kind, listed),
{
    match listed {
        Ok(utxos) => match kind {
            UtxoKind::All => MessageResponse::UtxoResp { utxos },
            UtxoKind::IncomingSwap => MessageResponse::SwapUtxoResp { utxos },
            UtxoKind::LiveContract => MessageResponse::ContractUtxoResp { utxos },
            UtxoKind::Fidelity => MessageResponse::FidelityUtxoResp { utxos },
        },
        Err(text) => MessageResponse::ServerError(text),
    }
}

/// The reply to a balance request, given what the wallet returned.
pub open spec fn balances_reply(found: Result<Balances, WalletFailure>) -> ResponseView {
    match found {
        Ok(balances) => ResponseView::TotalBalanceResp(balances),
        Err(failure) => ResponseView::ServerError(failure.debugged()),
    }
}

/// Answers a balance request.
pub fn balances_response(found: Result<Balances, WalletFailure>) -> (reply: MessageResponse)
    ensures
        reply@ == balances_reply(found),
{
    match found {
        Ok(balances) => MessageResponse::TotalBalanceResp(balances),
        Err(failure) => MessageResponse::ServerError(failure.into_debugged()),
    }
}

/// The reply to a request for a new address, given what the wallet returned.
pub open spec fn new_address_reply(derived: Result<String, WalletFailure>) -> ResponseView {
    match derived {
        Ok(address) => ResponseView::NewAddressResp(address@),
        Err(failure) => ResponseView::ServerError(failure.debugged()),
    }
}

/// Answers a request for a new address.
pub fn new_address_response(derived: Result<String, WalletFailure>) -> (reply: MessageResponse)
    ensures
        reply@ == new_address_reply(derived),
{
    match derived {
        Ok(address) => MessageResponse::NewAddressResp(address),
        Err(failure) => MessageResponse::ServerError(failure.into_debugged()),
    }
}

/// The reply to a request for the fidelity bonds, given what the wallet
/// returned.
pub open spec fn bonds_reply(described: Result<String, WalletFailure>) -> ResponseView {
    match described {
        Ok(bonds) => ResponseView::ListBonds(bonds@),
        Err(failure) => ResponseView::ServerError(failure.shown()),
    }
}

/// Answers a request for the fidelity bonds.
pub fn bonds_response(described: Result<String, WalletFailure>) -> (reply: MessageResponse)
    ensures
        reply@ == bonds_reply(described),
{
    match described {
        Ok(bonds) => MessageResponse::ListBonds(bonds),
        Err(failure) => MessageResponse::ServerError(failure.into_shown()),
    }
}

/// The reply to a request to synchronise, given what the wallet returned.
pub open spec fn sync_reply(synced: Result<(), WalletFailure>) -> ResponseView {
    match synced {
        Ok(_) => ResponseView::Pong,
        Err(failure) => ResponseView::ServerError(failure.shown()),
    }
}

/// Answers a request to synchronise the wallet.
pub fn sync_response(synced: Result<(), WalletFailure>) -> (reply: MessageResponse)
    ensures
        reply@ == sync_reply(synced),
{
    match synced {
        Ok(_) => MessageResponse::Pong,
        Err(failure) => MessageResponse::ServerError(failure.into_shown()),
    }
}

/// The words that open the report of a wallet that could not be locked
/// during a payment.
pub open spec fn lock_failed_prefix() -> Seq<char> {
    "Wallet lock failed: "@
}

/// The words that open the report of a payment to a text that is no address.
pub open spec fn invalid_address_prefix() -> Seq<char> {
    "Invalid address: "@
}

/// What a request for the onion address is answered with.
pub open spec fn tor_address_notice() -> Seq<char> {
    "GetTorAddress not yet implemented"@
}

/// The report of a payment that failed at `stage`: the words that name the
/// step followed by the wallet's error as `Debug` prints it, or the words
/// that name the lock followed by the text of the lock's error.
pub open spec fn stage_failure_text(stage: SendStage, failure: WalletFailure) -> Seq<char> {
    match failure {
        WalletFailure::Lock(text) => lock_failed_prefix() + text@,
        WalletFailure::Operation(error) => stage.prefix() + error.debug@,
    }
}

/// Reports a payment that failed at `stage`.
pub fn stage_failure(stage: SendStage, failure: WalletFailure) -> (reply: MessageResponse)
    ensures
        reply@ == ResponseView::ServerError(stage_failure_text(stage, failure)),
{
    let text = match failure {
        WalletFailure::Lock(text) => String::from_str("Wallet lock failed: ").concat(text.as_str()),
        WalletFailure::Operation(error) => String::from_str(stage.label()).concat(
            error.debug.as_str(),
        ),
    };
    MessageResponse::ServerError(text)
}

/// Reports a payment to a text that the address parser rejected for `reason`.
pub fn invalid_address(reason: &str) -> (reply: MessageResponse)
    ensures
        reply@ == ResponseView::ServerError(invalid_address_prefix() + reason@),
{
    MessageResponse::ServerError(String::from_str("Invalid address: ").concat(reason))
}

/// Whether `reply` answers a payment whose transaction `txid` names: the
/// wallet was synchronised, and the reply is the identifier or the report of
/// the failed synchronisation.
pub open spec fn answers_after_broadcast<M: MakerWalletAccess>(
    maker: &M,
    txid: String,
    reply: ResponseView,
) -> bool {
    exists|synced: Result<(), WalletFailure>|
        #[trigger] call_ensures(M::sync_and_save, (maker,), synced) && match synced {
            Ok(_) => reply == ResponseView::SendToAddressResp(txid@),
            Err(failure) => reply == ResponseView::ServerError(
                stage_failure_text(SendStage::Sync, failure),
            ),
        }
}

/// Whether `reply` answers a payment for which `tx` was built: it was
/// broadcast, and the reply is the report of the failed broadcast or what
/// follows a broadcast.
pub open spec fn answers_after_building<M: MakerWalletAccess>(
    maker: &M,
    tx: M::Transaction,
    reply: ResponseView,
) -> bool {
    exists|sent: Result<String, WalletFailure>|
        #[trigger] call_ensures(M::send_tx, (maker, &tx), sent) && match sent {
            Ok(txid) => answers_after_broadcast(maker, txid, reply),
            Err(failure) => reply == ResponseView::ServerError(
                stage_failure_text(SendStage::Broadcast, failure),
            ),
        }
}

/// Whether `reply` answers a payment for which `coins` were selected: the
/// transaction to `destination` was built from them, and the reply is the
/// report of the failed build or what follows a build.
pub open spec fn answers_after_selection<M: MakerWalletAccess>(
    maker: &M,
    feerate: FeeRate,
    destination: Destination,
    coins: M::Coins,
    reply: ResponseView,
) -> bool {
    exists|built: Result<M::Transaction, WalletFailure>|
        #[trigger] call_ensures(M::spend_from_wallet, (maker, feerate, &destination, &coins), built)
            && match built {
            Ok(tx) => answers_after_building(maker, tx, reply),
            Err(failure) => reply == ResponseView::ServerError(
                stage_failure_text(SendStage::TransactionBuilding, failure),
            ),
        }
}

/// Whether `reply` answers a request to pay `amount` satoshis to `address`.
///
/// A text that is no address is reported at once, in the parser's words.
/// Otherwise coins are selected for the amount at the fee rate, the
/// transaction is built with change to the maker's default address type,
/// broadcast, and the wallet synchronised. The first step that fails ends
/// the payment with its report; the identifier of the transaction is the
/// reply only when every step succeeded.
pub open spec fn answers_payment<M: MakerWalletAccess>(
    maker: &M,
    address: String,
    amount: u64,
    feerate: FeeRate,
    reply: ResponseView,
) -> bool {
    match address_rejection(address@) {
        Some(reason) => reply == ResponseView::ServerError(invalid_address_prefix() + reason),
        None => exists|change: AddressType, selected: Result<M::Coins, WalletFailure>|
            #[trigger] call_ensures(M::default_address_type, (maker,), change)
                && #[trigger] call_ensures(M::coin_select, (maker, amount, feerate), selected)
                && match selected {
                Ok(coins) => answers_after_selection(
                    maker,
                    feerate,
                    Destination { address, amount, change_address_type: change },
                    coins,
                    reply,
                ),
                Err(failure) => reply == ResponseView::ServerError(
                    stage_failure_text(SendStage::CoinSelection, failure),
                ),
            },
    }
}

/// Whether `reply` answers `request` on `maker`: it is what the request's
/// rule makes of a result that the maker's wallet can return, the operation
/// having been called with the arguments that the request fixes.
pub open spec fn answers<M: MakerWalletAccess>(
    maker: &M,
    request: MessageRequest,
    reply: ResponseView,
) -> bool {
    match request {
        MessageRequest::Ping => reply == ResponseView::Pong,
        MessageRequest::Utxo => exists|listed: Result<Vec<Utxo>, String>|
            #[trigger] call_ensures(M::list_all_utxo_spend_info, (maker,), listed) && reply
                == utxo_reply(UtxoKind::All, listed),
        MessageRequest::SwapUtxo => exists|listed: Result<Vec<Utxo>, String>|
            #[trigger] call_ensures(M::list_incoming_swap_coin_utxo_spend_info, (maker,), listed)
                && reply == utxo_reply(UtxoKind::IncomingSwap, listed),
        MessageRequest::ContractUtxo => exists|listed: Result<Vec<Utxo>, String>|
            #[trigger] call_ensures(M::list_live_timelock_contract_spend_info, (maker,), listed)
                && reply == utxo_reply(UtxoKind::LiveContract, listed),
        MessageRequest::FidelityUtxo => exists|listed: Result<Vec<Utxo>, String>|
            #[trigger] call_ensures(M::list_fidelity_spend_info, (maker,), listed) && reply
                == utxo_reply(UtxoKind::Fidelity, listed),
        MessageRequest::Balances => exists|found: Result<Balances, WalletFailure>|
            #[trigger] call_ensures(M::get_balances, (maker,), found) && reply == balances_reply(
                found,
            ),
        MessageRequest::NewAddress => exists|
            address_type: AddressType,
            derived: Result<String, WalletFailure>,
        |
            #[trigger] call_ensures(M::default_address_type, (maker,), address_type)
                && #[trigger] call_ensures(
                M::get_next_external_address,
                (maker, address_type),
                derived,
            ) && reply == new_address_reply(derived),
        MessageRequest::SendToAddress { address, amount, feerate } => answers_payment(
            maker,
            address,
            amount,
            feerate,
            reply,
        ),
        MessageRequest::GetTorAddress => reply == ResponseView::ServerError(tor_address_notice()),
        MessageRequest::GetDataDir => exists|path: PathBuf|
            #[trigger] call_ensures(M::data_dir, (maker,), path) && reply
                == ResponseView::GetDataDirResp(path),
        MessageRequest::Stop => reply == ResponseView::Shutdown,
        MessageRequest::ListFidelity => exists|described: Result<String, WalletFailure>|
            #[trigger] call_ensures(M::display_fidelity_bonds, (maker,), described) && reply
                == bonds_reply(described),
        MessageRequest::SyncWallet => exists|synced: Result<(), WalletFailure>|
            #[trigger] call_ensures(M::sync_and_save, (maker,), synced) && reply == sync_reply(
                synced,
            ),
    }
}

/// Whether `reply` is the response variant that a successful `request` is
/// answered with. A request for the onion address has none.
pub open spec fn succeeds(request: MessageRequest, reply: ResponseView) -> bool {
    match request {
        MessageRequest::Ping => reply is Pong,
        MessageRequest::Utxo => reply is UtxoResp,
        MessageRequest::SwapUtxo => reply is SwapUtxoResp,
        MessageRequest::ContractUtxo => reply is ContractUtxoResp,
        MessageRequest::FidelityUtxo => reply is FidelityUtxoResp,
        MessageRequest::Balances => reply is TotalBalanceResp,
        MessageRequest::NewAddress => reply is NewAddressResp,
        MessageRequest::SendToAddress { .. } => reply is SendToAddressResp,
        MessageRequest::GetTorAddress => false,
        MessageRequest::GetDataDir => reply is GetDataDirResp,
        MessageRequest::Stop => reply is Shutdown,
        MessageRequest::ListFidelity => reply is ListBonds,
        MessageRequest::SyncWallet => reply is Pong,
    }
}

/// Whether the answer to a request is the same on every maker: for a ping, a
/// stop and a request for the onion address nothing of the maker is asked.
pub open spec fn same_on_every_maker(request: MessageRequest) -> bool {
    request is Ping || request is Stop || request is GetTorAddress
}

/// Every answer is either the response variant of its request or an error
/// response. A ping, a stop and a request for the data directory are never
/// answered with an error.
pub proof fn lemma_answer_is_success_or_error<M: MakerWalletAccess>(
    maker: &M,
    request: MessageRequest,
    reply: ResponseView,
)
    requires
        answers(maker, request, reply),
    ensures
        succeeds(request, reply) || reply is ServerError,
        request is Ping || request is Stop || request is GetDataDir ==> succeeds(request, reply),
{
}

/// Such a request has one answer, whatever the maker: a ping is answered with
/// `Pong`, a stop with `Shutdown`, and a request for the onion address with
/// the notice that there is none yet.
pub proof fn lemma_answer_on_every_maker<M: MakerWalletAccess, N: MakerWalletAccess>(
    maker: &M,
    other: &N,
    request: MessageRequest,
    reply: ResponseView,
)
    requires
        same_on_every_maker(request),
        answers(maker, request, reply),
    ensures
        answers(other, request, reply),
        request is Ping ==> reply == ResponseView::Pong,
        request is Stop ==> reply == ResponseView::Shutdown,
        request is GetTorAddress ==> reply == ResponseView::ServerError(tor_address_notice()),
{
}

/// A payment to a text that is no address is answered with an error response
/// whose text begins with the words for an invalid address.
pub proof fn lemma_invalid_address_is_reported<M: MakerWalletAccess>(
    maker: &M,
    address: String,
    amount: u64,
    feerate: FeeRate,
    reply: ResponseView,
)
    requires
        address_rejection(address@) is Some,
        answers(maker, MessageRequest::SendToAddress { address, amount, feerate }, reply),
    ensures
        reply matches ResponseView::ServerError(text) && invalid_address_prefix().is_prefix_of(text),
{
}

/// Answers one request on a maker.
///
/// The handler never reports a fault of its own: whatever the wallet does,
/// the result is a response, and a failed operation is an error response.
pub fn handle_request<M: MakerWalletAccess>(maker: &M, request: MessageRequest) -> (result: Result<
    MessageResponse,
    String,
>)
    ensures
        result matches Ok(reply) && answers(maker, request, reply@),
{
    let addr_type = maker.default_address_type();
    Ok(
        match request {
            MessageRequest::Ping => MessageResponse::Pong,
            MessageRequest::Utxo => utxo_response(UtxoKind::All, maker.list_all_utxo_spend_info()),
            MessageRequest::SwapUtxo => utxo_response(
                UtxoKind::IncomingSwap,
                maker.list_incoming_swap_coin_utxo_spend_info(),
            ),
            MessageRequest::ContractUtxo => utxo_response(
                UtxoKind::LiveContract,
                maker.list_live_timelock_contract_spend_info(),
            ),
            MessageRequest::FidelityUtxo => utxo_response(
                UtxoKind::Fidelity,
                maker.list_fidelity_spend_info(),
            ),
            MessageRequest::Balances => balances_response(maker.get_balances()),
            MessageRequest::NewAddress => new_address_response(
                maker.get_next_external_address(addr_type),
            ),
            MessageRequest::SendToAddress { address, amount, feerate } => {
                match reject_address(address.as_str()) {
                    Some(reason) => {
                        return Ok(invalid_address(reason.as_str()));
                    },
                    None => {},
                }
                let destination = Destination { address, amount, change_address_type: addr_type };
                let coins = match maker.coin_select(amount, feerate) {
                    Ok(coins) => coins,
                    Err(failure) => {
                        return Ok(stage_failure(SendStage::CoinSelection, failure));
                    },
                };
                let tx = match maker.spend_from_wallet(feerate, &destination, &coins) {
                    Ok(tx) => tx,
                    Err(failure) => {
                        return Ok(stage_failure(SendStage::TransactionBuilding, failure));
                    },
                };
                let txid = match maker.send_tx(&tx) {
                    Ok(txid) => txid,
                    Err(failure) => {
                        return Ok(stage_failure(SendStage::Broadcast, failure));
                    },
                };
                match maker.sync_and_save() {
                    Ok(_) => {},
                    Err(failure) => {
                        return Ok(stage_failure(SendStage::Sync, failure));
                    },
                }
                MessageResponse::SendToAddressResp(txid)
            },
            MessageRequest::GetTorAddress => MessageResponse::ServerError(
                String::from_str("GetTorAddress not yet implemented"),
            ),
            MessageRequest::GetDataDir => MessageResponse::GetDataDirResp(maker.data_dir()),
            MessageRequest::Stop => MessageResponse::Shutdown,
            MessageRequest::ListFidelity => bonds_response(maker.display_fidelity_bonds()),
            MessageRequest::SyncWallet => sync_response(maker.sync_and_save()),
        },
    )
}

} // verus!
