use maker_dashboard::handler::handle_request;
use maker_dashboard::handler::invalid_address;
use maker_dashboard::handler::stage_failure;
use maker_dashboard::handler::utxo_response;
use maker_dashboard::handler::SendStage;
use maker_dashboard::handler::UtxoKind;
use maker_dashboard::message::Balances;
use maker_dashboard::message::FeeRate;
use maker_dashboard::message::MessageRequest;
use maker_dashboard::message::MessageResponse;
use maker_dashboard::message::Utxo;
use maker_dashboard::wallet::AddressType;
use maker_dashboard::wallet::Destination;
use maker_dashboard::wallet::MakerWalletAccess;
use maker_dashboard::wallet::WalletError;
use maker_dashboard::wallet::WalletFailure;
use std::path::PathBuf;
use std::str::FromStr;
use std::sync::Mutex;

const GOOD_ADDRESS: &str = "bc1qw508d6qejxtdg4y5r3zarvary0c5xw7kv8f3t4";

/// A wallet that answers from a script and records every call.
struct Scripted {
    address_type: AddressType,
    poisoned: bool,
    fail_at: Option<&'static str>,
    calls: Mutex<Vec<String>>,
}

impl Scripted {
    fn new() -> Self {
        Scripted { address_type: AddressType::P2WPKH, poisoned: false, fail_at: None, calls: Mutex::new(Vec::new()) }
    }

    fn failing_at(step: &'static str) -> Self {
        Scripted { fail_at: Some(step), ..Scripted::new() }
    }

    fn poisoned_at(step: &'static str) -> Self {
        Scripted { poisoned: true, fail_at: Some(step), ..Scripted::new() }
    }

    fn enter(&self, call: String, step: &'static str) -> Result<(), WalletFailure> {
        self.calls.lock().unwrap().push(call);
        if self.fail_at == Some(step) {
            if self.poisoned {
                Err(WalletFailure::Lock("poisoned lock".to_string()))
            } else {
                Err(WalletFailure::Operation(WalletError {
                    display: format!("{} broke", step),
                    debug: format!("Broke({:?})", step),
                }))
            }
        } else {
            Ok(())
        }
    }

    fn lock(&self, step: &'static str) -> Result<(), String> {
        self.calls.lock().unwrap().push(step.to_string());
        if self.poisoned && self.fail_at == Some(step) {
            Err("poisoned lock".to_string())
        } else {
            Ok(())
        }
    }

    fn calls(&self) -> Vec<String> {
        self.calls.lock().unwrap().clone()
    }
}

fn utxo(addr: &str, amount: u64) -> Utxo {
    Utxo { addr: addr.to_string(), amount, confirmations: 6, utxo_type: "regular".to_string() }
}

impl MakerWalletAccess for Scripted {
    type Coins = Vec<u32>;
    type Transaction = String;

    fn default_address_type(&self) -> AddressType {
        self.address_type
    }

    fn data_dir(&self) -> PathBuf {
        self.calls.lock().unwrap().push("data_dir".to_string());
        PathBuf::from("/var/lib/maker")
    }

    fn list_all_utxo_spend_info(&self) -> Result<Vec<Utxo>, String> {
        self.lock("list_all")?;
        Ok(vec![utxo("a1", 10), utxo("a2", 20)])
    }

    fn list_incoming_swap_coin_utxo_spend_info(&self) -> Result<Vec<Utxo>, String> {
        self.lock("list_swap")?;
        Ok(vec![utxo("s1", 30)])
    }

    fn list_live_timelock_contract_spend_info(&self) -> Result<Vec<Utxo>, String> {
        self.lock("list_contract")?;
        Ok(vec![utxo("c1", 40)])
    }

    fn list_fidelity_spend_info(&self) -> Result<Vec<Utxo>, String> {
        self.lock("list_fidelity")?;
        Ok(vec![utxo("f1", 50)])
    }

    fn get_balances(&self) -> Result<Balances, WalletFailure> {
        self.enter("balances".to_string(), "balances")?;
        Ok(Balances { regular: 1, swap: 2, contract: 3, fidelity: 4, spendable: 5 })
    }

    fn get_next_external_address(&self, address_type: AddressType) -> Result<String, WalletFailure> {
        self.enter(format!("next_address {:?}", address_type), "next_address")?;
        Ok("bcrt1qnew".to_string())
    }

    fn coin_select(&self, amount: u64, feerate: FeeRate) -> Result<Vec<u32>, WalletFailure> {
        self.enter(format!("coin_select {} {}", amount, f64::from_bits(feerate.bits)), "coin_select")?;
        Ok(vec![7, 8])
    }

    fn spend_from_wallet(
        &self,
        feerate: FeeRate,
        destination: &Destination,
        coins: &Vec<u32>,
    ) -> Result<String, WalletFailure> {
        self.enter(
            format!(
                "spend {} {} {} {:?} {:?}",
                f64::from_bits(feerate.bits),
                destination.address,
                destination.amount,
                destination.change_address_type,
                coins
            ),
            "spend",
        )?;
        Ok("rawtx".to_string())
    }

    fn send_tx(&self, tx: &String) -> Result<String, WalletFailure> {
        self.enter(format!("send_tx {}", tx), "send_tx")?;
        Ok("txid-1".to_string())
    }

    fn sync_and_save(&self) -> Result<(), WalletFailure> {
        self.enter("sync".to_string(), "sync")
    }

    fn display_fidelity_bonds(&self) -> Result<String, WalletFailure> {
        self.enter("bonds".to_string(), "bonds")?;
        Ok("[bond 0]".to_string())
    }
}

fn pay(address: &str) -> MessageRequest {
    MessageRequest::SendToAddress {
        address: address.to_string(),
        amount: 5000,
        feerate: FeeRate { bits: 2.5f64.to_bits() },
    }
}

fn error(text: &str) -> Result<MessageResponse, String> {
    Ok(MessageResponse::ServerError(text.to_string()))
}

#[test]
fn ping_yields_pong_and_touches_nothing() {
    let maker = Scripted::new();
    let before = handle_request(&maker, MessageRequest::Balances);
    let calls_before = maker.calls().len();
    assert_eq!(handle_request(&maker, MessageRequest::Ping), Ok(MessageResponse::Pong));
    assert_eq!(maker.calls().len(), calls_before);
    let after = handle_request(&maker, MessageRequest::Balances);
    assert_eq!(before, after);
}

#[test]
fn stop_is_acknowledged_without_a_wallet_call() {
    let maker = Scripted::new();
    assert_eq!(handle_request(&maker, MessageRequest::Stop), Ok(MessageResponse::Shutdown));
    assert!(maker.calls().is_empty());
}

#[test]
fn tor_address_is_not_implemented() {
    let maker = Scripted::new();
    assert_eq!(
        handle_request(&maker, MessageRequest::GetTorAddress),
        error("GetTorAddress not yet implemented")
    );
    assert!(maker.calls().is_empty());
}

#[test]
fn each_listing_comes_in_its_own_variant() {
    let maker = Scripted::new();
    assert_eq!(
        handle_request(&maker, MessageRequest::Utxo),
        Ok(MessageResponse::UtxoResp { utxos: vec![utxo("a1", 10), utxo("a2", 20)] })
    );
    assert_eq!(
        handle_request(&maker, MessageRequest::SwapUtxo),
        Ok(MessageResponse::SwapUtxoResp { utxos: vec![utxo("s1", 30)] })
    );
    assert_eq!(
        handle_request(&maker, MessageRequest::ContractUtxo),
        Ok(MessageResponse::ContractUtxoResp { utxos: vec![utxo("c1", 40)] })
    );
    assert_eq!(
        handle_request(&maker, MessageRequest::FidelityUtxo),
        Ok(MessageResponse::FidelityUtxoResp { utxos: vec![utxo("f1", 50)] })
    );
    assert_eq!(maker.calls(), vec!["list_all", "list_swap", "list_contract", "list_fidelity"]);
}

#[test]
fn a_listing_that_cannot_lock_is_an_error_response() {
    let maker = Scripted::poisoned_at("list_swap");
    assert_eq!(handle_request(&maker, MessageRequest::SwapUtxo), error("poisoned lock"));
}

#[test]
fn utxo_response_by_kind() {
    assert_eq!(
        utxo_response(UtxoKind::All, Ok(vec![utxo("a", 1)])),
        MessageResponse::UtxoResp { utxos: vec![utxo("a", 1)] }
    );
    assert_eq!(
        utxo_response(UtxoKind::IncomingSwap, Ok(vec![])),
        MessageResponse::SwapUtxoResp { utxos: vec![] }
    );
    assert_eq!(
        utxo_response(UtxoKind::LiveContract, Ok(vec![])),
        MessageResponse::ContractUtxoResp { utxos: vec![] }
    );
    assert_eq!(
        utxo_response(UtxoKind::Fidelity, Ok(vec![])),
        MessageResponse::FidelityUtxoResp { utxos: vec![] }
    );
    assert_eq!(
        utxo_response(UtxoKind::All, Err("locked".to_string())),
        MessageResponse::ServerError("locked".to_string())
    );
}

#[test]
fn balances_are_reported() {
    let maker = Scripted::new();
    assert_eq!(
        handle_request(&maker, MessageRequest::Balances),
        Ok(MessageResponse::TotalBalanceResp(Balances {
            regular: 1,
            swap: 2,
            contract: 3,
            fidelity: 4,
            spendable: 5
        }))
    );
    let broken = Scripted::failing_at("balances");
    assert_eq!(handle_request(&broken, MessageRequest::Balances), error("Broke(\"balances\")"));
    let locked = Scripted::poisoned_at("balances");
    assert_eq!(handle_request(&locked, MessageRequest::Balances), error("poisoned lock"));
}

#[test]
fn new_address_uses_the_default_address_type() {
    let mut maker = Scripted::new();
    maker.address_type = AddressType::P2TR;
    assert_eq!(
        handle_request(&maker, MessageRequest::NewAddress),
        Ok(MessageResponse::NewAddressResp("bcrt1qnew".to_string()))
    );
    assert_eq!(maker.calls(), vec!["next_address P2TR"]);
    let broken = Scripted::failing_at("next_address");
    assert_eq!(
        handle_request(&broken, MessageRequest::NewAddress),
        error("Broke(\"next_address\")")
    );
}

#[test]
fn data_dir_is_read_from_the_maker() {
    let maker = Scripted::new();
    assert_eq!(
        handle_request(&maker, MessageRequest::GetDataDir),
        Ok(MessageResponse::GetDataDirResp(PathBuf::from("/var/lib/maker")))
    );
}

#[test]
fn fidelity_bonds_are_listed() {
    let maker = Scripted::new();
    assert_eq!(
        handle_request(&maker, MessageRequest::ListFidelity),
        Ok(MessageResponse::ListBonds("[bond 0]".to_string()))
    );
    let broken = Scripted::failing_at("bonds");
    assert_eq!(handle_request(&broken, MessageRequest::ListFidelity), error("bonds broke"));
}

#[test]
fn sync_answers_pong() {
    let maker = Scripted::new();
    assert_eq!(handle_request(&maker, MessageRequest::SyncWallet), Ok(MessageResponse::Pong));
    assert_eq!(maker.calls(), vec!["sync"]);
    let broken = Scripted::failing_at("sync");
    assert_eq!(handle_request(&broken, MessageRequest::SyncWallet), error("sync broke"));
}

#[test]
fn payment_runs_every_stage_in_order() {
    let mut maker = Scripted::new();
    maker.address_type = AddressType::P2TR;
    assert_eq!(
        handle_request(&maker, pay(GOOD_ADDRESS)),
        Ok(MessageResponse::SendToAddressResp("txid-1".to_string()))
    );
    assert_eq!(
        maker.calls(),
        vec![
            "coin_select 5000 2.5".to_string(),
            format!("spend 2.5 {} 5000 P2TR [7, 8]", GOOD_ADDRESS),
            "send_tx rawtx".to_string(),
            "sync".to_string(),
        ]
    );
}

#[test]
fn invalid_address_is_an_error_response_not_a_failure() {
    let maker = Scripted::new();
    let reason = bitcoin::Address::from_str("not-an-address").unwrap_err().to_string();
    let result = handle_request(&maker, pay("not-an-address"));
    assert_eq!(result, error(&format!("Invalid address: {}", reason)));
    match result {
        Ok(MessageResponse::ServerError(text)) => assert!(text.contains("Invalid address")),
        _ => panic!("the call itself must succeed with an error response"),
    }
    assert!(maker.calls().is_empty());
}

#[test]
fn empty_address_is_invalid() {
    let maker = Scripted::new();
    match handle_request(&maker, pay("")) {
        Ok(MessageResponse::ServerError(text)) => assert!(text.starts_with("Invalid address: ")),
        _ => panic!("an empty text is no address"),
    }
}

#[test]
fn legacy_address_is_accepted() {
    let maker = Scripted::new();
    assert_eq!(
        handle_request(&maker, pay("1A1zP1eP5QGefi2DMPTfTL5SLmv7DivfNa")),
        Ok(MessageResponse::SendToAddressResp("txid-1".to_string()))
    );
}

#[test]
fn payment_stops_at_the_first_failure() {
    let at_selection = Scripted::failing_at("coin_select");
    assert_eq!(
        handle_request(&at_selection, pay(GOOD_ADDRESS)),
        error("Coin selection failed: Broke(\"coin_select\")")
    );
    assert_eq!(at_selection.calls().len(), 1);

    let at_building = Scripted::failing_at("spend");
    assert_eq!(
        handle_request(&at_building, pay(GOOD_ADDRESS)),
        error("Transaction building failed: Broke(\"spend\")")
    );
    assert_eq!(at_building.calls().len(), 2);

    let at_broadcast = Scripted::failing_at("send_tx");
    assert_eq!(
        handle_request(&at_broadcast, pay(GOOD_ADDRESS)),
        error("Broadcast failed: Broke(\"send_tx\")")
    );
    assert_eq!(at_broadcast.calls().len(), 3);

    let at_sync = Scripted::failing_at("sync");
    assert_eq!(
        handle_request(&at_sync, pay(GOOD_ADDRESS)),
        error("Sync failed: Broke(\"sync\")")
    );
    assert_eq!(at_sync.calls().len(), 4);
}

#[test]
fn payment_reports_a_lock_that_failed() {
    for step in ["coin_select", "spend", "send_tx", "sync"] {
        let maker = Scripted::poisoned_at(step);
        assert_eq!(
            handle_request(&maker, pay(GOOD_ADDRESS)),
            error("Wallet lock failed: poisoned lock")
        );
    }
}

#[test]
fn stage_failure_texts() {
    let operation = |text: &str| {
        WalletFailure::Operation(WalletError { display: "shown".to_string(), debug: text.to_string() })
    };
    assert_eq!(
        stage_failure(SendStage::CoinSelection, operation("x")),
        MessageResponse::ServerError("Coin selection failed: x".to_string())
    );
    assert_eq!(
        stage_failure(SendStage::TransactionBuilding, operation("x")),
        MessageResponse::ServerError("Transaction building failed: x".to_string())
    );
    assert_eq!(
        stage_failure(SendStage::Broadcast, operation("x")),
        MessageResponse::ServerError("Broadcast failed: x".to_string())
    );
    assert_eq!(
        stage_failure(SendStage::Sync, operation("x")),
        MessageResponse::ServerError("Sync failed: x".to_string())
    );
    assert_eq!(
        stage_failure(SendStage::Sync, WalletFailure::Lock("y".to_string())),
        MessageResponse::ServerError("Wallet lock failed: y".to_string())
    );
    assert_eq!(SendStage::Broadcast.label(), "Broadcast failed: ");
}

#[test]
fn invalid_address_text() {
    assert_eq!(
        invalid_address("bad checksum"),
        MessageResponse::ServerError("Invalid address: bad checksum".to_string())
    );
}

#[test]
fn plain_responses_have_a_text() {
    let text = |response: MessageResponse| response.text();
    assert_eq!(text(MessageResponse::Pong), Some("Pong".to_string()));
    assert_eq!(text(MessageResponse::Shutdown), Some("Shutdown Initiated".to_string()));
    assert_eq!(text(MessageResponse::NewAddressResp("bc1q".to_string())), Some("bc1q".to_string()));
    assert_eq!(text(MessageResponse::SendToAddressResp("txid".to_string())), Some("txid".to_string()));
    assert_eq!(
        text(MessageResponse::GetTorAddressResp("abc.onion".to_string())),
        Some("abc.onion".to_string())
    );
    assert_eq!(text(MessageResponse::FidelitySpend("f00d".to_string())), Some("f00d".to_string()));
    assert_eq!(text(MessageResponse::ServerError("broken".to_string())), Some("broken".to_string()));
    assert_eq!(text(MessageResponse::ListBonds("[]".to_string())), Some("[]".to_string()));
}

#[test]
fn responses_in_another_form_have_no_plain_text() {
    assert_eq!(MessageResponse::UtxoResp { utxos: vec![utxo("a", 1)] }.text(), None);
    assert_eq!(MessageResponse::SwapUtxoResp { utxos: vec![] }.text(), None);
    assert_eq!(MessageResponse::ContractUtxoResp { utxos: vec![] }.text(), None);
    assert_eq!(MessageResponse::FidelityUtxoResp { utxos: vec![] }.text(), None);
    assert_eq!(
        MessageResponse::TotalBalanceResp(Balances {
            regular: 1,
            swap: 0,
            contract: 0,
            fidelity: 0,
            spendable: 1
        })
        .text(),
        None
    );
    assert_eq!(MessageResponse::GetDataDirResp(PathBuf::from("/data")).text(), None);
}
