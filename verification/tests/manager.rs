use maker_dashboard::maker_pool::MakerEntry;
use maker_dashboard::maker_pool::MakerHandle;
use maker_dashboard::maker_pool::PoolError;
use maker_dashboard::manager::MakerConfig;
use maker_dashboard::manager::MakerInit;
use maker_dashboard::manager::MakerManager;
use maker_dashboard::manager::ManagerError;
use maker_dashboard::manager::PingError;
use maker_dashboard::message::Balances;
use maker_dashboard::message::FeeRate;
use maker_dashboard::message::MessageRequest;
use maker_dashboard::message::MessageResponse;
use maker_dashboard::message::Utxo;
use maker_dashboard::wallet::AddressType;
use maker_dashboard::wallet::Destination;
use maker_dashboard::wallet::MakerWalletAccess;
use maker_dashboard::wallet::WalletFailure;
use std::path::PathBuf;
use std::sync::Arc;
use std::sync::Mutex;

/// A maker that remembers what it was initialised with.
struct Made {
    taproot: bool,
    wallet: String,
}

impl MakerWalletAccess for Made {
    type Coins = ();
    type Transaction = ();

    fn default_address_type(&self) -> AddressType {
        if self.taproot {
            AddressType::P2TR
        } else {
            AddressType::P2WPKH
        }
    }

    fn data_dir(&self) -> PathBuf {
        PathBuf::from(&self.wallet)
    }

    fn list_all_utxo_spend_info(&self) -> Result<Vec<Utxo>, String> {
        Ok(Vec::new())
    }

    fn list_incoming_swap_coin_utxo_spend_info(&self) -> Result<Vec<Utxo>, String> {
        Ok(Vec::new())
    }

    fn list_live_timelock_contract_spend_info(&self) -> Result<Vec<Utxo>, String> {
        Ok(Vec::new())
    }

    fn list_fidelity_spend_info(&self) -> Result<Vec<Utxo>, String> {
        Ok(Vec::new())
    }

    fn get_balances(&self) -> Result<Balances, WalletFailure> {
        Ok(Balances { regular: 0, swap: 0, contract: 0, fidelity: 0, spendable: 0 })
    }

    fn get_next_external_address(&self, _address_type: AddressType) -> Result<String, WalletFailure> {
        Ok(String::new())
    }

    fn coin_select(&self, _amount: u64, _feerate: FeeRate) -> Result<(), WalletFailure> {
        Ok(())
    }

    fn spend_from_wallet(
        &self,
        _feerate: FeeRate,
        _destination: &Destination,
        _coins: &(),
    ) -> Result<(), WalletFailure> {
        Ok(())
    }

    fn send_tx(&self, _tx: &()) -> Result<String, WalletFailure> {
        Ok(String::new())
    }

    fn sync_and_save(&self) -> Result<(), WalletFailure> {
        Ok(())
    }

    fn display_fidelity_bonds(&self) -> Result<String, WalletFailure> {
        Ok(String::new())
    }
}

type Entry = MakerEntry<Made, Made>;

trait InnerWallet {
    fn inner_wallet(&self) -> &str;
}

impl InnerWallet for Entry {
    fn inner_wallet(&self) -> &str {
        match &self.inner {
            MakerHandle::Legacy(maker) => &maker.wallet,
            MakerHandle::Taproot(maker) => &maker.wallet,
        }
    }
}
type Started = Arc<Mutex<Vec<Entry>>>;

fn started() -> Started {
    Arc::new(Mutex::new(Vec::new()))
}

fn keep(started: &Started) -> impl FnOnce(Entry) -> usize {
    let started = started.clone();
    move |entry| {
        let mut kept = started.lock().unwrap();
        kept.push(entry);
        kept.len()
    }
}

fn legacy(init: MakerInit) -> Result<Made, String> {
    Ok(Made { taproot: false, wallet: init.rpc_config.wallet_name })
}

fn taproot(init: MakerInit) -> Result<Made, String> {
    Ok(Made { taproot: true, wallet: init.rpc_config.wallet_name })
}

fn broken(_init: MakerInit) -> Result<Made, String> {
    Err("Wallet(Locked)".to_string())
}

fn id(text: &str) -> String {
    text.to_string()
}

fn config() -> MakerConfig {
    MakerConfig {
        auth: Some(("user".to_string(), "pass".to_string())),
        ..MakerConfig::default()
    }
}

fn manager_with(ids: &[&str], started: &Started) -> MakerManager<usize> {
    let mut manager = MakerManager::new();
    for name in ids {
        let made = Made { taproot: false, wallet: name.to_string() };
        assert_eq!(manager.spawn_existing_maker::<Made, Made, _>(id(name), made, keep(started)), Ok(()));
    }
    manager
}

#[test]
fn default_config() {
    let config = MakerConfig::default();
    assert_eq!(config.data_directory, None);
    assert_eq!(config.rpc, "127.0.0.1:38332");
    assert_eq!(config.zmq, "tcp://127.0.0.1:28332");
    assert_eq!(config.auth, None);
    assert_eq!(config.tor_auth, None);
    assert_eq!(config.wallet_name, None);
    assert!(!config.taproot);
    assert_eq!(config.password, None);
}

#[test]
fn plan_needs_credentials() {
    match MakerManager::<usize>::plan(MakerConfig::default()) {
        Err(e) => {
            assert_eq!(e, ManagerError::MissingAuth);
            assert_eq!(
                e.message(),
                "RPC authentication credentials must be provided in MakerConfig.auth"
            );
        },
        Ok(_) => panic!("a configuration without credentials gives no plan"),
    }
}

#[test]
fn plan_takes_the_configuration_over() {
    let config = MakerConfig {
        data_directory: Some(PathBuf::from("/data")),
        rpc: "10.0.0.1:18443".to_string(),
        zmq: "tcp://10.0.0.1:28332".to_string(),
        auth: Some(("alice".to_string(), "secret".to_string())),
        tor_auth: Some("tor".to_string()),
        wallet_name: Some("maker-wallet".to_string()),
        taproot: true,
        password: Some("pw".to_string()),
    };
    let init = MakerManager::<usize>::plan(config).unwrap();
    assert_eq!(init.data_directory, Some(PathBuf::from("/data")));
    assert_eq!(init.wallet_name, Some("maker-wallet".to_string()));
    assert_eq!(init.rpc_config.url, "10.0.0.1:18443");
    assert_eq!(init.rpc_config.user, "alice");
    assert_eq!(init.rpc_config.password, "secret");
    assert_eq!(init.rpc_config.wallet_name, "maker-wallet");
    assert_eq!(init.tor_auth, Some("tor".to_string()));
    assert_eq!(init.zmq, "tcp://10.0.0.1:28332");
    assert_eq!(init.password, Some("pw".to_string()));
}

#[test]
fn plan_loads_the_default_wallet_when_none_is_named() {
    let init = MakerManager::<usize>::plan(config()).unwrap();
    assert_eq!(init.wallet_name, None);
    assert_eq!(init.rpc_config.wallet_name, "random");
}

#[test]
fn create_maker_without_credentials_initialises_nothing() {
    let started = started();
    let mut manager: MakerManager<usize> = MakerManager::new();
    let result = manager.create_maker(
        id("m1"),
        MakerConfig::default(),
        |_init| -> Result<Made, String> { panic!("nothing may be initialised") },
        |_init| -> Result<Made, String> { panic!("nothing may be initialised") },
        keep(&started),
    );
    assert_eq!(result, Err(ManagerError::MissingAuth));
    assert_eq!(manager.maker_count(), 0);
    assert!(started.lock().unwrap().is_empty());
}

#[test]
fn create_maker_initialises_the_configured_protocol() {
    let started = started();
    let mut manager: MakerManager<usize> = MakerManager::new();
    assert_eq!(manager.create_maker(id("old"), config(), legacy, broken, keep(&started)), Ok(()));
    let with_taproot = MakerConfig { taproot: true, ..config() };
    assert_eq!(
        manager.create_maker(id("new"), with_taproot, broken, taproot, keep(&started)),
        Ok(())
    );
    assert_eq!(manager.list_makers(), vec![&id("old"), &id("new")]);
    let kept = started.lock().unwrap();
    assert!(matches!(&kept[0].inner, MakerHandle::Legacy(maker) if !maker.taproot));
    assert!(matches!(&kept[1].inner, MakerHandle::Taproot(maker) if maker.taproot));
}

#[test]
fn create_maker_reports_a_failed_initialisation() {
    let started = started();
    let mut manager: MakerManager<usize> = MakerManager::new();
    let result = manager.create_maker(id("m1"), config(), broken, taproot, keep(&started));
    assert_eq!(
        result,
        Err(ManagerError::InitFailed { taproot: false, detail: "Wallet(Locked)".to_string() })
    );
    assert_eq!(result.unwrap_err().message(), "Failed to initialize maker: Wallet(Locked)");

    let with_taproot = MakerConfig { taproot: true, ..config() };
    let result = manager.create_maker(id("m1"), with_taproot, legacy, broken, keep(&started));
    assert_eq!(
        result.unwrap_err().message(),
        "Failed to initialize taproot maker: Wallet(Locked)"
    );
    assert!(!manager.has_maker(&id("m1")));
    assert!(started.lock().unwrap().is_empty());
}

#[test]
fn create_maker_refuses_a_taken_id_before_initialising() {
    let started = started();
    let mut manager = manager_with(&["m1"], &started);
    for with_taproot in [false, true] {
        let result = manager.create_maker(
            id("m1"),
            MakerConfig { taproot: with_taproot, ..config() },
            |_init| -> Result<Made, String> { panic!("nothing may be initialised") },
            |_init| -> Result<Made, String> { panic!("nothing may be initialised") },
            keep(&started),
        );
        assert_eq!(result, Err(ManagerError::Pool(PoolError::DuplicateId(id("m1")))));
        assert_eq!(result.unwrap_err().message(), "Maker with id 'm1' already exists");
    }
    assert_eq!(manager.maker_count(), 1);
    assert_eq!(started.lock().unwrap().len(), 1);
    assert_eq!(started.lock().unwrap()[0].inner_wallet(), "m1");
}

#[test]
fn a_taken_id_is_reported_even_if_initialising_would_fail() {
    let started = started();
    let mut manager = manager_with(&["m1"], &started);
    let result = manager.create_maker(id("m1"), config(), broken, broken, keep(&started));
    assert_eq!(result, Err(ManagerError::Pool(PoolError::DuplicateId(id("m1")))));
}

#[test]
fn missing_credentials_are_reported_before_a_taken_id() {
    let started = started();
    let mut manager = manager_with(&["m1"], &started);
    let result =
        manager.create_maker(id("m1"), MakerConfig::default(), legacy, taproot, keep(&started));
    assert_eq!(result, Err(ManagerError::MissingAuth));
    assert_eq!(manager.maker_count(), 1);
}

#[test]
fn existing_makers_are_registered_under_their_protocol() {
    let started = started();
    let mut manager: MakerManager<usize> = MakerManager::new();
    let old = Made { taproot: false, wallet: "w".to_string() };
    let new = Made { taproot: true, wallet: "w".to_string() };
    assert_eq!(manager.spawn_existing_maker::<Made, Made, _>(id("a"), old, keep(&started)), Ok(()));
    assert_eq!(
        manager.spawn_existing_taproot_maker::<Made, Made, _>(id("b"), new, keep(&started)),
        Ok(())
    );
    let again = Made { taproot: true, wallet: "w".to_string() };
    assert_eq!(
        manager.spawn_existing_taproot_maker::<Made, Made, _>(id("a"), again, keep(&started)),
        Err(PoolError::DuplicateId(id("a")))
    );
    let kept = started.lock().unwrap();
    assert!(matches!(kept[0].inner, MakerHandle::Legacy(_)));
    assert!(matches!(kept[1].inner, MakerHandle::Taproot(_)));
    assert_eq!(kept.len(), 2);
}

#[test]
fn each_operation_forwards_its_request() {
    let started = started();
    let manager = manager_with(&["m1"], &started);
    let m1 = id("m1");
    assert_eq!(manager.ping(&m1).unwrap().request, MessageRequest::Ping);
    assert_eq!(manager.get_utxos(&m1).unwrap().request, MessageRequest::Utxo);
    assert_eq!(manager.get_swap_utxos(&m1).unwrap().request, MessageRequest::SwapUtxo);
    assert_eq!(manager.get_contract_utxos(&m1).unwrap().request, MessageRequest::ContractUtxo);
    assert_eq!(manager.get_fidelity_utxos(&m1).unwrap().request, MessageRequest::FidelityUtxo);
    assert_eq!(manager.get_balances(&m1).unwrap().request, MessageRequest::Balances);
    assert_eq!(manager.get_new_address(&m1).unwrap().request, MessageRequest::NewAddress);
    assert_eq!(manager.get_tor_address(&m1).unwrap().request, MessageRequest::GetTorAddress);
    assert_eq!(manager.get_data_dir(&m1).unwrap().request, MessageRequest::GetDataDir);
    assert_eq!(manager.list_fidelity(&m1).unwrap().request, MessageRequest::ListFidelity);
    assert_eq!(manager.sync_wallet(&m1).unwrap().request, MessageRequest::SyncWallet);
    assert_eq!(manager.request(&m1, MessageRequest::Stop).unwrap().request, MessageRequest::Stop);
    let feerate = FeeRate { bits: 1.5f64.to_bits() };
    assert_eq!(
        manager.send_to_address(&m1, "addr".to_string(), 42, feerate).unwrap().request,
        MessageRequest::SendToAddress { address: "addr".to_string(), amount: 42, feerate }
    );
}

#[test]
fn operations_on_an_unknown_maker_are_not_found() {
    let started = started();
    let manager = manager_with(&["m1"], &started);
    let m2 = id("m2");
    let not_found = PoolError::NotFound(id("m2"));
    assert_eq!(manager.ping(&m2).err(), Some(PoolError::NotFound(id("m2"))));
    assert_eq!(manager.get_utxos(&m2).err().as_ref(), Some(&not_found));
    assert_eq!(manager.get_balances(&m2).err().as_ref(), Some(&not_found));
    assert_eq!(manager.sync_wallet(&m2).err().as_ref(), Some(&not_found));
    assert_eq!(manager.request(&m2, MessageRequest::Ping).err().as_ref(), Some(&not_found));
    let feerate = FeeRate { bits: 0 };
    assert_eq!(
        manager.send_to_address(&m2, String::new(), 0, feerate).err().as_ref(),
        Some(&not_found)
    );
}

#[test]
fn ping_response_is_read() {
    assert_eq!(MakerManager::<usize>::ping_response(MessageResponse::Pong), Ok(()));
    let failed = MakerManager::<usize>::ping_response(MessageResponse::ServerError(
        "wallet is locked".to_string(),
    ));
    assert_eq!(failed, Err(PingError::Server("wallet is locked".to_string())));
    assert_eq!(failed.unwrap_err().message(), "wallet is locked");
    let odd = MakerManager::<usize>::ping_response(MessageResponse::Shutdown);
    assert_eq!(odd, Err(PingError::Unexpected));
    assert_eq!(odd.unwrap_err().message(), "Unexpected response");
}

#[test]
fn introspection_and_removal() {
    let started = started();
    let mut manager = manager_with(&["m1", "m2"], &started);
    assert!(manager.has_maker(&id("m1")));
    assert!(!manager.has_maker(&id("m3")));
    assert_eq!(manager.maker_count(), 2);
    assert_eq!(manager.list_makers(), vec![&id("m1"), &id("m2")]);
    assert!(manager.remove_maker(&id("m1")));
    assert!(!manager.remove_maker(&id("m1")));
    assert!(!manager.has_maker(&id("m1")));
    assert_eq!(manager.maker_count(), 1);
    assert_eq!(manager.ping(&id("m1")).err(), Some(PoolError::NotFound(id("m1"))));
    let empty: MakerManager<usize> = MakerManager::default();
    assert_eq!(empty.maker_count(), 0);
}

#[test]
fn config_clone_is_a_copy() {
    let config = MakerConfig {
        data_directory: Some(PathBuf::from("/data")),
        rpc: "10.0.0.1:18443".to_string(),
        zmq: "tcp://10.0.0.1:28332".to_string(),
        auth: Some(("alice".to_string(), "secret".to_string())),
        tor_auth: Some("tor".to_string()),
        wallet_name: Some("maker-wallet".to_string()),
        taproot: true,
        password: Some("pw".to_string()),
    };
    let copy = config.clone();
    assert_eq!(copy.data_directory, config.data_directory);
    assert_eq!(copy.rpc, config.rpc);
    assert_eq!(copy.zmq, config.zmq);
    assert_eq!(copy.auth, config.auth);
    assert_eq!(copy.tor_auth, config.tor_auth);
    assert_eq!(copy.wallet_name, config.wallet_name);
    assert_eq!(copy.taproot, config.taproot);
    assert_eq!(copy.password, config.password);
    let plain = MakerConfig::default().clone();
    assert_eq!(plain.auth, None);
    assert_eq!(plain.rpc, "127.0.0.1:38332");
}
