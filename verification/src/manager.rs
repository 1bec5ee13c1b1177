//! The manager: named operations on top of the pool.
//!
//! Each operation on a maker builds the request that stands for it and lets
//! the pool find the maker. Creating a maker turns a configuration into the
//! arguments of its initialisation and registers what the initialisation
//! returns.

use crate::maker_pool::forwards;
use crate::maker_pool::spawned;
use crate::maker_pool::Forward;
use crate::maker_pool::MakerEntry;
use crate::maker_pool::MakerHandle;
use crate::maker_pool::MakerId;
use crate::maker_pool::MakerPool;
use crate::maker_pool::MakerPoolEntry;
use crate::maker_pool::PoolError;
use crate::message::FeeRate;
use crate::message::MessageRequest;
use crate::message::MessageResponse;
use crate::registry::Registry;
use crate::wallet::MakerWalletAccess;
use std::path::PathBuf;
use vstd::prelude::*;

verus! {

/// What is needed to create a maker.
#[derive(Debug)]
pub struct MakerConfig {
    /// The data directory, if not the maker's default.
    pub data_directory: Option<PathBuf>,
    /// The network address of the Bitcoin Core RPC.
    pub rpc: String,
    /// The address of the Bitcoin Core ZMQ endpoint.
    pub zmq: String,
    /// The user name and password for the RPC. There is no default: without
    /// them no maker is created.
    pub auth: Option<(String, String)>,
    /// The authentication string for Tor, if any.
    pub tor_auth: Option<String>,
    /// The name of the wallet, if not the default.
    pub wallet_name: Option<String>,
    /// Whether the maker speaks the taproot protocol.
    pub taproot: bool,
    /// The password that encrypts the wallet, if any.
    pub password: Option<String>,
}

impl Clone for MakerConfig {
    fn clone(&self) -> (copy: Self)
        ensures
            copy == *self,
    {
        MakerConfig {
            data_directory: match &self.data_directory {
                Some(path) => Some(path.clone()),
                None => None,
            },
            rpc: self.rpc.clone(),
            zmq: self.zmq.clone(),
            auth: match &self.auth {
                Some((user, password)) => Some((user.clone(), password.clone())),
                None => None,
            },
            tor_auth: match &self.tor_auth {
                Some(auth) => Some(auth.clone()),
                None => None,
            },
            wallet_name: match &self.wallet_name {
                Some(name) => Some(name.clone()),
                None => None,
            },
            taproot: self.taproot,
            password: match &self.password {
                Some(password) => Some(password.clone()),
                None => None,
            },
        }
    }
}

impl Default for MakerConfig {
    fn default() -> (config: Self)
        ensures
            config.data_directory is None,
            config.rpc@ == "127.0.0.1:38332"@,
            config.zmq@ == "tcp://127.0.0.1:28332"@,
            config.auth is None,
            config.tor_auth is None,
            config.wallet_name is None,
            !config.taproot,
            config.password is None,
    {
        Self {
            data_directory: None,
            rpc: String::from_str("127.0.0.1:38332"),
            zmq: String::from_str("tcp://127.0.0.1:28332"),
            auth: None,
            tor_auth: None,
            wallet_name: None,
            taproot: false,
            password: None,
        }
    }
}

/// How a maker reaches the Bitcoin Core RPC.
#[derive(Debug)]
pub struct RpcConfig {
    pub url: String,
    pub user: String,
    pub password: String,
    /// The wallet to load over the RPC.
    pub wallet_name: String,
}

/// The arguments of a maker's initialisation.
#[derive(Debug)]
pub struct MakerInit {
    pub data_directory: Option<PathBuf>,
    pub wallet_name: Option<String>,
    pub rpc_config: RpcConfig,
    pub tor_auth: Option<String>,
    pub zmq: String,
    pub password: Option<String>,
}

/// The wallet that the RPC loads where the configuration names none.
pub open spec fn default_rpc_wallet() -> Seq<char> {
    "random"@
}

/// Whether `init` holds the arguments that `config` asks for, with the RPC
/// credentials `user` and `password`: every field is taken over as it is, and
/// the RPC loads the configured wallet, or the default one if none is
/// configured.
pub open spec fn initialises(
    config: MakerConfig,
    user: String,
    password: String,
    init: MakerInit,
) -> bool {
    &&& init.data_directory == config.data_directory
    &&& init.wallet_name == config.wallet_name
    &&& init.rpc_config.url == config.rpc
    &&& init.rpc_config.user == user
    &&& init.rpc_config.password == password
    &&& init.rpc_config.wallet_name@ == match config.wallet_name {
        Some(name) => name@,
        None => default_rpc_wallet(),
    }
    &&& init.tor_auth == config.tor_auth
    &&& init.zmq == config.zmq
    &&& init.password == config.password
}

/// Why the manager could not create a maker.
#[derive(Debug, PartialEq, Eq)]
pub enum ManagerError {
    /// The configuration holds no RPC credentials.
    MissingAuth,
    /// The maker's initialisation failed; `detail` says why.
    InitFailed { taproot: bool, detail: String },
    /// The pool refused the maker.
    Pool(PoolError),
}

impl ManagerError {
    /// The error in words.
    pub open spec fn text(self) -> Seq<char> {
        match self {
            ManagerError::MissingAuth =>
                "RPC authentication credentials must be provided in MakerConfig.auth"@,
            ManagerError::InitFailed { taproot, detail } => if taproot {
                "Failed to initialize taproot maker: "@ + detail@
            } else {
                "Failed to initialize maker: "@ + detail@
            },
            ManagerError::Pool(e) => e.text(),
        }
    }

    /// The error in words.
    pub fn message(&self) -> (text: String)
        ensures
            text@ == self.text(),
    {
        match self {
            ManagerError::MissingAuth => String::from_str(
                "RPC authentication credentials must be provided in MakerConfig.auth",
            ),
            ManagerError::InitFailed { taproot, detail } => if *taproot {
                String::from_str("Failed to initialize taproot maker: ").concat(detail.as_str())
            } else {
                String::from_str("Failed to initialize maker: ").concat(detail.as_str())
            },
            ManagerError::Pool(e) => e.message(),
        }
    }
}

/// Why a ping did not succeed although the maker answered.
#[derive(Debug, PartialEq, Eq)]
pub enum PingError {
    /// The maker answered with an error response, which held this text.
    Server(String),
    /// The maker answered with something that is neither `Pong` nor an error.
    Unexpected,
}

impl PingError {
    /// The error in words.
    pub open spec fn text(self) -> Seq<char> {
        match self {
            PingError::Server(text) => text@,
            PingError::Unexpected => "Unexpected response"@,
        }
    }

    /// The error in words.
    pub fn message(&self) -> (text: String)
        ensures
            text@ == self.text(),
    {
        match self {
            PingError::Server(text) => text.clone(),
            PingError::Unexpected => String::from_str("Unexpected response"),
        }
    }
}

/// What a ping yields, given the maker's response.
pub open spec fn ping_result(response: MessageResponse) -> Result<(), PingError> {
    match response {
        MessageResponse::Pong => Ok(()),
        MessageResponse::ServerError(text) => Err(PingError::Server(text)),
        _ => Err(PingError::Unexpected),
    }
}

/// Whether `init` holds the arguments that `config` asks for, with the
/// credentials of the configuration.
pub open spec fn plans(config: MakerConfig, init: MakerInit) -> bool {
    config.auth matches Some(auth) && initialises(config, auth.0, auth.1, init)
}

/// Whether `result` and `after` are what follows the initialisation of a
/// maker under an identifier that is free, on a manager that held `before`:
/// a failed initialisation is reported with its text and changes nothing; a
/// maker is registered under `id` and started, as the pool does it.
pub open spec fn follows_init<J, L, T, S: FnOnce(MakerEntry<L, T>) -> J>(
    before: Registry<MakerPoolEntry<J>>,
    id: MakerId,
    taproot: bool,
    made: Result<MakerHandle<L, T>, String>,
    start: S,
    result: Result<(), ManagerError>,
    after: Registry<MakerPoolEntry<J>>,
) -> bool {
    match made {
        Ok(maker) => result is Ok && spawned(before, id, maker, start, Ok::<(), PoolError>(()), after),
        Err(detail) => result == Err::<(), ManagerError>(
            ManagerError::InitFailed { taproot, detail },
        ) && after == before,
    }
}

/// A maker of the first protocol, or the text of its failed initialisation,
/// as a handle.
pub open spec fn as_legacy<L, T>(made: Result<L, String>) -> Result<MakerHandle<L, T>, String> {
    match made {
        Ok(maker) => Ok(MakerHandle::Legacy(maker)),
        Err(detail) => Err(detail),
    }
}

/// A maker of the taproot protocol, or the text of its failed
/// initialisation, as a handle.
pub open spec fn as_taproot<L, T>(made: Result<T, String>) -> Result<MakerHandle<L, T>, String> {
    match made {
        Ok(maker) => Ok(MakerHandle::Taproot(maker)),
        Err(detail) => Err(detail),
    }
}

/// Whether creating a maker from `config` may hand `entry` to `start`: the
/// entry holds a maker that the initialiser of the configured protocol can
/// return for the arguments that the configuration asks for.
pub open spec fn may_start<L, T, IL, IT>(
    config: MakerConfig,
    init_legacy: IL,
    init_taproot: IT,
    entry: MakerEntry<L, T>,
) -> bool where IL: FnOnce(MakerInit) -> Result<L, String>, IT: FnOnce(MakerInit) -> Result<T, String> {
    exists|init: MakerInit| #[trigger]
        plans(config, init) && match entry.inner {
            MakerHandle::Legacy(maker) => !config.taproot && call_ensures(
                init_legacy,
                (init,),
                Ok::<L, String>(maker),
            ),
            MakerHandle::Taproot(maker) => config.taproot && call_ensures(
                init_taproot,
                (init,),
                Ok::<T, String>(maker),
            ),
        }
}

/// Whether `result` and `after` are what creating a maker under `id` from
/// `config` yields on a manager that held `before`.
///
/// Without RPC credentials the result is `MissingAuth`. With credentials and
/// an identifier that is taken the result is `DuplicateId`. In both cases no
/// maker is initialised and nothing changes. Otherwise the initialiser of the
/// configured protocol ran on the arguments that the configuration asks for,
/// and what it returned was dealt with as `follows_init` says.
pub open spec fn created<J, L, T, IL, IT, S>(
    before: Registry<MakerPoolEntry<J>>,
    id: MakerId,
    config: MakerConfig,
    init_legacy: IL,
    init_taproot: IT,
    start: S,
    result: Result<(), ManagerError>,
    after: Registry<MakerPoolEntry<J>>,
) -> bool where
    IL: FnOnce(MakerInit) -> Result<L, String>,
    IT: FnOnce(MakerInit) -> Result<T, String>,
    S: FnOnce(MakerEntry<L, T>) -> J,
 {
    if config.auth is None {
        result == Err::<(), ManagerError>(ManagerError::MissingAuth) && after == before
    } else if before.contains(id@) {
        result == Err::<(), ManagerError>(ManagerError::Pool(PoolError::DuplicateId(id))) && after
            == before
    } else {
        exists|init: MakerInit| #[trigger]
            plans(config, init) && if config.taproot {
                exists|made: Result<T, String>| #[trigger]
                    call_ensures(init_taproot, (init,), made) && follows_init(
                        before,
                        id,
                        true,
                        as_taproot::<L, T>(made),
                        start,
                        result,
                        after,
                    )
            } else {
                exists|made: Result<L, String>| #[trigger]
                    call_ensures(init_legacy, (init,), made) && follows_init(
                        before,
                        id,
                        false,
                        as_legacy::<L, T>(made),
                        start,
                        result,
                        after,
                    )
            }
    }
}

/// Uniqueness at the manager: under an identifier that is taken no maker is
/// created. The attempt is refused, with `DuplicateId` where the
/// configuration holds credentials, and the manager with every maker in it
/// stays as it was. No initialiser stands behind the refusal.
pub proof fn lemma_create_on_taken_id<J, L, T, IL, IT, S>(
    before: Registry<MakerPoolEntry<J>>,
    id: MakerId,
    config: MakerConfig,
    init_legacy: IL,
    init_taproot: IT,
    start: S,
    result: Result<(), ManagerError>,
    after: Registry<MakerPoolEntry<J>>,
) where
    IL: FnOnce(MakerInit) -> Result<L, String>,
    IT: FnOnce(MakerInit) -> Result<T, String>,
    S: FnOnce(MakerEntry<L, T>) -> J,

    requires
        before.contains(id@),
        created(before, id, config, init_legacy, init_taproot, start, result, after),
    ensures
        after == before,
        config.auth is Some ==> result == Err::<(), ManagerError>(
            ManagerError::Pool(PoolError::DuplicateId(id)),
        ),
        config.auth is None ==> result == Err::<(), ManagerError>(ManagerError::MissingAuth),
{
}

/// Creates makers and talks to them by name.
#[verifier::reject_recursive_types(J)]
pub struct MakerManager<J> {
    pool: MakerPool<J>,
}

impl<J> View for MakerManager<J> {
    type V = Registry<MakerPoolEntry<J>>;

    closed spec fn view(&self) -> Registry<MakerPoolEntry<J>> {
        self.pool@
    }
}

impl<J> MakerManager<J> {
    /// Creates a manager without makers.
    pub fn new() -> (manager: Self)
        ensures
            manager@ == Registry::<MakerPoolEntry<J>>::empty(),
            manager@.wf(),
    {
        Self { pool: MakerPool::new() }
    }

    /// Turns a configuration into the arguments of a maker's initialisation.
    /// Fails with `MissingAuth` if, and only if, the configuration holds no
    /// RPC credentials.
    pub fn plan(config: MakerConfig) -> (planned: Result<MakerInit, ManagerError>)
        ensures
            match config.auth {
                Some(auth) => planned matches Ok(init) && initialises(config, auth.0, auth.1, init),
                None => planned == Err::<MakerInit, ManagerError>(ManagerError::MissingAuth),
            },
    {
        let (user, password) = match config.auth {
            Some(auth) => auth,
            None => {
                return Err(ManagerError::MissingAuth);
            },
        };
        let wallet_name = match &config.wallet_name {
            Some(name) => name.clone(),
            None => String::from_str("random"),
        };
        Ok(
            MakerInit {
                data_directory: config.data_directory,
                wallet_name: config.wallet_name,
                rpc_config: RpcConfig { url: config.rpc, user, password, wallet_name },
                tor_auth: config.tor_auth,
                zmq: config.zmq,
                password: config.password,
            },
        )
    }

    /// Creates a maker from `config` and registers it under `id`.
    ///
    /// `init_legacy` and `init_taproot` initialise a maker of their protocol
    /// from the arguments they are given, and `start` starts the loop of the
    /// maker it receives. A configuration without credentials and an
    /// identifier that is taken are refused before anything is initialised.
    /// Which initialiser runs, on what, and what becomes of its result is
    /// stated by `created`.
    pub fn create_maker<L, T, IL, IT, S>(
        &mut self,
        id: MakerId,
        config: MakerConfig,
        init_legacy: IL,
        init_taproot: IT,
        start: S,
    ) -> (result: Result<(), ManagerError>) where
        L: MakerWalletAccess,
        T: MakerWalletAccess,
        IL: FnOnce(MakerInit) -> Result<L, String>,
        IT: FnOnce(MakerInit) -> Result<T, String>,
        S: FnOnce(MakerEntry<L, T>) -> J,

        requires
            !old(self)@.contains(id@) && !config.taproot ==> forall|init: MakerInit|
                plans(config, init) ==> #[trigger] call_requires(init_legacy, (init,)),
            !old(self)@.contains(id@) && config.taproot ==> forall|init: MakerInit|
                plans(config, init) ==> #[trigger] call_requires(init_taproot, (init,)),
            !old(self)@.contains(id@) ==> forall|entry: MakerEntry<L, T>|
                may_start(config, init_legacy, init_taproot, entry) ==> #[trigger] call_requires(
                    start,
                    (entry,),
                ),
        ensures
            created(
                old(self)@,
                id,
                config,
                init_legacy,
                init_taproot,
                start,
                result,
                final(self)@,
            ),
            old(self)@.wf(),
            final(self)@.wf(),
    {
        let taken = self.pool.contains(&id);
        let taproot = config.taproot;
        let init = match Self::plan(config) {
            Ok(init) => init,
            Err(e) => {
                return Err(e);
            },
        };
        if taken {
            return Err(ManagerError::Pool(PoolError::DuplicateId(id)));
        }
        let made = if taproot {
            match init_taproot(init) {
                Ok(maker) => Ok(MakerHandle::Taproot(maker)),
                Err(detail) => Err(detail),
            }
        } else {
            match init_legacy(init) {
                Ok(maker) => Ok(MakerHandle::Legacy(maker)),
                Err(detail) => Err(detail),
            }
        };
        match made {
            Ok(maker) => match self.pool.spawn_maker(id, maker, start) {
                Ok(_) => Ok(()),
                Err(e) => Err(ManagerError::Pool(e)),
            },
            Err(detail) => Err(ManagerError::InitFailed { taproot, detail }),
        }
    }

    /// Registers a maker of the first protocol that exists already, under
    /// `id`, and starts it with `start`.
    pub fn spawn_existing_maker<L, T, S>(&mut self, id: MakerId, maker: L, start: S) -> (result:
        Result<(), PoolError>) where
        L: MakerWalletAccess,
        T: MakerWalletAccess,
        S: FnOnce(MakerEntry<L, T>) -> J,

        requires
            forall|entry: MakerEntry<L, T>|
                entry.inner == MakerHandle::<L, T>::Legacy(maker) ==> #[trigger] call_requires(
                    start,
                    (entry,),
                ),
        ensures
            spawned(
                old(self)@,
                id,
                MakerHandle::<L, T>::Legacy(maker),
                start,
                result,
                final(self)@,
            ),
            old(self)@.wf(),
            final(self)@.wf(),
    {
        self.pool.spawn_maker(id, MakerHandle::Legacy(maker), start)
    }

    /// Registers a maker of the taproot protocol that exists already, under
    /// `id`, and starts it with `start`.
    pub fn spawn_existing_taproot_maker<L, T, S>(&mut self, id: MakerId, maker: T, start: S) -> (result:
        Result<(), PoolError>) where
        L: MakerWalletAccess,
        T: MakerWalletAccess,
        S: FnOnce(MakerEntry<L, T>) -> J,

        requires
            forall|entry: MakerEntry<L, T>|
                entry.inner == MakerHandle::<L, T>::Taproot(maker) ==> #[trigger] call_requires(
                    start,
                    (entry,),
                ),
        ensures
            spawned(
                old(self)@,
                id,
                MakerHandle::<L, T>::Taproot(maker),
                start,
                result,
                final(self)@,
            ),
            old(self)@.wf(),
            final(self)@.wf(),
    {
        self.pool.spawn_maker(id, MakerHandle::Taproot(maker), start)
    }

    /// Sends a ping to the maker under `id`.
    pub fn ping<'a>(&'a self, id: &MakerId) -> (result: Result<Forward<'a, J>, PoolError>)
        ensures
            forwards(self@, id@, MessageRequest::Ping, result),
    {
        self.pool.request(id, MessageRequest::Ping)
    }

    /// Reads the response to a ping: `Pong` is success, an error response
    /// fails with its text, and anything else is unexpected.
    pub fn ping_response(response: MessageResponse) -> (result: Result<(), PingError>)
        ensures
            result == ping_result(response),
    {
        match response {
            MessageResponse::Pong => Ok(()),
            MessageResponse::ServerError(text) => Err(PingError::Server(text)),
            _ => Err(PingError::Unexpected),
        }
    }

    /// Asks the maker under `id` for all outputs of its wallet.
    pub fn get_utxos<'a>(&'a self, id: &MakerId) -> (result: Result<Forward<'a, J>, PoolError>)
        ensures
            forwards(self@, id@, MessageRequest::Utxo, result),
    {
        self.pool.request(id, MessageRequest::Utxo)
    }

    /// Asks the maker under `id` for the outputs received in swaps.
    pub fn get_swap_utxos<'a>(&'a self, id: &MakerId) -> (result: Result<Forward<'a, J>, PoolError>)
        ensures
            forwards(self@, id@, MessageRequest::SwapUtxo, result),
    {
        self.pool.request(id, MessageRequest::SwapUtxo)
    }

    /// Asks the maker under `id` for the outputs locked in live contracts.
    pub fn get_contract_utxos<'a>(&'a self, id: &MakerId) -> (result: Result<
        Forward<'a, J>,
        PoolError,
    >)
        ensures
            forwards(self@, id@, MessageRequest::ContractUtxo, result),
    {
        self.pool.request(id, MessageRequest::ContractUtxo)
    }

    /// Asks the maker under `id` for the outputs locked in fidelity bonds.
    pub fn get_fidelity_utxos<'a>(&'a self, id: &MakerId) -> (result: Result<
        Forward<'a, J>,
        PoolError,
    >)
        ensures
            forwards(self@, id@, MessageRequest::FidelityUtxo, result),
    {
        self.pool.request(id, MessageRequest::FidelityUtxo)
    }

    /// Asks the maker under `id` for its balances.
    pub fn get_balances<'a>(&'a self, id: &MakerId) -> (result: Result<Forward<'a, J>, PoolError>)
        ensures
            forwards(self@, id@, MessageRequest::Balances, result),
    {
        self.pool.request(id, MessageRequest::Balances)
    }

    /// Asks the maker under `id` for a fresh receiving address.
    pub fn get_new_address<'a>(&'a self, id: &MakerId) -> (result: Result<
        Forward<'a, J>,
        PoolError,
    >)
        ensures
            forwards(self@, id@, MessageRequest::NewAddress, result),
    {
        self.pool.request(id, MessageRequest::NewAddress)
    }

    /// Asks the maker under `id` to pay `amount` satoshis to `address` at the
    /// fee rate `feerate`.
    pub fn send_to_address<'a>(
        &'a self,
        id: &MakerId,
        address: String,
        amount: u64,
        feerate: FeeRate,
    ) -> (result: Result<Forward<'a, J>, PoolError>)
        ensures
            forwards(
                self@,
                id@,
                MessageRequest::SendToAddress { address, amount, feerate },
                result,
            ),
    {
        self.pool.request(id, MessageRequest::SendToAddress { address, amount, feerate })
    }

    /// Asks the maker under `id` for its onion address.
    pub fn get_tor_address<'a>(&'a self, id: &MakerId) -> (result: Result<
        Forward<'a, J>,
        PoolError,
    >)
        ensures
            forwards(self@, id@, MessageRequest::GetTorAddress, result),
    {
        self.pool.request(id, MessageRequest::GetTorAddress)
    }

    /// Asks the maker under `id` for its data directory.
    pub fn get_data_dir<'a>(&'a self, id: &MakerId) -> (result: Result<Forward<'a, J>, PoolError>)
        ensures
            forwards(self@, id@, MessageRequest::GetDataDir, result),
    {
        self.pool.request(id, MessageRequest::GetDataDir)
    }

    /// Asks the maker under `id` for a description of its fidelity bonds.
    pub fn list_fidelity<'a>(&'a self, id: &MakerId) -> (result: Result<Forward<'a, J>, PoolError>)
        ensures
            forwards(self@, id@, MessageRequest::ListFidelity, result),
    {
        self.pool.request(id, MessageRequest::ListFidelity)
    }

    /// Asks the maker under `id` to synchronise its wallet with the chain.
    pub fn sync_wallet<'a>(&'a self, id: &MakerId) -> (result: Result<Forward<'a, J>, PoolError>)
        ensures
            forwards(self@, id@, MessageRequest::SyncWallet, result),
    {
        self.pool.request(id, MessageRequest::SyncWallet)
    }

    /// Sends any request to the maker under `id`.
    pub fn request<'a>(&'a self, id: &MakerId, req: MessageRequest) -> (result: Result<
        Forward<'a, J>,
        PoolError,
    >)
        ensures
            forwards(self@, id@, req, result),
            self@.wf(),
    {
        self.pool.request(id, req)
    }

    /// Whether a maker is registered under `id`.
    pub fn has_maker(&self, id: &MakerId) -> (found: bool)
        ensures
            found == self@.contains(id@),
            self@.wf(),
    {
        self.pool.contains(id)
    }

    /// The number of makers.
    pub fn maker_count(&self) -> (count: usize)
        ensures
            count == self@.len(),
            self@.wf(),
    {
        self.pool.len()
    }

    /// The identifiers of all makers, oldest first.
    pub fn list_makers(&self) -> (ids: Vec<&MakerId>)
        ensures
            ids@.len() == self@.len(),
            forall|i: int| 0 <= i < ids@.len() ==> (#[trigger] ids@[i])@ == self@.ids()[i],
            self@.wf(),
    {
        self.pool.list_makers()
    }

    /// Removes the maker under `id`. Returns whether there was one.
    pub fn remove_maker(&mut self, id: &MakerId) -> (removed: bool)
        ensures
            removed == old(self)@.contains(id@),
            final(self)@ == old(self)@.remove(id@),
            old(self)@.wf(),
            final(self)@.wf(),
    {
        self.pool.remove_maker(id).is_some()
    }
}

impl<J> Default for MakerManager<J> {
    fn default() -> (manager: Self)
        ensures
            manager@ == Registry::<MakerPoolEntry<J>>::empty(),
            manager@.wf(),
    {
        Self::new()
    }
}

} // verus!
