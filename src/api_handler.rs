use vstd::prelude::*;

use crate::add_listen_socket_response_status;
use crate::add_psk_broker_response_status;
use crate::api_msgs::{
    AddListenSocketRequest, AddListenSocketResponse, AddPskBrokerRequest, AddPskBrokerResponse,
    PingRequest, PingResponse, SupplyKeypairRequest, SupplyKeypairResponse,
};
use crate::broker_store::BrokerStore;
use crate::construction::{BuildCryptoServer, ConstructionSite, CryptoServer, ErectError, Keypair, PK_LEN, SK_LEN};
use crate::supply_keypair_response_status;

verus! {

/// Per-connection state of the control API; it holds nothing yet.
#[derive(Debug)]
pub struct ApiHandler {
    _dummy: (),
}

impl ApiHandler {
    pub fn new() -> (r: Self) {
        ApiHandler { _dummy: () }
    }
}

/// Access to the handler state and to the application server that requests act on.
pub trait ApiHandlerContext<S, B> {
    fn api_handler(&self) -> &ApiHandler;

    fn app_server(&self) -> &AppServer<S, B>;

    fn api_handler_mut(&mut self) -> &mut ApiHandler;

    fn app_server_mut(&mut self) -> &mut AppServer<S, B>;
}

/// The daemon's application context: the API handler and the server state it acts on.
pub struct AppContext<S, B> {
    pub handler: ApiHandler,
    pub server: AppServer<S, B>,
}

impl<S, B> ApiHandlerContext<S, B> for AppContext<S, B> {
    fn api_handler(&self) -> &ApiHandler {
        &self.handler
    }

    fn app_server(&self) -> &AppServer<S, B> {
        &self.server
    }

    fn api_handler_mut(&mut self) -> &mut ApiHandler {
        &mut self.handler
    }

    fn app_server_mut(&mut self) -> &mut AppServer<S, B> {
        &mut self.server
    }
}

/// A fault of the daemon itself, handed to the caller of the dispatcher instead of
/// being encoded in the response.
#[derive(Debug, Clone, Copy, PartialEq, Eq, Structural)]
pub enum ApiError {
    /// A keypair arrived while no server construction was in progress.
    ConstructionSiteVoid,
    /// The filled builder could not be turned into the server.
    Erect(ErectError),
}

/// The application state that control requests change: the server identity under
/// construction, the registered listen sockets, and the broker registry.
pub struct AppServer<S, B> {
    pub crypto_site: ConstructionSite,
    pub listen_sockets: Vec<S>,
    pub brokers: BrokerStore<B>,
}

/// A keypair request is well-formed when both descriptors were present and read to
/// exactly the key lengths.
pub open spec fn keypair_files_valid(sk_file: Option<Vec<u8>>, pk_file: Option<Vec<u8>>) -> bool {
    &&& sk_file is Some
    &&& sk_file->0@.len() == SK_LEN
    &&& pk_file is Some
    &&& pk_file->0@.len() == PK_LEN
}

/// The identity is fixed already: built, or its keypair slot taken.
pub open spec fn keypair_taken(site: ConstructionSite) -> bool {
    match site {
        ConstructionSite::Product(_) => true,
        ConstructionSite::Builder(b) => b.keypair is Some,
        ConstructionSite::Void => false,
    }
}

/// The site after a keypair request, and the status it answers with or the fault it
/// hands to the caller. The descriptors are checked first; then the site decides.
pub open spec fn supply_keypair_step(
    site: ConstructionSite,
    sk_file: Option<Vec<u8>>,
    pk_file: Option<Vec<u8>>,
) -> (ConstructionSite, Result<u128, ApiError>) {
    if !keypair_files_valid(sk_file, pk_file) {
        (site, Ok(supply_keypair_response_status::INVALID_REQUEST))
    } else if site is Void {
        (site, Err(ApiError::ConstructionSiteVoid))
    } else if keypair_taken(site) {
        (site, Ok(supply_keypair_response_status::KEYPAIR_ALREADY_SUPPLIED))
    } else {
        (
            ConstructionSite::Product(CryptoServer { sk: sk_file->0, pk: pk_file->0 }),
            Ok(supply_keypair_response_status::OK),
        )
    }
}

/// The registry after a broker request, and the status it answers with. A new
/// connection replaces the latest registration under a fresh handle; without a handle
/// left nothing changes.
pub open spec fn add_psk_broker_step<B>(store: BrokerStore<B>, client: Option<B>) -> (
    BrokerStore<B>,
    u128,
) {
    match client {
        None => (store, add_psk_broker_response_status::INVALID_REQUEST),
        Some(c) => if store.next_handle == u64::MAX {
            (store, add_psk_broker_response_status::INTERNAL_ERROR)
        } else {
            (
                BrokerStore { slot: Some((store.next_handle, c)), next_handle: (store.next_handle + 1) as u64 },
                add_psk_broker_response_status::OK,
            )
        },
    }
}

impl<S, B> AppServer<S, B> {
    pub open spec fn wf(&self) -> bool {
        self.brokers.wf()
    }

    pub fn new(crypto_site: ConstructionSite) -> (r: Self)
        ensures
            r.wf(),
            r.crypto_site == crypto_site,
            r.listen_sockets@.len() == 0,
            r.brokers.slot is None,
            r.brokers.next_handle == 0,
    {
        AppServer { crypto_site, listen_sockets: Vec::new(), brokers: BrokerStore::new() }
    }

    /// Answers a ping with the request's echo buffer, unchanged.
    pub fn ping(&self, req: &PingRequest, res: &mut PingResponse) -> (r: Result<(), ApiError>)
        ensures
            r is Ok,
            final(res).payload.echo@ == req.payload.echo@,
            final(res).msg_type == old(res).msg_type,
    {
        res.payload.echo = req.payload.echo;
        Ok(())
    }

    /// Takes the server's keypair from the contents of the two descriptors that came
    /// with the request (`None` where a descriptor was missing or could not be read)
    /// and builds the server identity from it.
    pub fn supply_keypair(
        &mut self,
        req: &SupplyKeypairRequest,
        sk_file: Option<Vec<u8>>,
        pk_file: Option<Vec<u8>>,
        res: &mut SupplyKeypairResponse,
    ) -> (r: Result<(), ApiError>)
        ensures
            ({
                let (site, outcome) = supply_keypair_step(old(self).crypto_site, sk_file, pk_file);
                &&& final(self).crypto_site == site
                &&& final(self).listen_sockets == old(self).listen_sockets
                &&& final(self).brokers == old(self).brokers
                &&& final(res).msg_type == old(res).msg_type
                &&& match outcome {
                    Ok(status) => r is Ok && final(res).payload.status == status,
                    Err(e) => r == Err::<(), ApiError>(e) && *final(res) == *old(res),
                }
            }),
    {
        let sk = match sk_file {
            Some(sk) => sk,
            None => {
                res.payload.status = supply_keypair_response_status::INVALID_REQUEST;
                return Ok(());
            },
        };
        let pk = match pk_file {
            Some(pk) => pk,
            None => {
                res.payload.status = supply_keypair_response_status::INVALID_REQUEST;
                return Ok(());
            },
        };
        if sk.len() != SK_LEN || pk.len() != PK_LEN {
            res.payload.status = supply_keypair_response_status::INVALID_REQUEST;
            return Ok(());
        }
        match &mut self.crypto_site {
            ConstructionSite::Void => {
                return Err(ApiError::ConstructionSiteVoid);
            },
            ConstructionSite::Product(_) => {
                res.payload.status = supply_keypair_response_status::KEYPAIR_ALREADY_SUPPLIED;
                return Ok(());
            },
            ConstructionSite::Builder(builder) => {
                if builder.keypair.is_some() {
                    res.payload.status = supply_keypair_response_status::KEYPAIR_ALREADY_SUPPLIED;
                    return Ok(());
                }
                builder.keypair = Some(Keypair { sk, pk });
            },
        }
        match self.crypto_site.erect() {
            Ok(()) => {
                res.payload.status = supply_keypair_response_status::OK;
                Ok(())
            },
            Err(e) => Err(ApiError::Erect(e)),
        }
    }

    /// Registers a listen socket. `sock` is the socket made from the request's
    /// descriptor (`None` where it was missing or is no datagram socket), and
    /// `reactor_accepted` tells whether the reactor took it.
    pub fn add_listen_socket(
        &mut self,
        req: &AddListenSocketRequest,
        sock: Option<S>,
        reactor_accepted: bool,
        res: &mut AddListenSocketResponse,
    ) -> (r: Result<(), ApiError>)
        ensures
            r is Ok,
            final(res).msg_type == old(res).msg_type,
            final(self).crypto_site == old(self).crypto_site,
            final(self).brokers == old(self).brokers,
            sock is None ==> final(res).payload.status == add_listen_socket_response_status::INVALID_REQUEST
                && final(self).listen_sockets == old(self).listen_sockets,
            sock is Some && !reactor_accepted ==> final(res).payload.status
                == add_listen_socket_response_status::INTERNAL_ERROR && final(self).listen_sockets
                == old(self).listen_sockets,
            sock is Some && reactor_accepted ==> final(res).payload.status
                == add_listen_socket_response_status::OK && final(self).listen_sockets@
                == old(self).listen_sockets@.push(sock->0),
    {
        let sock = match sock {
            Some(s) => s,
            None => {
                res.payload.status = add_listen_socket_response_status::INVALID_REQUEST;
                return Ok(());
            },
        };
        if !reactor_accepted {
            res.payload.status = add_listen_socket_response_status::INTERNAL_ERROR;
            return Ok(());
        }
        self.listen_sockets.push(sock);
        res.payload.status = add_listen_socket_response_status::OK;
        Ok(())
    }

    /// Replaces the most recent broker registration with `client`, the broker
    /// connection made from the request's descriptor (`None` where it was missing or
    /// is no connected stream socket).
    pub fn add_psk_broker(
        &mut self,
        req: &AddPskBrokerRequest,
        client: Option<B>,
        res: &mut AddPskBrokerResponse,
    ) -> (r: Result<(), ApiError>)
        requires
            old(self).wf(),
        ensures
            r is Ok,
            final(self).wf(),
            final(res).msg_type == old(res).msg_type,
            final(self).crypto_site == old(self).crypto_site,
            final(self).listen_sockets == old(self).listen_sockets,
            ({
                let (store, status) = add_psk_broker_step(old(self).brokers, client);
                final(self).brokers == store && final(res).payload.status == status
            }),
    {
        let client = match client {
            Some(c) => c,
            None => {
                res.payload.status = add_psk_broker_response_status::INVALID_REQUEST;
                return Ok(());
            },
        };
        // Check first that a handle is left, so that a failure changes nothing.
        if self.brokers.next_handle == u64::MAX {
            res.payload.status = add_psk_broker_response_status::INTERNAL_ERROR;
            return Ok(());
        }
        if let Some(erase) = self.brokers.latest() {
            if self.brokers.unregister(erase).is_err() {
                res.payload.status = add_psk_broker_response_status::INTERNAL_ERROR;
                return Ok(());
            }
        }
        if self.brokers.register(client).is_err() {
            res.payload.status = add_psk_broker_response_status::INTERNAL_ERROR;
            return Ok(());
        }
        res.payload.status = add_psk_broker_response_status::OK;
        Ok(())
    }
}

/// A valid keypair supplied to a builder with an empty slot builds the server and is
/// answered with `OK`; a further valid keypair is answered with
/// `KEYPAIR_ALREADY_SUPPLIED` and leaves the built server as it is.
pub proof fn lemma_keypair_supplied_once(
    builder: BuildCryptoServer,
    sk1: Option<Vec<u8>>,
    pk1: Option<Vec<u8>>,
    sk2: Option<Vec<u8>>,
    pk2: Option<Vec<u8>>,
)
    requires
        builder.keypair is None,
        keypair_files_valid(sk1, pk1),
        keypair_files_valid(sk2, pk2),
    ensures
        ({
            let first = supply_keypair_step(ConstructionSite::Builder(builder), sk1, pk1);
            let built = ConstructionSite::Product(CryptoServer { sk: sk1->0, pk: pk1->0 });
            &&& first == (built, Ok::<u128, ApiError>(supply_keypair_response_status::OK))
            &&& supply_keypair_step(first.0, sk2, pk2) == (
                built,
                Ok::<u128, ApiError>(supply_keypair_response_status::KEYPAIR_ALREADY_SUPPLIED),
            )
        }),
{
}

/// Once built, the server stays built whatever keypair request comes; every valid one
/// is answered with `KEYPAIR_ALREADY_SUPPLIED`.
pub proof fn lemma_product_is_permanent(
    site: ConstructionSite,
    sk_file: Option<Vec<u8>>,
    pk_file: Option<Vec<u8>>,
)
    requires
        site is Product,
    ensures
        supply_keypair_step(site, sk_file, pk_file).0 == site,
        keypair_files_valid(sk_file, pk_file) ==> supply_keypair_step(site, sk_file, pk_file).1
            == Ok::<u128, ApiError>(supply_keypair_response_status::KEYPAIR_ALREADY_SUPPLIED),
{
}

/// A valid keypair that arrives while no construction is in progress is a fault handed
/// to the caller, never a status in the response, and changes nothing.
pub proof fn lemma_void_site_faults(sk_file: Option<Vec<u8>>, pk_file: Option<Vec<u8>>)
    requires
        keypair_files_valid(sk_file, pk_file),
    ensures
        supply_keypair_step(ConstructionSite::Void, sk_file, pk_file) == (
            ConstructionSite::Void,
            Err::<u128, ApiError>(ApiError::ConstructionSiteVoid),
        ),
{
}

/// Missing, unreadable or wrongly sized key files are answered with `INVALID_REQUEST`
/// on every site, and the site stays as it was.
pub proof fn lemma_invalid_files_change_nothing(
    site: ConstructionSite,
    sk_file: Option<Vec<u8>>,
    pk_file: Option<Vec<u8>>,
)
    requires
        !keypair_files_valid(sk_file, pk_file),
    ensures
        supply_keypair_step(site, sk_file, pk_file) == (
            site,
            Ok::<u128, ApiError>(supply_keypair_response_status::INVALID_REQUEST),
        ),
{
}

/// A registry that holds one broker holds exactly one after any broker request.
pub proof fn lemma_one_broker_stays<B>(store: BrokerStore<B>, client: Option<B>)
    requires
        store.wf(),
        store.size() == 1,
    ensures
        add_psk_broker_step(store, client).0.size() == 1,
        add_psk_broker_step(store, client).0.wf(),
{
}

/// Two broker connections registered in a row: both are answered with `OK`, the
/// registry holds one broker after each, and the second connection is the live one.
pub proof fn lemma_broker_replaced<B>(store: BrokerStore<B>, first: B, second: B)
    requires
        store.wf(),
        store.next_handle < u64::MAX - 1,
    ensures
        ({
            let (after_first, status_first) = add_psk_broker_step(store, Some(first));
            let (after_second, status_second) = add_psk_broker_step(after_first, Some(second));
            &&& status_first == add_psk_broker_response_status::OK
            &&& status_second == add_psk_broker_response_status::OK
            &&& after_first.size() == 1
            &&& after_second.size() == 1
            &&& after_second.slot == Some((after_first.next_handle, second))
            &&& after_second.wf()
        }),
{
}

} // verus!
