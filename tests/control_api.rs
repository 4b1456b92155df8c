use rosenpass_control::add_listen_socket_response_status as listen_status;
use rosenpass_control::add_psk_broker_response_status as broker_status;
use rosenpass_control::api_handler::{ApiError, ApiHandler, ApiHandlerContext, AppContext, AppServer};
use rosenpass_control::api_msgs::{
    AddListenSocketRequestPayload, AddListenSocketResponsePayload, AddPskBrokerRequestPayload,
    AddPskBrokerResponsePayload, Envelope, PingRequestPayload, PingResponsePayload,
    SupplyKeypairRequestPayload, SupplyKeypairResponsePayload, PING_ECHO_LEN,
};
use rosenpass_control::broker_store::{BrokerStore, RegistryError};
use rosenpass_control::construction::{
    BuildCryptoServer, ConstructionSite, ErectError, Keypair, PK_LEN, SK_LEN,
};
use rosenpass_control::supply_keypair_response_status as key_status;

type Server = AppServer<u32, String>;

fn builder_server() -> Server {
    AppServer::new(ConstructionSite::Builder(BuildCryptoServer::new()))
}

fn key_req() -> Envelope<SupplyKeypairRequestPayload> {
    Envelope { msg_type: 2, payload: SupplyKeypairRequestPayload {} }
}

fn key_res() -> Envelope<SupplyKeypairResponsePayload> {
    Envelope { msg_type: 2, payload: SupplyKeypairResponsePayload { status: 99 } }
}

fn sk(fill: u8) -> Option<Vec<u8>> {
    Some(vec![fill; SK_LEN])
}

fn pk(fill: u8) -> Option<Vec<u8>> {
    Some(vec![fill; PK_LEN])
}

fn is_product_with(site: &ConstructionSite, sk_fill: u8, pk_fill: u8) -> bool {
    match site {
        ConstructionSite::Product(s) => {
            s.sk == vec![sk_fill; SK_LEN] && s.pk == vec![pk_fill; PK_LEN]
        }
        _ => false,
    }
}

fn is_empty_builder(site: &ConstructionSite) -> bool {
    matches!(site, ConstructionSite::Builder(b) if b.keypair.is_none())
}

#[test]
fn ping_echoes_request_buffer() {
    let server = builder_server();
    let mut echo = [0u8; PING_ECHO_LEN];
    for (i, b) in echo.iter_mut().enumerate() {
        *b = (i * 7 % 251) as u8;
    }
    let req = Envelope { msg_type: 1, payload: PingRequestPayload { echo } };
    let mut res = Envelope { msg_type: 1, payload: PingResponsePayload { echo: [0xaa; PING_ECHO_LEN] } };
    assert!(server.ping(&req, &mut res).is_ok());
    assert_eq!(res.payload.echo, echo);
    assert_eq!(res.msg_type, 1);
}

#[test]
fn supply_keypair_builds_server_once() {
    let mut server = builder_server();
    let mut res = key_res();
    assert_eq!(server.supply_keypair(&key_req(), sk(1), pk(2), &mut res), Ok(()));
    assert_eq!(res.payload.status, key_status::OK);
    assert!(is_product_with(&server.crypto_site, 1, 2));

    let mut res = key_res();
    assert_eq!(server.supply_keypair(&key_req(), sk(3), pk(4), &mut res), Ok(()));
    assert_eq!(res.payload.status, key_status::KEYPAIR_ALREADY_SUPPLIED);
    assert!(is_product_with(&server.crypto_site, 1, 2));

    let mut res = key_res();
    assert_eq!(server.supply_keypair(&key_req(), sk(5), pk(6), &mut res), Ok(()));
    assert_eq!(res.payload.status, key_status::KEYPAIR_ALREADY_SUPPLIED);
}

#[test]
fn supply_keypair_after_build_with_missing_descriptor_is_invalid() {
    let mut server = builder_server();
    let mut res = key_res();
    server.supply_keypair(&key_req(), sk(1), pk(2), &mut res).unwrap();
    let mut res = key_res();
    server.supply_keypair(&key_req(), None, None, &mut res).unwrap();
    assert_eq!(res.payload.status, key_status::INVALID_REQUEST);
    assert!(is_product_with(&server.crypto_site, 1, 2));
}

#[test]
fn supply_keypair_on_void_site_is_a_fault() {
    let mut server: Server = AppServer::new(ConstructionSite::Void);
    let mut res = key_res();
    assert_eq!(
        server.supply_keypair(&key_req(), sk(1), pk(2), &mut res),
        Err(ApiError::ConstructionSiteVoid)
    );
    assert_eq!(res.payload.status, 99);
    assert!(matches!(server.crypto_site, ConstructionSite::Void));
}

#[test]
fn supply_keypair_with_filled_slot_is_already_supplied() {
    let builder = BuildCryptoServer {
        keypair: Some(Keypair { sk: vec![9; SK_LEN], pk: vec![8; PK_LEN] }),
    };
    let mut server: Server = AppServer::new(ConstructionSite::Builder(builder));
    let mut res = key_res();
    server.supply_keypair(&key_req(), sk(1), pk(2), &mut res).unwrap();
    assert_eq!(res.payload.status, key_status::KEYPAIR_ALREADY_SUPPLIED);
    match &server.crypto_site {
        ConstructionSite::Builder(b) => assert_eq!(b.keypair.as_ref().unwrap().sk, vec![9; SK_LEN]),
        _ => panic!("site changed"),
    }
}

#[test]
fn supply_keypair_invalid_inputs_leave_site_alone() {
    let cases: Vec<(Option<Vec<u8>>, Option<Vec<u8>>)> = vec![
        (None, None),
        (sk(1), None),
        (None, pk(2)),
        (Some(vec![1; SK_LEN - 1]), pk(2)),
        (sk(1), Some(vec![2; PK_LEN + 1])),
        (Some(Vec::new()), Some(Vec::new())),
    ];
    for (s, p) in cases {
        let mut server = builder_server();
        let mut res = key_res();
        assert_eq!(server.supply_keypair(&key_req(), s, p, &mut res), Ok(()));
        assert_eq!(res.payload.status, key_status::INVALID_REQUEST);
        assert!(is_empty_builder(&server.crypto_site));
    }
    let mut void: Server = AppServer::new(ConstructionSite::Void);
    let mut res = key_res();
    assert_eq!(void.supply_keypair(&key_req(), sk(1), None, &mut res), Ok(()));
    assert_eq!(res.payload.status, key_status::INVALID_REQUEST);
}

#[test]
fn erect_needs_a_filled_builder() {
    let mut site = ConstructionSite::Builder(BuildCryptoServer::new());
    assert_eq!(site.erect(), Err(ErectError::KeypairMissing));
    assert!(is_empty_builder(&site));
    let mut void = ConstructionSite::Void;
    assert_eq!(void.erect(), Err(ErectError::NotUnderConstruction));
    let mut filled = ConstructionSite::Builder(BuildCryptoServer {
        keypair: Some(Keypair { sk: vec![1; SK_LEN], pk: vec![2; PK_LEN] }),
    });
    assert_eq!(filled.erect(), Ok(()));
    assert!(is_product_with(&filled, 1, 2));
    assert_eq!(filled.erect(), Err(ErectError::NotUnderConstruction));
}

fn listen_req() -> Envelope<AddListenSocketRequestPayload> {
    Envelope { msg_type: 3, payload: AddListenSocketRequestPayload {} }
}

fn listen_res() -> Envelope<AddListenSocketResponsePayload> {
    Envelope { msg_type: 3, payload: AddListenSocketResponsePayload { status: 99 } }
}

#[test]
fn add_listen_socket_statuses() {
    let mut server = builder_server();
    let mut res = listen_res();
    server.add_listen_socket(&listen_req(), None, true, &mut res).unwrap();
    assert_eq!(res.payload.status, listen_status::INVALID_REQUEST);
    assert!(server.listen_sockets.is_empty());

    let mut res = listen_res();
    server.add_listen_socket(&listen_req(), Some(7), false, &mut res).unwrap();
    assert_eq!(res.payload.status, listen_status::INTERNAL_ERROR);
    assert!(server.listen_sockets.is_empty());

    let mut res = listen_res();
    server.add_listen_socket(&listen_req(), Some(7), true, &mut res).unwrap();
    assert_eq!(res.payload.status, listen_status::OK);
    assert_eq!(server.listen_sockets, vec![7]);

    let mut res = listen_res();
    server.add_listen_socket(&listen_req(), Some(8), true, &mut res).unwrap();
    assert_eq!(server.listen_sockets, vec![7, 8]);
}

fn broker_req() -> Envelope<AddPskBrokerRequestPayload> {
    Envelope { msg_type: 4, payload: AddPskBrokerRequestPayload {} }
}

fn broker_res() -> Envelope<AddPskBrokerResponsePayload> {
    Envelope { msg_type: 4, payload: AddPskBrokerResponsePayload { status: 99 } }
}

#[test]
fn add_psk_broker_replaces_latest() {
    let mut server = builder_server();
    let mut res = broker_res();
    server.add_psk_broker(&broker_req(), Some("first".to_string()), &mut res).unwrap();
    assert_eq!(res.payload.status, broker_status::OK);
    assert_eq!(server.brokers.len(), 1);
    assert_eq!(server.brokers.slot, Some((0, "first".to_string())));

    let mut res = broker_res();
    server.add_psk_broker(&broker_req(), Some("second".to_string()), &mut res).unwrap();
    assert_eq!(res.payload.status, broker_status::OK);
    assert_eq!(server.brokers.len(), 1);
    assert_eq!(server.brokers.slot, Some((1, "second".to_string())));
    assert_eq!(server.brokers.latest(), Some(1));
}

#[test]
fn add_psk_broker_without_descriptor_is_invalid() {
    let mut server = builder_server();
    let mut res = broker_res();
    server.add_psk_broker(&broker_req(), Some("first".to_string()), &mut res).unwrap();
    let mut res = broker_res();
    server.add_psk_broker(&broker_req(), None, &mut res).unwrap();
    assert_eq!(res.payload.status, broker_status::INVALID_REQUEST);
    assert_eq!(server.brokers.slot, Some((0, "first".to_string())));
}

#[test]
fn add_psk_broker_without_handles_is_internal_error() {
    let mut server = builder_server();
    server.brokers = BrokerStore { slot: Some((3, "old".to_string())), next_handle: u64::MAX };
    let mut res = broker_res();
    server.add_psk_broker(&broker_req(), Some("new".to_string()), &mut res).unwrap();
    assert_eq!(res.payload.status, broker_status::INTERNAL_ERROR);
    assert_eq!(server.brokers.slot, Some((3, "old".to_string())));
}

#[test]
fn broker_store_register_and_unregister() {
    let mut store: BrokerStore<&str> = BrokerStore::new();
    assert_eq!(store.len(), 0);
    assert_eq!(store.latest(), None);
    assert_eq!(store.unregister(0), Err(RegistryError::NoSuchBroker));
    assert_eq!(store.register("a"), Ok(0));
    assert_eq!(store.register("b"), Err(RegistryError::SlotOccupied));
    assert_eq!(store.unregister(5), Err(RegistryError::NoSuchBroker));
    assert_eq!(store.unregister(0), Ok("a"));
    assert_eq!(store.register("b"), Ok(1));
    assert_eq!(store.len(), 1);
    let mut full: BrokerStore<&str> = BrokerStore { slot: None, next_handle: u64::MAX };
    assert_eq!(full.register("c"), Err(RegistryError::HandlesExhausted));
}

#[test]
fn app_context_gives_access_to_server() {
    let mut ctx = AppContext { handler: ApiHandler::new(), server: builder_server() };
    let mut res = broker_res();
    ctx.app_server_mut()
        .add_psk_broker(&broker_req(), Some("x".to_string()), &mut res)
        .unwrap();
    assert_eq!(ctx.app_server().brokers.len(), 1);
    let _ = ctx.api_handler();
    let _ = ctx.api_handler_mut();
}
