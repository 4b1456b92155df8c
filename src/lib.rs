//! The control plane of a post-quantum key-exchange daemon: the requests that hand it
//! keys, listen sockets and broker connections, the staged construction of its server
//! identity, the batching of descriptors sent as ancillary data, and the broker
//! protocol that installs pre-shared keys into the tunnel.

pub mod add_listen_socket_response_status;
pub mod add_psk_broker_response_status;
pub mod api_handler;
pub mod api_msgs;
pub mod broker_msgs;
pub mod broker_server;
pub mod broker_store;
pub mod construction;
pub mod fd_writer;
pub mod supply_keypair_response_status;
