pub mod control;
pub mod crypto;
pub mod hex;
pub mod http;
pub mod launch;
pub mod mdns;
pub mod nal;
pub mod pair_server;
pub mod pairing;
pub mod rtsp;
pub mod service;
pub mod state;
pub mod stream;
pub mod xml;
