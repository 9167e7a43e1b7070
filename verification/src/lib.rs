//! Verified core of a RuuviTag-to-cloud gateway: the v5 payload codec,
//! advertising-frame recognition, the command-and-control message types,
//! the JWT credential lifecycle, and the scanner and broker-client state
//! machines.  The surrounding process (BLE host stack, MQTT session,
//! threads, files) drives these functions and performs the actions they
//! decide on.

pub mod cnc;
pub mod configfile;
pub mod frame;
pub mod iotcore;
pub mod jsonin;
pub mod jsonout;
pub mod jwt;
pub mod mac;
pub mod ruuvi;
pub mod scanner;
pub mod supervisor;
pub mod tagmap;
pub mod text;
