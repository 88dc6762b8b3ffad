//! Verified core of the neko command-line research probe: the service
//! lifecycle, the length-prefixed frame reader and the bounded response
//! writer, the health observation window, the classification of delivery
//! acknowledgements, the identity file format, the local reachability
//! probe's requests and artifacts, the pre-authentication accounting rules,
//! and the bounded command-line options of every runner.
pub mod error;
pub mod text;
pub mod net;
pub mod cli;
pub mod keys;
pub mod identity;
pub mod framed;
pub mod preauth;
pub mod lifecycle;
pub mod health_window;
pub mod demux;
pub mod deadline;
pub mod reachability;
pub mod matrix;
pub mod capabilities;
pub mod report;
pub mod limits;
pub mod multistream;
pub mod periodic;
pub mod runners;
pub mod failover;
