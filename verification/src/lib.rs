//! A minimal network-accessible unlock mechanism for an encrypted ZFS
//! dataset: the verified core of a small web service that serves a key
//! form, accepts a decryption passphrase over HTTP, hands it to the `zfs`
//! utility over that utility's standard input, and shuts itself down
//! after a successful unlock.
//!
//! The library holds everything that decides: request routing, form-body
//! parsing, interpretation of the utility's output, response and
//! shutdown-signal construction, and the bootstrap's pre-flight decision.
//! The transport and the subprocess are plain I/O and stay with the
//! caller, which hands bytes in and carries bytes out.

pub mod bootstrap;
pub mod bytes;
pub mod dispatch;
pub mod form;
pub mod shutdown;
pub mod zfs;

pub use zfs::KeyStatus;
