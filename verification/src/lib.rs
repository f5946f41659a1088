//! Provisioning of validator key pairs for a hash-based signature scheme.
//!
//! The cryptographic scheme itself (key generation, canonical byte encoding,
//! interchange text encoding) is an external capability; this library holds
//! the provisioning pipeline around it: validating the epoch parameters,
//! deriving file names under the two naming policies, planning the files to
//! write for each key pair, and rendering the discovery manifest. Every
//! function here is specified against a mathematical model of the produced
//! names, file plans and manifest text.

pub mod decimal;
pub mod export;
pub mod hexfmt;
pub mod manifest;
pub mod naming;
pub mod provision;
pub mod types;
