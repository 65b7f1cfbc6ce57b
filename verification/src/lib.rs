//! Identity, proxy and diagnostics tooling for DHTTP names.
//!
//! The rules of the tools live here as verified functions. Reading files, talking to the
//! certificate server and prompting are done by the program around the library, which hands
//! plain values in and acts on the plain values that come back.
pub mod apply;
pub mod approval;
pub mod auth;
pub mod auth_plan;
pub mod auto_renew;
pub mod calendar;
pub mod cert_server;
pub mod certificate_log;
pub mod checkout;
pub mod cli;
pub mod create;
pub mod create_flow;
pub mod create_run;
pub mod default_identity;
pub mod device;
pub mod email;
pub mod epilogue;
pub mod identity_loading;
pub mod install;
pub mod json;
pub mod key_material;
pub mod kind;
pub mod local;
pub mod local_identity;
pub mod nat_detect;
pub mod nslookup;
pub mod output;
pub mod profile;
pub mod progress;
pub mod prompt;
pub mod proxy;
pub mod recovery;
pub mod registration;
pub mod renew;
pub mod request;
pub mod requests;
pub mod route;
pub mod site;
pub mod target;
pub mod text;
pub mod transcript;
pub mod validator;
pub mod welcome;

use vstd::prelude::*;

verus! {

pub const DEFAULT_DHTTP_CA_SERVICE: &'static str = "https://api.genmeta.net";

/// The certificate server that the tools talk to.
pub const DHTTP_CA_SERVICE: &'static str = "https://api.genmeta.net";

} // verus!
