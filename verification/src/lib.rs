//! Core of a Kerberos v5 client library for Active Directory security testing.
//!
//! The library builds and decodes Kerberos exchanges (AS-REQ/AS-REP,
//! TGS-REQ/TGS-REP, S4U2Self, S4U2Proxy), forges signed PACs for offline
//! ticket crafting, classifies KDC errors for password spraying, and keeps
//! tickets in credential vaults that convert between the KRB and CCACHE
//! binary formats.
//!
//! Network and file transports live outside this crate: callers hand in
//! channels that move raw bytes and take plain values back.

pub mod ask;
pub mod asreproast;
pub mod brute;
pub mod channel;
pub mod cipher;
pub mod codec;
pub mod constants;
pub mod convert;
pub mod crack;
pub mod der;
pub mod craft;
pub mod cred_format;
pub mod error;
pub mod etypes;
pub mod forge;
pub mod hash;
pub mod kerberoast;
pub mod kerberoast_parse;
pub mod krb_types;
pub mod krb_user;
pub mod pac;
pub mod provider;
pub mod rep;
pub mod requesters;
pub mod text;
pub mod ticket_cred;
pub mod vault;

pub use ask::ask;
pub use ask::ask_s4u2proxy;
pub use ask::ask_s4u2self;
pub use ask::ask_tgs;
pub use ask::ask_tgt;
pub use asreproast::asreproast;
pub use brute::brute;
pub use brute::BruteResult;
pub use channel::KdcComm;
pub use channel::Kdcs;
pub use channel::KrbChannel;
pub use channel::set_size_header_to_request;
pub use channel::TransportProtocol;
pub use cipher::Cipher;
pub use cipher::generate_cipher_and_key;
pub use cipher::Key;
pub use convert::convert;
pub use crack::as_rep_to_crack_string;
pub use crack::CrackFormat;
pub use crack::tgs_to_crack_string;
pub use craft::craft;
pub use craft::craft_ticket_info;
pub use cred_format::CredFormat;
pub use error::Error;
pub use etypes::EncryptionType;
pub use forge::build_as_req;
pub use forge::build_tgs_req;
pub use forge::new_pa_as_freshness;
pub use forge::new_pa_data_ap_req;
pub use forge::new_pa_data_encrypted_timestamp;
pub use forge::new_pa_data_pa_for_user;
pub use forge::new_pa_data_pac_options;
pub use forge::new_pa_req_enc_pa_rep;
pub use forge::PaData;
pub use forge::S4u;
pub use hash::get_hex;
pub use hash::hash_aes128;
pub use hash::hash_aes256;
pub use hash::hash_rc4;
pub use kerberoast::kerberoast;
pub use kerberoast_parse::KerberoastService;
pub use kerberoast_parse::parse_kerberoast;
pub use kerberoast_parse::parse_kerberoast_service;
pub use krb_types::EncryptedData;
pub use krb_types::EncryptionKey;
pub use krb_types::KrbCredInfo;
pub use krb_types::new_nt_enterprise;
pub use krb_types::new_nt_principal;
pub use krb_types::new_nt_srv_inst;
pub use krb_types::new_principal_or_srv_inst;
pub use krb_types::PrincipalName;
pub use krb_types::Ticket;
pub use krb_user::KrbUser;
pub use pac::new_kerb_validation_info;
pub use pac::new_signed_pac;
pub use pac::ValidationInfo;
pub use provider::get_impersonation_ticket;
pub use provider::get_user_tgt;
pub use rep::extract_krb_cred_from_as_rep;
pub use rep::extract_ticket_from_tgs_rep;
pub use rep::Rep;
pub use requesters::request_as_rep;
pub use requesters::request_regular_tgs;
pub use requesters::request_s4u2self_tgs;
pub use requesters::request_tgs;
pub use requesters::request_tgt;
pub use requesters::send_recv;
pub use requesters::send_recv_as;
pub use requesters::send_recv_tgs;
pub use ticket_cred::TicketCred;
pub use ticket_cred::TicketCreds;
pub use vault::BufVault;
pub use vault::EmptyVault;
pub use vault::Vault;
