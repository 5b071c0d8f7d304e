[package]
name = "cerbero_lib"
version = "0.1.0"
edition = "2021"
publish = false

[dependencies]
kerberos_asn1 = "*"
kerberos_ccache = "*"
kerberos_constants = "*"
kerberos_crypto = "*"
chrono = "*"
ms_pac = "*"
ms_dtyp = "*"
ms_samr = "*"
trust-dns-resolver = "*"
