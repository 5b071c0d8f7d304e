//! Offline crack-string formatting: the hashcat and john renderings of
//! AS-REP and TGS encrypted parts.

use vstd::prelude::*;
use crate::krb_types::EncryptedData;
use crate::text::dec_chars;
use crate::text::dec_string;
use crate::text::hex_chars;
use crate::text::hex_string_range;

verus! {

/// The two crack-string dialects.
#[derive(Debug, Clone, Copy, PartialEq, Eq, Structural)]
pub enum CrackFormat {
    Hashcat,
    John,
}

/// The AS-REP roast string: the cipher bytes split after the first 16
/// (the checksum), rendered in hex around the principal. Hashcat's dialect
/// carries the etype; john's does not.
pub open spec fn asrep_crack_chars(
    user: Seq<char>,
    realm: Seq<char>,
    etype: int,
    cipher: Seq<u8>,
    format: CrackFormat,
) -> Seq<char> {
    let head = if format == CrackFormat::Hashcat {
        "$krb5asrep$"@ + dec_chars(etype) + "$"@
    } else {
        "$krb5asrep$"@
    };
    head + user + "@"@ + realm + ":"@ + hex_chars(cipher.take(16)) + "$"@ + hex_chars(
        cipher.skip(16),
    )
}

/// The TGS roast string: the cipher bytes split after the first 16,
/// rendered in hex behind the principal, realm and SPN. Hashcat's dialect
/// carries the etype and stars; john's keeps the same split with plain
/// delimiters.
pub open spec fn tgs_crack_chars(
    user: Seq<char>,
    service: Seq<char>,
    realm: Seq<char>,
    etype: int,
    cipher: Seq<u8>,
    format: CrackFormat,
) -> Seq<char> {
    if format == CrackFormat::Hashcat {
        "$krb5tgs$"@ + dec_chars(etype) + "$*"@ + user + "$"@ + realm + "$"@ + service + "*$"@
            + hex_chars(cipher.take(16)) + "$"@ + hex_chars(cipher.skip(16))
    } else {
        "$krb5tgs$"@ + user + ":"@ + hex_chars(cipher.take(16)) + "$"@ + hex_chars(cipher.skip(16))
    }
}

/// The crackable rendering of an AS-REP encrypted part.
pub fn as_rep_to_crack_string(
    username: &str,
    realm: &str,
    enc_part: &EncryptedData,
    crack_format: CrackFormat,
) -> (r: String)
    requires
        enc_part.cipher@.len() >= 16,
        enc_part.etype >= 0,
    ensures
        r@ == asrep_crack_chars(
            username@,
            realm@,
            enc_part.etype as int,
            enc_part.cipher@,
            crack_format,
        ),
{
    let mut out = String::new();
    out.append("$krb5asrep$");
    if crack_format == CrackFormat::Hashcat {
        let e = dec_string(enc_part.etype as u32);
        out.append(e.as_str());
        out.append("$");
    }
    out.append(username);
    out.append("@");
    out.append(realm);
    out.append(":");
    let head = hex_string_range(&enc_part.cipher, 0, 16);
    out.append(head.as_str());
    out.append("$");
    let tail = hex_string_range(&enc_part.cipher, 16, enc_part.cipher.len());
    out.append(tail.as_str());
    proof {
        assert(enc_part.cipher@.subrange(0, 16) =~= enc_part.cipher@.take(16));
        assert(enc_part.cipher@.subrange(16, enc_part.cipher@.len() as int) =~= enc_part.cipher@
            .skip(16));
        assert(out@ =~= asrep_crack_chars(
            username@,
            realm@,
            enc_part.etype as int,
            enc_part.cipher@,
            crack_format,
        ));
    }
    out
}

/// The crackable rendering of a TGS ticket's encrypted part.
pub fn tgs_to_crack_string(
    username: &str,
    service: &str,
    realm: &str,
    enc_part: &EncryptedData,
    crack_format: CrackFormat,
) -> (r: String)
    requires
        enc_part.cipher@.len() >= 16,
        enc_part.etype >= 0,
    ensures
        r@ == tgs_crack_chars(
            username@,
            service@,
            realm@,
            enc_part.etype as int,
            enc_part.cipher@,
            crack_format,
        ),
{
    let mut out = String::new();
    out.append("$krb5tgs$");
    if crack_format == CrackFormat::Hashcat {
        let e = dec_string(enc_part.etype as u32);
        out.append(e.as_str());
        out.append("$*");
        out.append(username);
        out.append("$");
        out.append(realm);
        out.append("$");
        out.append(service);
        out.append("*$");
    } else {
        out.append(username);
        out.append(":");
    }
    let head = hex_string_range(&enc_part.cipher, 0, 16);
    out.append(head.as_str());
    out.append("$");
    let tail = hex_string_range(&enc_part.cipher, 16, enc_part.cipher.len());
    out.append(tail.as_str());
    proof {
        assert(enc_part.cipher@.subrange(0, 16) =~= enc_part.cipher@.take(16));
        assert(enc_part.cipher@.subrange(16, enc_part.cipher@.len() as int) =~= enc_part.cipher@
            .skip(16));
        assert(out@ =~= tgs_crack_chars(
            username@,
            service@,
            realm@,
            enc_part.etype as int,
            enc_part.cipher@,
            crack_format,
        ));
    }
    out
}

} // verus!
