//! Conversion of ticket stores between the KRB and CCACHE formats.

use vstd::prelude::*;
use crate::codec::creds_wf;
use crate::cred_format::CredFormat;
use crate::error::Error;
use crate::vault::Vault;
use crate::vault::vault_creds;
use crate::vault::vault_format;
use crate::vault::vault_wf;

verus! {

/// The target format of a conversion: the caller's choice; otherwise the
/// hint of the output store's identifier; otherwise the contrary of the
/// input's format.
pub open spec fn spec_convert_format(
    cred_format: Option<CredFormat>,
    out_id: Seq<char>,
    in_format: CredFormat,
) -> CredFormat {
    match cred_format {
        Some(f) => f,
        None => if out_id.len() >= ".ccache"@.len() && out_id.skip(
            out_id.len() - ".ccache"@.len(),
        ) == ".ccache"@ {
            CredFormat::Ccache
        } else if out_id.len() >= ".krb"@.len() && out_id.skip(out_id.len() - ".krb"@.len())
            == ".krb"@ {
            CredFormat::Krb
        } else {
            match in_format {
                CredFormat::Krb => CredFormat::Ccache,
                CredFormat::Ccache => CredFormat::Krb,
            }
        },
    }
}

/// The resolution rule, executed.
pub fn resolve_convert_format(
    cred_format: Option<CredFormat>,
    out_id: &str,
    in_format: CredFormat,
) -> (r: CredFormat)
    ensures
        r == spec_convert_format(cred_format, out_id@, in_format),
{
    match cred_format {
        Some(f) => f,
        None => match CredFormat::from_file_extension(out_id) {
            Some(f) => f,
            None => in_format.contrary(),
        },
    }
}

/// Moves every ticket of the input store into the output store under the
/// resolved format. An input store that tracks no format is a client error;
/// a store with well-formed contents always converts.
pub fn convert(in_vault: &Vault, out_vault: &mut Vault, cred_format: Option<CredFormat>) -> (r:
    Result<(), Error>)
    requires
        vault_wf(*in_vault),
        vault_wf(*old(out_vault)),
    ensures
        vault_wf(*final(out_vault)),
        vault_format(*in_vault) is None ==> (r matches Err(e) && e is StringError
            && *final(out_vault) == *old(out_vault)),
        r is Err && *old(out_vault) is Buf ==> *final(out_vault) == *old(out_vault),
        *old(out_vault) is Buf && vault_format(*in_vault) is Some && creds_wf(
            vault_creds(*in_vault),
        ) ==> (r is Ok && vault_creds(*final(out_vault)) == vault_creds(*in_vault)),
        (*old(out_vault) is Buf && r is Ok && vault_format(*in_vault) is Some) ==> vault_format(
            *final(out_vault),
        ) == Some(
            spec_convert_format(
                cred_format,
                match *old(out_vault) {
                    Vault::Buf(_) => "Memory"@,
                    Vault::Empty(_) => "Nowhere"@,
                },
                vault_format(*in_vault)->Some_0,
            ),
        ),
{
    let krb_cred = in_vault.dump();
    let in_cred_format = match in_vault.support_cred_format() {
        Some(f) => f,
        None => {
            return Err(
                Error::StringError(
                    String::from_str("Unknown input file format: Maybe an empty file?"),
                ),
            );
        },
    };
    let out_id = out_vault.id();
    let format = resolve_convert_format(cred_format, out_id, in_cred_format);
    out_vault.save_as(krb_cred, format)
}

} // verus!
