//! Naming of persisted artifacts.
//!
//! Each artifact (attestation, secrets, presentation) is stored in one
//! file whose name is a deterministic function of the provider name and
//! the artifact kind, so that proving and presenting runs find the same
//! files without shared state.

use vstd::prelude::*;

verus! {

/// The file name under which an artifact of kind `content_type` for
/// `provider` is persisted.
pub fn get_file_path(provider: &str, content_type: &str) -> (r: String)
    ensures
        r@ == provider@ + "."@ + content_type@ + ".tlsn"@,
{
    let mut s: String = provider.to_owned();
    s.append(".");
    s.append(content_type);
    s.append(".tlsn");
    s
}

} // verus!
