//! Where each asset of a catalog entry is stored.
use vstd::prelude::*;
use vstd::string::StringExecFns;

use crate::error::AssetError;
use crate::naming::{sanitize, sanitized};

verus! {

/// The four kinds of downloadable asset.
#[derive(Debug, Clone, Copy, PartialEq, Eq, Structural)]
pub enum AssetKind {
    CardArt,
    SetCover,
    SetRulebook,
    SetIcon,
}

/// The location of an asset of kind `kind` whose sanitized name is `safe`,
/// under the storage root `root`.
pub open spec fn asset_path(root: Seq<char>, kind: AssetKind, safe: Seq<char>) -> Seq<char> {
    match kind {
        AssetKind::CardArt => root + "/cards/"@ + safe + ".jpeg"@,
        AssetKind::SetCover => root + "/"@ + safe + "/cover.png"@,
        AssetKind::SetRulebook => root + "/"@ + safe + "/rules.pdf"@,
        AssetKind::SetIcon => root + "/"@ + safe + "/icon.png"@,
    }
}

/// Whether `edition` occurs in `editions`.
pub fn contains_edition(editions: &Vec<u8>, edition: u8) -> (r: bool)
    ensures
        r == editions@.contains(edition),
{
    let mut i: usize = 0;
    while i < editions.len()
        invariant
            0 <= i <= editions@.len(),
            forall|j: int| 0 <= j < i ==> editions@[j] != edition,
        decreases editions@.len() - i,
    {
        if editions[i] == edition {
            assert(editions@[i as int] == edition);
            return true;
        }
        i += 1;
    }
    false
}

/// The storage location of asset `kind` of edition `edition` of the entry
/// called `name` with editions `editions`, under `root`. Fails with
/// `UnknownEdition` exactly when `edition` is not among `editions`.
pub fn resolve_asset_path(
    root: &str,
    name: &str,
    editions: &Vec<u8>,
    edition: u8,
    kind: AssetKind,
) -> (r: Result<String, AssetError>)
    ensures
        r is Ok <==> editions@.contains(edition),
        r matches Ok(p) ==> p@ == asset_path(root@, kind, sanitized(name@, edition)),
        r matches Err(e) ==> e == AssetError::UnknownEdition,
{
    if !contains_edition(editions, edition) {
        return Err(AssetError::UnknownEdition);
    }
    let safe = sanitize(name, edition);
    let mut path = String::from_str(root);
    match kind {
        AssetKind::CardArt => {
            path.append("/cards/");
            path.append(safe.as_str());
            path.append(".jpeg");
        },
        AssetKind::SetCover => {
            path.append("/");
            path.append(safe.as_str());
            path.append("/cover.png");
        },
        AssetKind::SetRulebook => {
            path.append("/");
            path.append(safe.as_str());
            path.append("/rules.pdf");
        },
        AssetKind::SetIcon => {
            path.append("/");
            path.append(safe.as_str());
            path.append("/icon.png");
        },
    }
    Ok(path)
}

/// Resolving is pure: two calls of `resolve_asset_path` with the same
/// arguments give the same path, or the same error.
pub proof fn lemma_resolve_asset_path_idempotent(
    root: &str,
    name: &str,
    editions: &Vec<u8>,
    edition: u8,
    kind: AssetKind,
    first: Result<String, AssetError>,
    second: Result<String, AssetError>,
)
    requires
        call_ensures(resolve_asset_path, (root, name, editions, edition, kind), first),
        call_ensures(resolve_asset_path, (root, name, editions, edition, kind), second),
    ensures
        first is Ok <==> second is Ok,
        first matches Ok(p) ==> second matches Ok(q) && p@ == q@,
        first matches Err(e) ==> second matches Err(f) && e == f,
{
}

} // verus!
