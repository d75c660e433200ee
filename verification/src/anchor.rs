use vstd::prelude::*;

verus! {

/// One half of a trust-anchor key, as a caller supplies it: either a small
/// numeric code or a textual alias.
#[derive(Debug)]
pub enum AnchorId {
    Numeric(u32),
    Alias(String),
}

/// The identifiers a verifier's single trust anchor is keyed by: the
/// security provider and the key id, each in exactly one representation.
#[derive(Debug)]
pub struct AnchorIds {
    pub provider: AnchorId,
    pub key: AnchorId,
}

/// Exactly one representation of a half is supplied: a numeric half counts
/// as supplied when it is non-zero, an alias half when it is non-empty.
pub open spec fn one_representation(numeric: u32, alias: Seq<char>) -> bool {
    ||| (numeric != 0 && alias.len() == 0)
    ||| (numeric == 0 && alias.len() > 0)
}

/// `id` is the representation that was supplied for this half.
pub open spec fn id_represents(id: AnchorId, numeric: u32, alias: String) -> bool {
    match id {
        AnchorId::Numeric(n) => n == numeric && numeric != 0 && alias@.len() == 0,
        AnchorId::Alias(a) => a == alias && numeric == 0 && alias@.len() > 0,
    }
}

/// Picks the supplied representation of one half, or nothing when both or
/// neither are supplied — a configuration error.
pub fn select_id(numeric: u32, alias: String) -> (r: Option<AnchorId>)
    ensures
        r is Some <==> one_representation(numeric, alias@),
        r matches Some(id) ==> id_represents(id, numeric, alias),
{
    let alias_supplied = !alias.as_str().is_empty();
    if numeric != 0 && !alias_supplied {
        Some(AnchorId::Numeric(numeric))
    } else if numeric == 0 && alias_supplied {
        Some(AnchorId::Alias(alias))
    } else {
        None
    }
}

/// Validates a verifier configuration: each of the two halves of the trust
/// anchor's key must be supplied in exactly one representation, otherwise
/// no identifiers are produced and creating the verifier must fail.
pub fn select_anchor_ids(
    provider_numeric: u32,
    provider_alias: String,
    key_numeric: u32,
    key_alias: String,
) -> (r: Option<AnchorIds>)
    ensures
        r is Some <==> one_representation(provider_numeric, provider_alias@)
            && one_representation(key_numeric, key_alias@),
        r matches Some(ids) ==> id_represents(ids.provider, provider_numeric, provider_alias)
            && id_represents(ids.key, key_numeric, key_alias),
{
    let provider = select_id(provider_numeric, provider_alias);
    let key = select_id(key_numeric, key_alias);
    match (provider, key) {
        (Some(provider), Some(key)) => Some(AnchorIds { provider, key }),
        _ => None,
    }
}

} // verus!
