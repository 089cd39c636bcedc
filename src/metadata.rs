use vstd::prelude::*;

use crate::error::ShipmentError;
use crate::state::Pubkey;

verus! {

/// What the deposit rules read from a token's metadata account.
#[derive(Clone, Debug)]
pub struct TokenMetadata {
    /// The token the metadata describes.
    pub mint: Pubkey,
    /// The collection the token declares membership of, if any.
    pub collection: Option<Pubkey>,
    /// The creator addresses listed by the token, if any.
    pub creators: Option<Vec<Pubkey>>,
}

/// The mathematical content of [`TokenMetadata`].
pub struct MetadataView {
    pub mint: Pubkey,
    pub collection: Option<Pubkey>,
    pub creators: Option<Seq<Pubkey>>,
}

impl View for TokenMetadata {
    type V = MetadataView;

    open spec fn view(&self) -> MetadataView {
        MetadataView {
            mint: self.mint,
            collection: self.collection,
            creators: match self.creators {
                Some(v) => Some(v@),
                None => None,
            },
        }
    }
}

/// What the token-metadata program's account decoder reads from the given account
/// data: `None` where the data is not a metadata account.
pub uninterp spec fn metadata_of(data: Seq<u8>) -> Option<MetadataView>;

/// Relies on `mpl_token_metadata::accounts::Metadata::safe_deserialize`: it decodes
/// the account data deterministically, and refuses data that is not a metadata
/// account (empty, wrong key byte, truncated) with an error. Of what it decodes, the
/// mint, the declared collection's key and the creators' addresses are kept.
#[verifier::external_body]
pub(crate) fn read_metadata(data: &[u8]) -> (r: Option<TokenMetadata>)
    ensures
        r is Some <==> metadata_of(data@) is Some,
        r is Some ==> metadata_of(data@) == Some(r->0@),
{
    let meta = mpl_token_metadata::accounts::Metadata::safe_deserialize(data).ok()?;
    Some(TokenMetadata {
        mint: Pubkey::new_from_array(meta.mint.to_bytes()),
        collection: meta.collection.map(|c| Pubkey::new_from_array(c.key.to_bytes())),
        creators: meta.creators.map(
            |cs| cs.iter().map(|c| Pubkey::new_from_array(c.address.to_bytes())).collect(),
        ),
    })
}

/// Whether some creator in `creators` is `collection`.
pub open spec fn has_creator(creators: Seq<Pubkey>, collection: Pubkey) -> bool {
    exists|i: int| 0 <= i < creators.len() && #[trigger] creators[i]@ == collection@
}

/// The verdict on depositing a token with metadata `m` under `collection`: the
/// metadata must declare a collection, and either that collection or one of the
/// listed creators must be `collection`.
pub open spec fn collection_verdict(m: MetadataView, collection: Pubkey) -> Result<
    (),
    ShipmentError,
> {
    if m.collection is None {
        Err(ShipmentError::MetadataCreatorParseError)
    } else if m.collection->0@ == collection@ || (m.creators is Some && has_creator(
        m.creators->0,
        collection,
    )) {
        Ok(())
    } else {
        Err(ShipmentError::InvalidCollection)
    }
}

/// The verdict on depositing `mint` under `collection`, given the decoded metadata
/// account `m`: the metadata must describe `mint`, then [`collection_verdict`]
/// applies.
pub open spec fn metadata_verdict(m: MetadataView, mint: Pubkey, collection: Pubkey) -> Result<
    (),
    ShipmentError,
> {
    if m.mint@ != mint@ {
        Err(ShipmentError::InvalidMetadata)
    } else {
        collection_verdict(m, collection)
    }
}

/// Checks that the token described by `meta` belongs to `collection`.
pub fn validate_collection(meta: &TokenMetadata, collection: &Pubkey) -> (r: Result<
    (),
    ShipmentError,
>)
    ensures
        r == collection_verdict(meta@, *collection),
{
    let declared = match &meta.collection {
        Some(c) => c,
        None => {
            return Err(ShipmentError::MetadataCreatorParseError);
        },
    };
    if declared.key_eq(collection) {
        return Ok(());
    }
    let creators = match &meta.creators {
        Some(cs) => cs,
        None => {
            return Err(ShipmentError::InvalidCollection);
        },
    };
    let mut i: usize = 0;
    while i < creators.len()
        invariant
            0 <= i <= creators@.len(),
            meta.creators == Some(*creators),
            meta.collection == Some(*declared),
            declared@ != collection@,
            forall|j: int| 0 <= j < i ==> creators@[j]@ != collection@,
        decreases creators@.len() - i,
    {
        if creators[i].key_eq(collection) {
            assert(has_creator(creators@, *collection));
            return Ok(());
        }
        i = i + 1;
    }
    Err(ShipmentError::InvalidCollection)
}

/// Checks that the decoded metadata `meta` describes `mint` and places it in
/// `collection`.
pub fn validate_metadata(meta: &TokenMetadata, mint: &Pubkey, collection: &Pubkey) -> (r: Result<
    (),
    ShipmentError,
>)
    ensures
        r == metadata_verdict(meta@, *mint, *collection),
{
    if !meta.mint.key_eq(mint) {
        return Err(ShipmentError::InvalidMetadata);
    }
    validate_collection(meta, collection)
}

/// Reads `data` as the metadata account of `mint` and checks that the token belongs
/// to `collection`.
pub fn check_metadata(data: &[u8], mint: &Pubkey, collection: &Pubkey) -> (r: Result<
    (),
    ShipmentError,
>)
    ensures
        r == match metadata_of(data@) {
            None => Err(ShipmentError::InvalidMetadata),
            Some(m) => metadata_verdict(m, *mint, *collection),
        },
{
    match read_metadata(data) {
        None => Err(ShipmentError::InvalidMetadata),
        Some(meta) => validate_metadata(&meta, mint, collection),
    }
}

} // verus!
