//! Assembly of the content identifier from the two values that name
//! resolution returns.

use vstd::prelude::*;
use vstd::slice::slice_to_vec;
use vstd::utf8::*;
use crate::error::GatewayError;
use crate::text::decode_text;

verus! {

/// Length of an account address, in bytes.
pub const ADDRESS_LEN: usize = 20;

/// Length of a content hash, in bytes.
pub const CONTENT_HASH_LEN: usize = 32;

/// Length of the scratch buffer in which address and content hash are joined.
pub const SCRATCH_LEN: usize = 52;

/// Length of a content identifier, in bytes.
pub const IDENTIFIER_LEN: usize = 46;

/// The identifier that belongs to an address and a content hash: the first
/// 46 bytes of the address followed by the content hash.
pub open spec fn assembled(address: Seq<u8>, content_hash: Seq<u8>) -> Seq<u8> {
    (address + content_hash).subrange(0, IDENTIFIER_LEN as int)
}

/// Names one module in the content store. Always 46 bytes long.
#[derive(Debug, Clone, PartialEq, Eq)]
pub struct ContentIdentifier {
    bytes: [u8; 46],
}

impl View for ContentIdentifier {
    type V = Seq<u8>;

    closed spec fn view(&self) -> Seq<u8> {
        self.bytes@
    }
}

impl ContentIdentifier {
    /// The identifier's 46 bytes.
    pub fn as_bytes(&self) -> (bytes: &[u8])
        ensures
            bytes@ == self@,
            bytes@.len() == IDENTIFIER_LEN,
    {
        self.bytes.as_slice()
    }

    /// The identifier as text, for a content store that is asked by a
    /// printable name. An identifier whose bytes are not UTF-8 has no text.
    pub fn to_text(&self) -> (text: Option<String>)
        ensures
            text is Some <==> valid_utf8(self@),
            text matches Some(s) ==> s@ == decode_utf8(self@),
    {
        match decode_text(slice_to_vec(self.bytes.as_slice())) {
            Ok(text) => Some(text),
            Err(_) => None,
        }
    }
}

/// Every identifier is 46 bytes long.
pub proof fn lemma_identifier_length(id: ContentIdentifier)
    ensures
        id@.len() == IDENTIFIER_LEN,
{
}

/// Assembly depends on its two inputs alone and always gives 46 bytes: the
/// address, then the first 26 bytes of the content hash. The last 6 bytes of
/// the content hash do not count.
pub proof fn lemma_assembly_is_deterministic_and_length_invariant(
    address: Seq<u8>,
    content_hash: Seq<u8>,
    other_address: Seq<u8>,
    other_hash: Seq<u8>,
)
    requires
        address.len() == ADDRESS_LEN,
        content_hash.len() == CONTENT_HASH_LEN,
        other_address.len() == ADDRESS_LEN,
        other_hash.len() == CONTENT_HASH_LEN,
    ensures
        assembled(address, content_hash).len() == IDENTIFIER_LEN,
        assembled(address, content_hash) == address + content_hash.subrange(
            0,
            IDENTIFIER_LEN - ADDRESS_LEN,
        ),
        other_address == address && other_hash == content_hash ==> assembled(
            other_address,
            other_hash,
        ) == assembled(address, content_hash),
        other_address == address && other_hash.subrange(0, IDENTIFIER_LEN - ADDRESS_LEN)
            == content_hash.subrange(0, IDENTIFIER_LEN - ADDRESS_LEN) ==> assembled(
            other_address,
            other_hash,
        ) == assembled(address, content_hash),
{
    assert(assembled(address, content_hash) =~= address + content_hash.subrange(
        0,
        IDENTIFIER_LEN - ADDRESS_LEN,
    ));
    assert(assembled(other_address, other_hash) =~= other_address + other_hash.subrange(
        0,
        IDENTIFIER_LEN - ADDRESS_LEN,
    ));
}

/// Joins a 20-byte address and a 32-byte content hash into the identifier of
/// the module they name. Inputs of any other length are rejected.
pub fn assemble(address: &[u8], content_hash: &[u8]) -> (result: Result<
    ContentIdentifier,
    GatewayError,
>)
    ensures
        result is Ok <==> address@.len() == ADDRESS_LEN && content_hash@.len() == CONTENT_HASH_LEN,
        result matches Ok(id) ==> id@ == assembled(address@, content_hash@) && id@.len()
            == IDENTIFIER_LEN,
        result matches Err(e) ==> e == GatewayError::InvalidIdentifierInput,
{
    if address.len() != ADDRESS_LEN || content_hash.len() != CONTENT_HASH_LEN {
        return Err(GatewayError::InvalidIdentifierInput);
    }
    let mut scratch: [u8; 52] = [0u8; 52];
    let mut i: usize = 0;
    while i < ADDRESS_LEN
        invariant
            i <= ADDRESS_LEN,
            address@.len() == ADDRESS_LEN,
            forall|k: int| 0 <= k < i ==> scratch@[k] == address@[k],
        decreases ADDRESS_LEN - i,
    {
        scratch[i] = address[i];
        i += 1;
    }
    let mut j: usize = 0;
    while j < CONTENT_HASH_LEN
        invariant
            j <= CONTENT_HASH_LEN,
            content_hash@.len() == CONTENT_HASH_LEN,
            address@.len() == ADDRESS_LEN,
            forall|k: int| 0 <= k < ADDRESS_LEN ==> scratch@[k] == address@[k],
            forall|k: int| 0 <= k < j ==> scratch@[ADDRESS_LEN + k] == content_hash@[k],
        decreases CONTENT_HASH_LEN - j,
    {
        scratch[ADDRESS_LEN + j] = content_hash[j];
        j += 1;
    }
    assert(scratch@ =~= address@ + content_hash@);
    let mut bytes: [u8; 46] = [0u8; 46];
    let mut n: usize = 0;
    while n < IDENTIFIER_LEN
        invariant
            n <= IDENTIFIER_LEN,
            forall|k: int| 0 <= k < n ==> bytes@[k] == scratch@[k],
        decreases IDENTIFIER_LEN - n,
    {
        bytes[n] = scratch[n];
        n += 1;
    }
    let id = ContentIdentifier { bytes };
    assert(id@ =~= assembled(address@, content_hash@));
    Ok(id)
}

} // verus!
