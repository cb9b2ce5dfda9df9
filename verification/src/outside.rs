//! What this crate uses of other crates. Nothing here is proved: each contract is a claim
//! about the function that it names.

use crate::block::Block;
use protobuf::RepeatedField;
use vstd::prelude::*;

verus! {

/// Declares `protobuf::RepeatedField`, the list that messages hold their repeated fields in.
#[verifier::external_type_specification]
#[verifier::external_body]
#[verifier::reject_recursive_types(T)]
pub struct ExRepeatedField<T>(RepeatedField<T>);

/// The blocks in a list, in order.
pub uninterp spec fn block_items(field: RepeatedField<Block>) -> Seq<Block>;

/// The byte strings in a list, in order.
pub uninterp spec fn bytes_items(field: RepeatedField<Vec<u8>>) -> Seq<Seq<u8>>;

/// `protobuf::RepeatedField::new`: a list without blocks.
#[verifier::external_body]
pub(crate) fn repeated_new() -> (field: RepeatedField<Block>)
    ensures
        block_items(field) == Seq::<Block>::empty(),
{
    RepeatedField::new()
}

/// `protobuf::RepeatedField::push`: the block goes behind those that the list has.
#[verifier::external_body]
pub(crate) fn repeated_push(field: &mut RepeatedField<Block>, value: Block)
    ensures
        block_items(*final(field)) == block_items(*old(field)).push(value),
{
    field.push(value)
}

/// `protobuf::RepeatedField::len`: how many blocks the list has.
#[verifier::external_body]
pub(crate) fn repeated_len(field: &RepeatedField<Block>) -> (len: usize)
    ensures
        len == block_items(*field).len(),
{
    field.len()
}

/// `protobuf::RepeatedField::into_vec`: the blocks of the list, in order.
#[verifier::external_body]
pub(crate) fn repeated_into_vec(field: RepeatedField<Block>) -> (blocks: Vec<Block>)
    ensures
        blocks@ == block_items(field),
{
    field.into_vec()
}

/// `protobuf::RepeatedField::from_slice`: a list of copies of the byte strings, in order.
#[verifier::external_body]
pub(crate) fn repeated_from_slice(values: &[Vec<u8>]) -> (field: RepeatedField<Vec<u8>>)
    ensures
        bytes_items(field) == values@.map_values(|value: Vec<u8>| value@),
{
    RepeatedField::from_slice(values)
}

/// `cita_types::H256::from_slice`: the hash whose bytes are those given. It panics on any
/// other number of bytes than 32.
#[verifier::external_body]
pub(crate) fn h256_from_slice(src: &[u8]) -> (hash: [u8; 32])
    requires
        src@.len() == 32,
    ensures
        hash@ == src@,
{
    cita_types::H256::from_slice(src).0
}

} // verus!
