//! Access to the guest's linear memory.
//!
//! The memory belongs to the sandbox engine. This module declares it to the
//! verifier, states what the engine's two copy operations do, and builds the
//! bounds-checked reads and writes of the host interface on them.

use vstd::prelude::*;
use vstd::slice::slice_subrange;
use wasmi::MemoryRef;
use crate::error::GatewayError;

verus! {

/// `wasmi::MemoryRef`: a handle to one linear memory of a module instance.
#[verifier::external_type_specification]
#[verifier::external_body]
pub struct ExMemoryRef(MemoryRef);

/// `wasmi::Error`: what the engine reports when an operation fails.
#[verifier::external_type_specification]
#[verifier::external_body]
pub struct ExEngineError(wasmi::Error);

/// The bytes that a linear memory holds, from offset 0 to its current size.
/// The guest does not run while the host serves one of its calls, so within
/// a call the bytes change only where the host writes.
pub uninterp spec fn memory_bytes(memory: MemoryRef) -> Seq<u8>;

/// Whether `len` bytes from offset `ptr` on lie inside a memory of `size` bytes.
pub open spec fn in_bounds(size: nat, ptr: int, len: int) -> bool {
    0 <= ptr && 0 <= len && ptr + len <= size
}

/// `bytes` with `data` written over it from offset `ptr` on.
pub open spec fn overwritten(bytes: Seq<u8>, ptr: int, data: Seq<u8>) -> Seq<u8> {
    Seq::new(
        bytes.len(),
        |i: int|
            if ptr <= i < ptr + data.len() {
                data[i - ptr]
            } else {
                bytes[i]
            },
    )
}

/// `wasmi::MemoryInstance::get`: copies `size` bytes out of the memory,
/// starting at `offset`. The engine answers with the bytes if the region lies
/// inside the memory's current size and with an error if it does not.
#[verifier::external_body]
fn engine_get(memory: &MemoryRef, offset: u32, size: usize) -> (result: Result<
    Vec<u8>,
    wasmi::Error,
>)
    ensures
        result is Ok <==> in_bounds(memory_bytes(*memory).len(), offset as int, size as int),
        result matches Ok(bytes) ==> bytes@ == memory_bytes(*memory).subrange(
            offset as int,
            offset + size,
        ),
{
    memory.get(offset, size)
}

/// `wasmi::MemoryInstance::set`: copies `value` into the memory, starting at
/// `offset`. The engine writes all of it if the region lies inside the
/// memory's current size; otherwise it reports an error and writes nothing.
#[verifier::external_body]
fn engine_set(memory: &mut MemoryRef, offset: u32, value: &[u8]) -> (result: Result<
    (),
    wasmi::Error,
>)
    ensures
        result is Ok <==> in_bounds(
            memory_bytes(*old(memory)).len(),
            offset as int,
            value@.len() as int,
        ),
        result is Ok ==> memory_bytes(*final(memory)) == overwritten(
            memory_bytes(*old(memory)),
            offset as int,
            value@,
        ),
        result is Err ==> memory_bytes(*final(memory)) == memory_bytes(*old(memory)),
{
    memory.set(offset, value)
}

/// Size of one page of linear memory, in bytes.
pub const PAGE_SIZE: u64 = 65536;

/// The largest number of pages that a linear memory can have.
pub const MAX_PAGES: usize = 65536;

/// `wasmi::MemoryInstance::current_size`: the memory's current size in pages
/// of 64 KiB. A memory is a whole number of pages long and never has more
/// than 65536 of them.
#[verifier::external_body]
fn engine_pages(memory: &MemoryRef) -> (pages: usize)
    ensures
        pages <= MAX_PAGES,
        memory_bytes(*memory).len() == pages * PAGE_SIZE,
{
    memory.current_size().0
}

/// The memory's current size in bytes.
pub fn memory_size(memory: &MemoryRef) -> (size: u64)
    ensures
        size == memory_bytes(*memory).len(),
{
    let pages = engine_pages(memory);
    assert(pages * PAGE_SIZE <= MAX_PAGES * PAGE_SIZE) by (nonlinear_arith)
        requires
            pages <= MAX_PAGES,
    ;
    pages as u64 * PAGE_SIZE
}

/// Holds a region that a guest named against the memory's current size.
pub fn check_region(memory: &MemoryRef, ptr: u32, len: u32) -> (result: Result<(), GatewayError>)
    ensures
        result is Ok <==> in_bounds(memory_bytes(*memory).len(), ptr as int, len as int),
        result matches Err(e) ==> e == GatewayError::OutOfBoundsMemoryAccess,
{
    let size = memory_size(memory);
    if ptr as u64 + len as u64 <= size {
        Ok(())
    } else {
        Err(GatewayError::OutOfBoundsMemoryAccess)
    }
}

/// Reads `len` bytes at `ptr` out of the guest's memory. A region that reaches
/// past the memory's current size is refused.
pub fn read_guest(memory: &MemoryRef, ptr: u32, len: u32) -> (result: Result<
    Vec<u8>,
    GatewayError,
>)
    ensures
        result is Ok <==> in_bounds(memory_bytes(*memory).len(), ptr as int, len as int),
        result matches Ok(bytes) ==> bytes@ == memory_bytes(*memory).subrange(
            ptr as int,
            ptr + len,
        ),
        result matches Err(e) ==> e == GatewayError::OutOfBoundsMemoryAccess,
{
    match engine_get(memory, ptr, len as usize) {
        Ok(bytes) => Ok(bytes),
        Err(_) => Err(GatewayError::OutOfBoundsMemoryAccess),
    }
}

/// Writes `data` at `ptr` into the guest's memory. A region that reaches past
/// the memory's current size is refused, and nothing is written.
pub fn write_guest(memory: &mut MemoryRef, ptr: u32, data: &[u8]) -> (result: Result<
    (),
    GatewayError,
>)
    ensures
        result is Ok <==> in_bounds(
            memory_bytes(*old(memory)).len(),
            ptr as int,
            data@.len() as int,
        ),
        result is Ok ==> memory_bytes(*final(memory)) == overwritten(
            memory_bytes(*old(memory)),
            ptr as int,
            data@,
        ),
        result matches Err(e) ==> e == GatewayError::OutOfBoundsMemoryAccess && memory_bytes(
            *final(memory),
        ) == memory_bytes(*old(memory)),
{
    match engine_set(memory, ptr, data) {
        Ok(()) => Ok(()),
        Err(_) => Err(GatewayError::OutOfBoundsMemoryAccess),
    }
}

/// Number of bytes that a copy into a buffer of `dest_len` bytes takes from
/// `data_len` bytes: the smaller of the two.
pub open spec fn copied_len(dest_len: u32, data_len: nat) -> u32 {
    if data_len < dest_len {
        data_len as u32
    } else {
        dest_len
    }
}

/// The memory after `data` was copied into the buffer of `dest_len` bytes at
/// `dest_ptr`: as much of `data` as fits stands at the buffer's start.
pub open spec fn after_copy(bytes: Seq<u8>, dest_ptr: u32, dest_len: u32, data: Seq<u8>) -> Seq<
    u8,
> {
    overwritten(bytes, dest_ptr as int, data.subrange(0, copied_len(dest_len, data.len()) as int))
}

/// Copies `data` into the guest's buffer of `dest_len` bytes at `dest_ptr`
/// and returns how many bytes were written: all of `data` if it fits, else
/// its first `dest_len` bytes. A buffer that reaches past the memory's
/// current size is refused, and nothing is written.
pub fn copy_truncated(
    memory: &mut MemoryRef,
    dest_ptr: u32,
    dest_len: u32,
    data: &[u8],
) -> (result: Result<u32, GatewayError>)
    ensures
        result is Ok <==> in_bounds(
            memory_bytes(*old(memory)).len(),
            dest_ptr as int,
            dest_len as int,
        ),
        result matches Ok(written) ==> written == copied_len(dest_len, data@.len())
            && memory_bytes(*final(memory)) == after_copy(
            memory_bytes(*old(memory)),
            dest_ptr,
            dest_len,
            data@,
        ),
        result matches Err(e) ==> e == GatewayError::OutOfBoundsMemoryAccess && memory_bytes(
            *final(memory),
        ) == memory_bytes(*old(memory)),
{
    match check_region(memory, dest_ptr, dest_len) {
        Ok(()) => {},
        Err(e) => {
            return Err(e);
        },
    }
    let written: u32 = if data.len() < dest_len as usize {
        data.len() as u32
    } else {
        dest_len
    };
    let part = slice_subrange(data, 0, written as usize);
    match write_guest(memory, dest_ptr, part) {
        Ok(()) => Ok(written),
        Err(e) => Err(e),
    }
}

/// A copy writes the smaller of the buffer's and the data's length, takes
/// those bytes from the start of the data, leaves every byte outside the
/// written part as it was, and keeps the memory's size.
pub proof fn lemma_copy_is_truncating(bytes: Seq<u8>, dest_ptr: u32, dest_len: u32, data: Seq<u8>)
    requires
        in_bounds(bytes.len(), dest_ptr as int, dest_len as int),
    ensures
        copied_len(dest_len, data.len()) <= dest_len,
        copied_len(dest_len, data.len()) <= data.len(),
        copied_len(dest_len, data.len()) == dest_len || copied_len(dest_len, data.len())
            == data.len(),
        after_copy(bytes, dest_ptr, dest_len, data).len() == bytes.len(),
        forall|i: int|
            dest_ptr <= i < dest_ptr + copied_len(dest_len, data.len()) ==> after_copy(
                bytes,
                dest_ptr,
                dest_len,
                data,
            )[i] == data[i - dest_ptr],
        forall|i: int|
            0 <= i < bytes.len() && !(dest_ptr <= i < dest_ptr + copied_len(dest_len, data.len()))
                ==> after_copy(bytes, dest_ptr, dest_len, data)[i] == bytes[i],
{
}

} // verus!
