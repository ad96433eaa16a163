//! Random seeds from the operating system's random source.
use vstd::prelude::*;
use crate::io_error::{IOErr, IoErrorKind, IoError, common_io_err_from_io};
use crate::results::{RandomU32Result, RandomU64Result, try_random_u32_err, try_random_u32_ok, try_random_u64_err, try_random_u64_ok};

verus! {

/// `getrandom::getrandom`: fills the buffer from the system's random
/// source; a failure comes back as its message.
///
/// The bytes are random, so the contract claims only that the buffer keeps
/// its length.
#[verifier::external_body]
fn fill_random(dest: &mut Vec<u8>) -> (r: Result<(), String>)
    ensures
        final(dest)@.len() == old(dest)@.len(),
{
    match getrandom::getrandom(dest.as_mut_slice()) {
        Ok(()) => Ok(()),
        Err(error) => Err(error.to_string()),
    }
}

/// `u32::from_ne_bytes`: the bytes read in the machine's byte order.
///
/// The order depends on the machine, so nothing is promised of the value.
#[verifier::external_body]
fn u32_from_ne_bytes(bytes: &Vec<u8>) -> u32
    requires
        bytes@.len() == 4,
{
    u32::from_ne_bytes([bytes[0], bytes[1], bytes[2], bytes[3]])
}

/// `u64::from_ne_bytes`: the bytes read in the machine's byte order.
///
/// The order depends on the machine, so nothing is promised of the value.
#[verifier::external_body]
fn u64_from_ne_bytes(bytes: &Vec<u8>) -> u64
    requires
        bytes@.len() == 8,
{
    u64::from_ne_bytes([bytes[0], bytes[1], bytes[2], bytes[3], bytes[4], bytes[5], bytes[6], bytes[7]])
}

/// The failure of the random source, as an I/O error of kind `Other`.
fn random_source_error(message: String) -> (r: IOErr)
    ensures
        r == IOErr::Other(message),
{
    common_io_err_from_io(&IoError { kind: IoErrorKind::Other, message })
}

/// A 32-bit seed as the random source delivered it, or its failure as
/// `Other` carrying the failure's message.
pub fn random_u32_result(read: Result<u32, String>) -> (r: RandomU32Result)
    ensures
        read matches Ok(v) ==> r == Ok::<u32, IOErr>(v),
        read matches Err(m) ==> r == Err::<u32, IOErr>(IOErr::Other(m)),
{
    match read {
        Ok(value) => try_random_u32_ok(value),
        Err(message) => try_random_u32_err(random_source_error(message)),
    }
}

/// A 64-bit seed as the random source delivered it, or its failure as
/// `Other` carrying the failure's message.
pub fn random_u64_result(read: Result<u64, String>) -> (r: RandomU64Result)
    ensures
        read matches Ok(v) ==> r == Ok::<u64, IOErr>(v),
        read matches Err(m) ==> r == Err::<u64, IOErr>(IOErr::Other(m)),
{
    match read {
        Ok(value) => try_random_u64_ok(value),
        Err(message) => try_random_u64_err(random_source_error(message)),
    }
}

/// A random 32-bit seed, or the random source's failure as `Other`.
pub fn random_seed_u32() -> (r: RandomU32Result)
    ensures
        r is Err ==> r->Err_0 is Other,
{
    let mut bytes: Vec<u8> = vec![0u8, 0u8, 0u8, 0u8];
    let read = match fill_random(&mut bytes) {
        Ok(()) => Ok(u32_from_ne_bytes(&bytes)),
        Err(message) => Err(message),
    };
    random_u32_result(read)
}

/// A random 64-bit seed, or the random source's failure as `Other`.
pub fn random_seed_u64() -> (r: RandomU64Result)
    ensures
        r is Err ==> r->Err_0 is Other,
{
    let mut bytes: Vec<u8> = vec![0u8, 0u8, 0u8, 0u8, 0u8, 0u8, 0u8, 0u8];
    let read = match fill_random(&mut bytes) {
        Ok(()) => Ok(u64_from_ne_bytes(&bytes)),
        Err(message) => Err(message),
    };
    random_u64_result(read)
}

} // verus!
