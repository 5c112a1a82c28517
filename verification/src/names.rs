//! Names in the form that the driver takes: bytes that end with a zero byte.

use vstd::prelude::*;
use crate::error::{Error, ErrorCode};

verus! {

/// Whether `at` is the position of the first zero byte of `bytes`.
pub open spec fn first_nul(bytes: Seq<u8>, at: int) -> bool {
    &&& 0 <= at < bytes.len()
    &&& bytes[at] == 0
    &&& forall|k: int| 0 <= k < at ==> bytes[k] != 0
}

/// The zero-terminated form of a name: its bytes and one zero byte behind
/// them. A name that holds a zero byte has no such form; the error gives
/// the position of its first zero byte.
pub fn c_string(bytes: &[u8]) -> (r: Result<Vec<u8>, Error>)
    ensures
        match r {
            Ok(name) => (forall|k: int| 0 <= k < bytes@.len() ==> bytes@[k] != 0) && name@
                == bytes@.push(0),
            Err(error) => exists|at: int|
                first_nul(bytes@, at) && error.spec_code() == ErrorCode::FFI(at as usize),
        },
{
    let mut name: Vec<u8> = Vec::new();
    let mut i: usize = 0;
    while i < bytes.len()
        invariant
            i <= bytes@.len(),
            name@ == bytes@.take(i as int),
            forall|k: int| 0 <= k < i ==> bytes@[k] != 0,
        decreases bytes@.len() - i,
    {
        if bytes[i] == 0 {
            assert(first_nul(bytes@, i as int));
            return Err(Error::new(ErrorCode::FFI(i)));
        }
        name.push(bytes[i]);
        assert(name@ == bytes@.take(i + 1)) by {
            assert(bytes@.take(i + 1) =~= bytes@.take(i as int).push(bytes@[i as int]));
        }
        i += 1;
    }
    assert(bytes@.take(bytes@.len() as int) =~= bytes@);
    name.push(0);
    Ok(name)
}

} // verus!
