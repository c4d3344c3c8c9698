//! Helper functions for handing strings to C-ABI code.
use crate::errors::{Error, Result};
use vstd::prelude::*;
use vstd::string::StringSliceAdditionalSpecFns;

verus! {

/// A zero byte occurs somewhere in `b`.
pub open spec fn has_nul(b: Seq<u8>) -> bool {
    exists|i: int| 0 <= i < b.len() && b[i] == 0
}

/// The buffer of a C string whose content is `b`: those bytes and one zero terminator.
pub open spec fn nul_terminated(b: Seq<u8>) -> Seq<u8> {
    b.push(0u8)
}

/// `buf` is a well-formed C string buffer: it ends in a zero byte, and that terminator is
/// its only zero byte.
pub open spec fn is_c_string(buf: Seq<u8>) -> bool {
    &&& buf.len() >= 1
    &&& buf.last() == 0
    &&& forall|i: int| 0 <= i < buf.len() - 1 ==> buf[i] != 0
}

/// What a C reader takes from `buf`: its bytes up to, and not including, the first zero byte
/// (all of them where there is none).
pub open spec fn read_until_nul(buf: Seq<u8>) -> Seq<u8>
    decreases buf.len(),
{
    if buf.len() == 0 || buf[0] == 0 {
        Seq::empty()
    } else {
        seq![buf[0]] + read_until_nul(buf.drop_first())
    }
}

/// Reading back the C string built from bytes without a zero byte gives exactly those bytes.
pub proof fn lemma_read_back(b: Seq<u8>)
    requires
        !has_nul(b),
    ensures
        read_until_nul(nul_terminated(b)) == b,
    decreases b.len(),
{
    if b.len() > 0 {
        let rest = b.drop_first();
        assert(!has_nul(rest)) by {
            if has_nul(rest) {
                let i = choose|i: int| 0 <= i < rest.len() && rest[i] == 0;
                assert(b[i + 1] == 0);
            }
        }
        lemma_read_back(rest);
        assert(nul_terminated(b).drop_first() == nul_terminated(rest));
        assert(b[0] != 0);
        assert(seq![b[0]] + rest == b);
    }
}

/// The C string built from bytes without a zero byte is one byte longer than they are, ends
/// in a zero byte and holds no other.
pub proof fn lemma_terminated_shape(b: Seq<u8>)
    requires
        !has_nul(b),
    ensures
        nul_terminated(b).len() == b.len() + 1,
        is_c_string(nul_terminated(b)),
{
    let buf = nul_terminated(b);
    assert forall|i: int| 0 <= i < buf.len() - 1 implies buf[i] != 0 by {
        assert(buf[i] == b[i]);
    }
}

/// Takes a string and builds the buffer of a C string holding its bytes.
///
/// The buffer is a byte-for-byte copy of the string's UTF-8 bytes followed by one zero
/// byte. A string that holds a zero byte has no such representation: it is rejected with
/// `Error::InvalidCString`, before anything is allocated.
pub fn c_str(s: &str) -> (r: Result<Vec<u8>>)
    ensures
        r is Ok <==> !has_nul(s.spec_bytes()),
        r matches Err(e) ==> e == Error::InvalidCString,
        r matches Ok(buf) ==> buf@ == nul_terminated(s.spec_bytes()),
        r matches Ok(buf) ==> buf@.len() == s.spec_bytes().len() + 1 && is_c_string(buf@),
        r matches Ok(buf) ==> read_until_nul(buf@) == s.spec_bytes(),
{
    let bytes: &[u8] = s.as_bytes();
    let n: usize = bytes.len();
    let mut i: usize = 0;
    while i < n
        invariant
            n == bytes@.len(),
            bytes@ == s.spec_bytes(),
            i <= n,
            forall|j: int| 0 <= j < i ==> bytes@[j] != 0,
        decreases n - i,
    {
        if bytes[i] == 0 {
            return Err(Error::InvalidCString);
        }
        i = i + 1;
    }
    let mut buf: Vec<u8> = Vec::new();
    let mut k: usize = 0;
    while k < n
        invariant
            n == bytes@.len(),
            k <= n,
            buf@ == bytes@.subrange(0, k as int),
        decreases n - k,
    {
        buf.push(bytes[k]);
        k = k + 1;
    }
    buf.push(0u8);
    assert(bytes@.subrange(0, n as int) == bytes@);
    proof {
        lemma_read_back(bytes@);
        lemma_terminated_shape(bytes@);
    }
    Ok(buf)
}

} // verus!
