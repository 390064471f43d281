//! Shader text as the driver wants it: bytes followed by a single NUL.

use vstd::prelude::*;

verus! {

/// A zero byte inside shader text, which a C string cannot hold.
#[derive(Clone, Copy, Debug, PartialEq, Eq, Structural)]
pub struct InteriorNul {
    /// Index of the first zero byte.
    pub position: usize,
}

/// `bytes` holds no zero byte.
pub open spec fn nul_free(bytes: Seq<u8>) -> bool {
    forall|i: int| 0 <= i < bytes.len() ==> bytes[i] != 0
}

/// `position` is the index of the first zero byte of `bytes`.
pub open spec fn is_first_nul(bytes: Seq<u8>, position: int) -> bool {
    &&& 0 <= position < bytes.len()
    &&& bytes[position] == 0
    &&& nul_free(bytes.subrange(0, position))
}

/// `buffer` is a C string: it ends in a zero byte and holds no other.
pub open spec fn is_c_string(buffer: Seq<u8>) -> bool {
    &&& buffer.len() > 0
    &&& buffer.last() == 0
    &&& nul_free(buffer.drop_last())
}

/// Copies `bytes` and appends the terminating NUL.
///
/// Text with a zero byte in it is refused, and the error gives the index of
/// the first one.
pub fn nul_terminated(bytes: &[u8]) -> (r: Result<Vec<u8>, InteriorNul>)
    ensures
        r is Ok <==> nul_free(bytes@),
        r matches Ok(buffer) ==> buffer@ == bytes@.push(0) && is_c_string(buffer@),
        r matches Err(e) ==> is_first_nul(bytes@, e.position as int),
{
    let mut buffer: Vec<u8> = Vec::new();
    let mut i: usize = 0;
    while i < bytes.len()
        invariant
            i <= bytes.len(),
            buffer@ == bytes@.subrange(0, i as int),
            nul_free(bytes@.subrange(0, i as int)),
        decreases bytes.len() - i,
    {
        let byte: u8 = bytes[i];
        if byte == 0 {
            return Err(InteriorNul { position: i });
        }
        buffer.push(byte);
        proof {
            let next = bytes@.subrange(0, i + 1);
            assert(next == bytes@.subrange(0, i as int).push(byte));
            assert forall|j: int| 0 <= j < next.len() implies next[j] != 0 by {
                if j < i {
                    assert(next[j] == bytes@.subrange(0, i as int)[j]);
                }
            }
        }
        i += 1;
    }
    proof {
        assert(bytes@.subrange(0, i as int) == bytes@);
        assert(bytes@.push(0).drop_last() == bytes@);
    }
    buffer.push(0);
    Ok(buffer)
}

} // verus!
