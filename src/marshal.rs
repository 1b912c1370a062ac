use vstd::prelude::*;
use vstd::string::StringSliceAdditionalSpecFns;

verus! {

/// A key or name that cannot cross the boundary as a null-terminated string.
#[derive(Clone, Copy, Debug, PartialEq, Eq, Structural)]
pub enum KeyError {
    /// The text holds a zero byte, which the engine would read as its end.
    InvalidKey,
}

/// Whether a byte sequence holds a zero byte anywhere.
pub open spec fn has_nul(b: Seq<u8>) -> bool {
    exists|i: int| 0 <= i < b.len() && b[i] == 0
}

/// The null-terminated form of a byte sequence.
pub open spec fn c_string(b: Seq<u8>) -> Seq<u8> {
    b.push(0)
}

/// What encoding a text yields: its bytes with a terminator, or the error.
pub open spec fn encoded(s: Seq<u8>) -> Result<Seq<u8>, KeyError> {
    if has_nul(s) {
        Err(KeyError::InvalidKey)
    } else {
        Ok(c_string(s))
    }
}

/// Encodes a key (or a database name) as the engine reads it: its UTF-8 bytes
/// followed by one zero byte. A text that already holds a zero byte is refused,
/// never truncated.
pub fn encode_key(key: &str) -> (r: Result<Vec<u8>, KeyError>)
    ensures
        match r {
            Ok(b) => encoded(key.spec_bytes()) == Ok::<Seq<u8>, KeyError>(b@),
            Err(e) => encoded(key.spec_bytes()) == Err::<Seq<u8>, KeyError>(e),
        },
{
    let bytes = key.as_bytes();
    let mut out: Vec<u8> = Vec::new();
    let mut i: usize = 0;
    while i < bytes.len()
        invariant
            bytes@ == key.spec_bytes(),
            i <= bytes@.len(),
            out@ == bytes@.subrange(0, i as int),
            forall|j: int| 0 <= j < i ==> bytes@[j] != 0,
        decreases bytes@.len() - i,
    {
        if bytes[i] == 0 {
            return Err(KeyError::InvalidKey);
        }
        out.push(bytes[i]);
        i = i + 1;
    }
    out.push(0);
    assert(out@ == c_string(bytes@));
    Ok(out)
}

} // verus!
