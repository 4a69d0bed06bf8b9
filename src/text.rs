//! C strings and caller-sized buffers: reading nul-terminated names,
//! writing them back, and the two-call buffer-growth protocol.
use vstd::prelude::*;
use vstd::string::StringSliceAdditionalSpecFns;
use vstd::utf8::{decode_utf8, encode_utf8_decode_utf8, valid_utf8};
use crate::codes::LayerError;

verus! {

/// The result code with which a runtime asks for a larger buffer.
pub const SIZE_INSUFFICIENT: i32 = -11;

/// C characters read as bytes.
pub open spec fn c_bytes(s: Seq<i8>) -> Seq<u8> {
    s.map_values(|c: i8| c as u8)
}

/// `n` is the position of the first nul in `s`.
pub open spec fn is_first_nul(s: Seq<i8>, n: int) -> bool {
    &&& 0 <= n < s.len()
    &&& s[n] == 0
    &&& forall|j: int| 0 <= j < n ==> s[j] != 0
}

/// `s` holds no nul at all.
pub open spec fn has_no_nul(s: Seq<i8>) -> bool {
    forall|j: int| 0 <= j < s.len() ==> s[j] != 0
}

/// The text that a C character array holds before its first nul: none
/// when it has no nul or the bytes before it are not UTF-8.
pub open spec fn c_text(s: Seq<i8>) -> Option<Seq<char>> {
    if has_no_nul(s) {
        None
    } else {
        let n = choose|n: int| is_first_nul(s, n);
        if valid_utf8(c_bytes(s.take(n))) {
            Some(decode_utf8(c_bytes(s.take(n))))
        } else {
            None
        }
    }
}

/// Relies on `std::str::from_utf8`: the bytes are accepted exactly when
/// they are valid UTF-8, and then read as the text they encode.
#[verifier::external_body]
fn utf8_str(bytes: &[u8]) -> (r: Option<&str>)
    ensures
        r.is_some() <==> valid_utf8(bytes@),
        r matches Some(s) ==> s@ == decode_utf8(bytes@),
{
    std::str::from_utf8(bytes).ok()
}

/// The text that UTF-8 bytes encode, if they are valid.
fn utf8_to_string(bytes: &[u8]) -> (r: Option<String>)
    ensures
        r.is_some() <==> valid_utf8(bytes@),
        r matches Some(s) ==> s@ == decode_utf8(bytes@),
{
    match utf8_str(bytes) {
        Some(s) => Some(s.to_owned()),
        None => None,
    }
}

/// The text before the first nul of a fixed-size C character array.
/// Fails with a validation error when there is no nul, or when the bytes
/// before it are not UTF-8.
pub fn str_from_bytes_until_nul(bytes: &[i8]) -> (r: Result<String, LayerError>)
    ensures
        match r {
            Ok(s) => c_text(bytes@) == Some(s@),
            Err(e) => e == LayerError::ValidationFailure && c_text(bytes@).is_none(),
        },
{
    let mut i: usize = 0;
    let mut prefix: Vec<u8> = Vec::new();
    while i < bytes.len() && bytes[i] != 0
        invariant
            i <= bytes@.len(),
            forall|j: int| 0 <= j < i ==> bytes@[j] != 0,
            prefix@ == c_bytes(bytes@.take(i as int)),
        decreases bytes@.len() - i,
    {
        prefix.push(bytes[i] as u8);
        i += 1;
        assert(c_bytes(bytes@.take(i as int)) =~= c_bytes(bytes@.take(i - 1)).push(
            bytes@[i - 1] as u8,
        ));
    }
    if i == bytes.len() {
        assert(has_no_nul(bytes@));
        return Err(LayerError::ValidationFailure);
    }
    assert forall|n: int| #[trigger] is_first_nul(bytes@, n) implies n == i by {
        if n < i {
        } else if n > i {
        }
    }
    assert(is_first_nul(bytes@, i as int));
    assert(!has_no_nul(bytes@));
    match utf8_to_string(prefix.as_slice()) {
        Some(s) => Ok(s),
        None => Err(LayerError::ValidationFailure),
    }
}

/// Whether two texts are the same, compared byte by byte.
pub fn same_text(a: &str, b: &str) -> (r: bool)
    ensures
        r == (a@ == b@),
{
    let x = a.as_bytes();
    let y = b.as_bytes();
    proof {
        encode_utf8_decode_utf8(a@);
        encode_utf8_decode_utf8(b@);
    }
    if x.len() != y.len() {
        return false;
    }
    let mut i: usize = 0;
    while i < x.len()
        invariant
            x@ == a.spec_bytes(),
            y@ == b.spec_bytes(),
            x@.len() == y@.len(),
            i <= x@.len(),
            forall|j: int| 0 <= j < i ==> x@[j] == y@[j],
        decreases x@.len() - i,
    {
        if x[i] != y[i] {
            assert(x@[i as int] != y@[i as int]);
            return false;
        }
        i += 1;
    }
    assert(x@ =~= y@);
    true
}

/// Copies a text into a C character array, followed by a nul; the rest of
/// the array is left as it was.
pub fn place_cstr(out: &mut Vec<i8>, s: &str)
    requires
        s.spec_bytes().len() + 1 <= old(out)@.len(),
    ensures
        final(out)@.len() == old(out)@.len(),
        forall|i: int| 0 <= i < s.spec_bytes().len() ==> final(out)@[i] == s.spec_bytes()[i] as i8,
        final(out)@[s.spec_bytes().len() as int] == 0,
        forall|i: int|
            s.spec_bytes().len() < i < old(out)@.len() ==> final(out)@[i] == old(out)@[i],
{
    let bytes = s.as_bytes();
    let mut i: usize = 0;
    while i < bytes.len()
        invariant
            bytes@ == s.spec_bytes(),
            i <= bytes@.len(),
            out@.len() == old(out)@.len(),
            bytes@.len() + 1 <= out@.len(),
            forall|j: int| 0 <= j < i ==> out@[j] == bytes@[j] as i8,
            forall|j: int| i <= j < out@.len() ==> out@[j] == old(out)@[j],
        decreases bytes@.len() - i,
    {
        out.set(i, bytes[i] as i8);
        i += 1;
    }
    out.set(bytes.len(), 0);
}

/// The length that remains of a buffer once its trailing nuls are cut.
pub open spec fn trimmed_len(s: Seq<u8>) -> nat
    decreases s.len(),
{
    if s.len() == 0 {
        0
    } else if s.last() != 0 {
        s.len()
    } else {
        trimmed_len(s.drop_last())
    }
}

/// Cuts the trailing nuls off a buffer.
pub fn trim_trailing_nuls(bytes: &mut Vec<u8>)
    ensures
        final(bytes)@ == old(bytes)@.take(trimmed_len(old(bytes)@) as int),
        final(bytes)@.len() == 0 || final(bytes)@.last() != 0,
{
    let mut n: usize = bytes.len();
    assert(bytes@.take(n as int) =~= bytes@);
    while n > 0 && bytes[n - 1] == 0
        invariant
            n <= bytes@.len(),
            bytes@ == old(bytes)@,
            trimmed_len(bytes@.take(n as int)) == trimmed_len(bytes@),
        decreases n,
    {
        assert(bytes@.take(n as int).drop_last() =~= bytes@.take(n - 1));
        n -= 1;
    }
    proof {
        if n > 0 {
            assert(bytes@.take(n as int).last() == bytes@[n - 1]);
        }
        assert(bytes@.take(bytes@.len() as int) =~= bytes@);
    }
    bytes.truncate(n);
}

/// The text in a buffer that a runtime filled: trailing nuls cut, the rest
/// read as UTF-8 (a validation error when it is not).
pub fn string_from_buffer(bytes: Vec<u8>) -> (r: Result<String, LayerError>)
    ensures
        valid_utf8(bytes@.take(trimmed_len(bytes@) as int)) ==> (r matches Ok(s) && s@
            == decode_utf8(bytes@.take(trimmed_len(bytes@) as int))),
        !valid_utf8(bytes@.take(trimmed_len(bytes@) as int)) ==> r == Err::<String, LayerError>(
            LayerError::ValidationFailure,
        ),
{
    let mut bytes = bytes;
    trim_trailing_nuls(&mut bytes);
    match utf8_to_string(bytes.as_slice()) {
        Some(s) => Ok(s),
        None => Err(LayerError::ValidationFailure),
    }
}

/// What to do after one call of the two-call buffer protocol.
#[derive(Clone, Copy, Debug, PartialEq, Eq, Structural)]
pub enum BufferStep {
    /// The buffer now holds this many elements: done.
    Filled(u32),
    /// Call again with a buffer of this capacity.
    Grow(u32),
    /// Give up with this error.
    Failed(LayerError),
}

/// The next step after a runtime answered a buffer query with `code`,
/// reporting `reported` elements, when it was offered `capacity`.
/// A first call, the size query, offers capacity zero: any failure of it
/// ends the protocol with its code. Only a call that offered a buffer is
/// retried, when the runtime reports it short.
pub fn buffer_step(code: i32, reported: u32, capacity: u32) -> (r: BufferStep)
    ensures
        code >= 0 && reported <= capacity ==> r == BufferStep::Filled(reported),
        code >= 0 && reported > capacity ==> r == BufferStep::Grow(reported),
        code < 0 && capacity == 0 ==> r == BufferStep::Failed(LayerError::Runtime(code)),
        code == SIZE_INSUFFICIENT && capacity > 0 && reported > capacity ==> r == BufferStep::Grow(
            reported,
        ),
        code == SIZE_INSUFFICIENT && capacity > 0 && reported <= capacity ==> r
            == BufferStep::Failed(LayerError::SizeInsufficient),
        code < 0 && code != SIZE_INSUFFICIENT ==> r == BufferStep::Failed(LayerError::Runtime(code)),
{
    if code >= 0 {
        if reported <= capacity {
            BufferStep::Filled(reported)
        } else {
            BufferStep::Grow(reported)
        }
    } else if capacity == 0 {
        BufferStep::Failed(LayerError::Runtime(code))
    } else if code == SIZE_INSUFFICIENT {
        if reported > capacity {
            BufferStep::Grow(reported)
        } else {
            BufferStep::Failed(LayerError::SizeInsufficient)
        }
    } else {
        BufferStep::Failed(LayerError::Runtime(code))
    }
}

} // verus!
