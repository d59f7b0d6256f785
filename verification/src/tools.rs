//! Bridge between host strings and the C-string representation the native
//! engine requires.
//!
//! Encoding rejects embedded zero bytes (a C string cannot carry them) and
//! appends the single terminating zero byte.  Decoding is lossy: invalid
//! byte sequences are replaced rather than reported, and a null pointer maps
//! to an absent value.  Both directions are specified against the UTF-8
//! model in `vstd::utf8`, which makes the encode/decode round trip provable.

use vstd::prelude::*;

verus! {

use vstd::slice::slice_to_vec;
use vstd::utf8::{decode_utf8, encode_utf8, valid_utf8};

/// The view of an optional value, element viewed: absent stays absent.
pub open spec fn opt_view<T: View>(o: Option<T>) -> Option<T::V> {
    match o {
        None => None,
        Some(t) => Some(t@),
    }
}

/// True when no byte of `bytes` is zero, i.e. the sequence can be the
/// contents of a C string.
pub open spec fn nul_free(bytes: Seq<u8>) -> bool {
    forall|i: int| 0 <= i < bytes.len() ==> bytes[i] != 0u8
}

/// What `String::from_utf8_lossy` yields on an arbitrary byte sequence:
/// the bytes decoded as UTF-8 with every invalid sequence replaced.  The
/// replacement rules fill pages, so the result is only named here; on valid
/// UTF-8 it coincides with `decode_utf8` (see [`lossy_text`]).
pub uninterp spec fn lossy_of(bytes: Seq<u8>) -> Seq<char>;

/// Relies on `String::from_utf8_lossy`: the result depends on the bytes
/// alone; valid UTF-8 input is decoded unchanged (no replacement happens),
/// and empty input yields the empty string.
#[verifier::external_body]
fn lossy_text(bytes: &Vec<u8>) -> (r: String)
    ensures
        r@ == lossy_of(bytes@),
        valid_utf8(bytes@) ==> r@ == decode_utf8(bytes@),
        bytes@.len() == 0 ==> r@.len() == 0,
{
    String::from_utf8_lossy(bytes.as_slice()).into_owned()
}

/// An engine-ready string buffer: the UTF-8 bytes of the text followed by
/// exactly one terminating zero byte, and no zero byte anywhere else.
pub struct NativeString {
    bytes: Vec<u8>,
}

impl NativeString {
    /// The whole buffer, terminator included.
    pub closed spec fn buffer(&self) -> Seq<u8> {
        self.bytes@
    }

    /// The text bytes, without the terminator.
    pub open spec fn contents(&self) -> Seq<u8> {
        self.buffer().drop_last()
    }

    /// Well-formed: non-empty, terminated by the only zero byte.
    pub open spec fn wf(&self) -> bool {
        &&& self.buffer().len() >= 1
        &&& self.buffer().last() == 0u8
        &&& nul_free(self.contents())
    }

    /// The raw buffer, for handing to the engine (terminator included).
    pub fn as_bytes_with_nul(&self) -> (r: &Vec<u8>)
        ensures
            r@ == self.buffer(),
    {
        &self.bytes
    }
}

/// The position of the first zero byte in a text that was to be encoded.
#[derive(Clone, Copy, PartialEq, Eq, Structural, Debug)]
pub struct NulByteError {
    pub position: usize,
}

/// Convert a host string to an engine string.
///
/// The original interface treats an embedded zero byte here as a programmer
/// error and aborts; that input is therefore excluded by precondition, and
/// [`path_to_cstr`] is the total variant that reports it instead.
pub fn to_cstr(s: &str) -> (r: NativeString)
    requires
        nul_free(encode_utf8(s@)),
    ensures
        r.wf(),
        r.contents() == encode_utf8(s@),
{
    let mut bytes = slice_to_vec(s.as_bytes());
    bytes.push(0u8);
    let r = NativeString { bytes };
    proof {
        assert(r.contents() =~= encode_utf8(s@));
    }
    r
}

/// Convert a host string to an engine string, reporting an embedded zero
/// byte as a recoverable error instead of excluding it.
///
/// Returns `Ok` exactly when the UTF-8 bytes of `s` contain no zero byte;
/// otherwise `Err` carries the position of the first zero byte.
pub fn path_to_cstr(s: &str) -> (r: Result<NativeString, NulByteError>)
    ensures
        r is Ok <==> nul_free(encode_utf8(s@)),
        r matches Ok(ns) ==> ns.wf() && ns.contents() == encode_utf8(s@),
        r matches Err(e)
            ==> 0 <= e.position < encode_utf8(s@).len()
                && encode_utf8(s@)[e.position as int] == 0u8
                && nul_free(encode_utf8(s@).take(e.position as int)),
{
    let bytes = s.as_bytes();
    let mut i: usize = 0;
    while i < bytes.len()
        invariant
            i <= bytes@.len(),
            bytes@ == encode_utf8(s@),
            nul_free(bytes@.take(i as int)),
        decreases bytes@.len() - i,
    {
        if bytes[i] == 0u8 {
            return Err(NulByteError { position: i });
        }
        proof {
            assert(bytes@.take(i + 1) =~= bytes@.take(i as int).push(bytes@[i as int]));
        }
        i += 1;
    }
    proof {
        assert(bytes@.take(i as int) =~= bytes@);
    }
    Ok(to_cstr(s))
}

/// Decode the contents of a native C string that the caller read from the
/// engine, a null pointer being `None`.  `bytes` holds the buffer up to,
/// and not including, the terminator.
pub fn from_cstr(bytes: &Option<Vec<u8>>) -> (r: Option<String>)
    ensures
        bytes is None ==> r is None,
        bytes matches Some(b) ==> r matches Some(s) && s@ == lossy_of(b@),
{
    match bytes {
        None => None,
        Some(b) => Some(lossy_text(b)),
    }
}

/// Decode the contents of a native C string the caller knows to be
/// non-null; `bytes` holds the buffer up to, and not including, the
/// terminator.
pub fn from_cstr_bytes(bytes: &Vec<u8>) -> (r: String)
    ensures
        r@ == lossy_of(bytes@),
        valid_utf8(bytes@) ==> r@ == decode_utf8(bytes@),
{
    lossy_text(bytes)
}

/// Decode an engine string back into a host string (lossily).
pub fn decode_native(ns: &NativeString) -> (r: String)
    requires
        ns.wf(),
    ensures
        r@ == lossy_of(ns.contents()),
        valid_utf8(ns.contents()) ==> r@ == decode_utf8(ns.contents()),
{
    let mut bytes = slice_to_vec(ns.as_bytes_with_nul().as_slice());
    bytes.pop();
    lossy_text(&bytes)
}

/// Law: encoding a text without embedded zero bytes and decoding the
/// resulting engine string yields the text unchanged.
pub fn round_trip(s: &str) -> (r: String)
    requires
        nul_free(encode_utf8(s@)),
    ensures
        r@ == s@,
{
    let c = to_cstr(s);
    proof {
        vstd::utf8::encode_utf8_valid_utf8(s@);
        vstd::utf8::encode_utf8_decode_utf8(s@);
    }
    decode_native(&c)
}

} // verus!
