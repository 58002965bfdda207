//! The host's native string, as a value: the context it lives under and the
//! bytes it holds.
//!
//! Host strings are byte strings. Text enters one as its UTF-8 encoding and
//! leaves it by decoding, which can fail: the host promises no well-formed
//! text.

use vstd::prelude::*;
use vstd::string::{StrSliceExecFns, StringSliceAdditionalSpecFns};
use vstd::utf8::{decode_utf8, encode_utf8, valid_utf8};
use vstd::utf8::{encode_utf8_decode_utf8, encode_utf8_valid_utf8};
use core::str::Utf8Error;

verus! {

/// Why a byte string is no UTF-8 text, as the standard library reports it.
#[verifier::external_type_specification]
#[verifier::external_body]
pub struct ExUtf8Error(Utf8Error);

/// `core::str::from_utf8` succeeds exactly on well-formed UTF-8 and then
/// returns the very bytes it was given, seen as text.
pub assume_specification[ core::str::from_utf8 ](v: &[u8]) -> (res: Result<&str, Utf8Error>)
    ensures
        res is Ok <==> valid_utf8(v@),
        res matches Ok(text) ==> text.spec_bytes() == v@,
;

/// The scope of the host under which native strings are allocated and freed.
#[derive(Clone, Copy, Debug, PartialEq, Eq, Structural)]
pub struct Context {
    pub id: usize,
}

/// The text that a byte string holds, if it holds any.
pub open spec fn viewed(bytes: Seq<u8>) -> Option<Seq<char>> {
    if valid_utf8(bytes) {
        Some(decode_utf8(bytes))
    } else {
        None
    }
}

/// Text that went into a native string comes out of it unchanged.
pub proof fn lemma_create_then_view(text: Seq<char>)
    ensures
        viewed(encode_utf8(text)) == Some(text),
{
    encode_utf8_valid_utf8(text);
    encode_utf8_decode_utf8(text);
}

/// One native string: the context it was created under and its bytes.
///
/// The value is not `Clone`: it has one owner at a time, and the context it
/// carries is the one under which the native string is to be released.
#[derive(Debug)]
pub struct RedisString {
    ctx: Context,
    inner: Vec<u8>,
}

impl View for RedisString {
    type V = Seq<u8>;

    closed spec fn view(&self) -> Seq<u8> {
        self.inner@
    }
}

impl RedisString {
    /// The context this string belongs to.
    pub closed spec fn spec_context(&self) -> Context {
        self.ctx
    }

    /// Whether `s` holds a NUL character, which no native string made from
    /// text can carry.
    pub fn contains_nul(s: &str) -> (found: bool)
        ensures
            found == s.spec_bytes().contains(0u8),
    {
        let bytes = s.as_bytes();
        let mut k: usize = 0;
        while k < bytes.len()
            invariant
                bytes@ == s.spec_bytes(),
                k <= bytes@.len(),
                forall|j: int| 0 <= j < k ==> bytes@[j] != 0u8,
            decreases bytes@.len() - k,
        {
            if bytes[k] == 0 {
                assert(s.spec_bytes()[k as int] == 0u8);
                return true;
            }
            k = k + 1;
        }
        false
    }

    /// A new native string under `ctx` that holds `s` in UTF-8.
    pub fn create(ctx: Context, s: &str) -> (res: RedisString)
        requires
            !s.spec_bytes().contains(0u8),
        ensures
            res.spec_context() == ctx,
            res@ == s.spec_bytes(),
            viewed(res@) == Some(s@),
    {
        proof {
            lemma_create_then_view(s@);
        }
        RedisString { ctx, inner: s.as_bytes_vec() }
    }

    /// The native string under `ctx` that holds `bytes`, as the host handed
    /// them back.
    pub fn from_redis_module_string(ctx: Context, bytes: Vec<u8>) -> (res: RedisString)
        ensures
            res.spec_context() == ctx,
            res@ == bytes@,
    {
        RedisString { ctx, inner: bytes }
    }

    /// The bytes of a native string as text, borrowed, not copied. Fails
    /// exactly when the bytes are not well-formed UTF-8.
    pub fn from_ptr<'a>(bytes: &'a [u8]) -> (res: Result<&'a str, Utf8Error>)
        ensures
            match viewed(bytes@) {
                Some(text) => res matches Ok(s) && s@ == text,
                None => res is Err,
            },
    {
        let res = core::str::from_utf8(bytes);
        proof {
            if let Ok(s) = res {
                encode_utf8_decode_utf8(s@);
            }
        }
        res
    }

    /// The context to release this string under.
    pub fn context(&self) -> (ctx: Context)
        ensures
            ctx == self.spec_context(),
    {
        self.ctx
    }

    /// The bytes this string holds.
    pub fn as_bytes(&self) -> (bytes: &[u8])
        ensures
            bytes@ == self@,
    {
        self.inner.as_slice()
    }
}

} // verus!
