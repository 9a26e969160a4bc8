//! The character-counting instrumentation layer: counts, in a request or
//! response payload, the bytes that spell a chosen character, so the
//! surrounding pipeline can report the tally.
//!
//! Only bytes whose value equals the character's scalar value count, so a
//! character beyond the single-byte range matches nothing, and an absent
//! character counts zero.

use vstd::prelude::*;

verus! {

/// Whether byte `b`, read as a character, is the counted character `c`.
pub open spec fn byte_matches(b: u8, c: Option<char>) -> bool {
    match c {
        Some(ch) => ch as u32 == b as u32,
        None => false,
    }
}

/// How many bytes of `s` spell the character `c`.
pub open spec fn count_spec(s: Seq<u8>, c: Option<char>) -> nat
    decreases s.len(),
{
    if s.len() == 0 {
        0
    } else {
        count_spec(s.drop_last(), c) + if byte_matches(s.last(), c) {
            1nat
        } else {
            0nat
        }
    }
}

/// Counts the bytes of `bytes` that spell the character `c`.
pub fn count_chars(bytes: &Vec<u8>, c: Option<char>) -> (count: usize)
    ensures
        count == count_spec(bytes@, c),
{
    let scalar: Option<u32> = match c {
        Some(ch) => Some(ch as u32),
        None => None,
    };
    let mut count: usize = 0;
    let mut i: usize = 0;
    proof {
        assert(bytes@.subrange(0, 0) =~= Seq::<u8>::empty());
    }
    while i < bytes.len()
        invariant
            i <= bytes@.len(),
            count <= i,
            count == count_spec(bytes@.subrange(0, i as int), c),
            scalar == (match c {
                Some(ch) => Some(ch as u32),
                None => None::<u32>,
            }),
        decreases bytes@.len() - i,
    {
        proof {
            assert(bytes@.subrange(0, i + 1 as int).drop_last() =~= bytes@.subrange(0, i as int));
            assert(bytes@.subrange(0, i + 1 as int).last() == bytes@[i as int]);
        }
        let b = bytes[i];
        match scalar {
            Some(v) => {
                if b as u32 == v {
                    count = count + 1;
                }
            },
            None => {},
        }
        i = i + 1;
    }
    proof {
        assert(bytes@.subrange(0, bytes@.len() as int) =~= bytes@);
    }
    count
}

/// The character-counting middleware: wraps a downstream handler and counts
/// a fixed character in each request and response payload.
#[derive(Clone)]
pub struct CountChar<T> {
    /// The wrapped downstream handler.
    pub inner: T,
    /// The character being counted.
    pub c: char,
}

impl<T> CountChar<T> {
    /// Wraps `inner`, counting `c` in the payloads that pass through.
    pub fn new(inner: T, c: char) -> (service: Self)
        ensures
            service.inner == inner,
            service.c == c,
    {
        CountChar { inner, c }
    }
}

/// Builds the character-counting middleware around a downstream handler.
#[derive(Clone)]
pub struct CountCharLayer(pub char);

impl CountCharLayer {
    /// A layer that will count `c`.
    pub fn new(c: char) -> (layer: Self)
        ensures
            layer.0 == c,
    {
        CountCharLayer(c)
    }

    /// Wraps `inner` in a [`CountChar`] counting this layer's character.
    pub fn layer<S>(&self, inner: S) -> (service: CountChar<S>)
        ensures
            service.inner == inner,
            service.c == self.0,
    {
        CountChar::new(inner, self.0)
    }
}

} // verus!
