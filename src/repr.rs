use vstd::prelude::*;

verus! {

/// A type whose values are stored as a fixed number of bytes.
///
/// `from_bytes` tells which byte strings are a valid value of the type, and
/// which value; every value reads back from its own bytes.
pub trait Repr: Sized {
    /// The number of bytes a value takes.
    spec fn size() -> nat;

    /// The bytes that store `self`.
    spec fn to_bytes(self) -> Seq<u8>;

    /// The value that `b` stores, if `b` is a valid value of the type.
    spec fn from_bytes(b: Seq<u8>) -> Option<Self>;

    proof fn lemma_round_trip(v: Self)
        ensures
            v.to_bytes().len() == Self::size(),
            Self::from_bytes(v.to_bytes()) == Some(v),
    ;

    /// The number of bytes a value takes.
    fn byte_len() -> (r: usize)
        ensures
            r == Self::size(),
    ;

    /// The bytes that store `self`.
    fn encode(&self) -> (r: Vec<u8>)
        ensures
            r@ == self.to_bytes(),
    ;

    /// The value that `b` stores, or `None` where `b` is no valid value.
    fn decode(b: &Vec<u8>) -> (r: Option<Self>)
        requires
            b@.len() == Self::size(),
        ensures
            r == Self::from_bytes(b@),
    ;
}

/// The four bytes of `n`, least significant first.
pub open spec fn le_bytes(n: u32) -> Seq<u8> {
    seq![
        (n % 256) as u8,
        (n / 256 % 256) as u8,
        (n / 65536 % 256) as u8,
        (n / 16777216) as u8,
    ]
}

/// The number that four bytes stand for, least significant first.
pub open spec fn le_value(b: Seq<u8>) -> nat {
    (b[0] + 256 * (b[1] + 256 * (b[2] + 256 * b[3]))) as nat
}

/// Whether `n` is the code of a Unicode scalar value, that is of a `char`.
pub open spec fn is_scalar(n: u32) -> bool {
    n <= 0xD7FF || (0xE000 <= n && n <= 0x10FFFF)
}

/// Relies on `char::from_u32`: the `char` whose code is `i`, and `None` where
/// `i` is a surrogate or above the largest code.
pub assume_specification[ core::char::from_u32 ](i: u32) -> (r: Option<char>)
    ensures
        r == (if is_scalar(i) { Some(i as char) } else { None::<char> }),
;

impl Repr for u8 {
    open spec fn size() -> nat {
        1
    }

    open spec fn to_bytes(self) -> Seq<u8> {
        seq![self]
    }

    open spec fn from_bytes(b: Seq<u8>) -> Option<u8> {
        if b.len() == 1 {
            Some(b[0])
        } else {
            None
        }
    }

    proof fn lemma_round_trip(v: u8) {
    }

    fn byte_len() -> (r: usize) {
        1
    }

    fn encode(&self) -> (r: Vec<u8>) {
        vec![*self]
    }

    fn decode(b: &Vec<u8>) -> (r: Option<u8>) {
        Some(b[0])
    }
}

impl Repr for u32 {
    open spec fn size() -> nat {
        4
    }

    open spec fn to_bytes(self) -> Seq<u8> {
        le_bytes(self)
    }

    open spec fn from_bytes(b: Seq<u8>) -> Option<u32> {
        if b.len() == 4 {
            Some(le_value(b) as u32)
        } else {
            None
        }
    }

    proof fn lemma_round_trip(v: u32) {
        let b = le_bytes(v);
        assert(le_value(b) == v as nat);
    }

    fn byte_len() -> (r: usize) {
        4
    }

    fn encode(&self) -> (r: Vec<u8>) {
        let n = *self;
        let r = vec![
            (n % 256) as u8,
            (n / 256 % 256) as u8,
            (n / 65536 % 256) as u8,
            (n / 16777216) as u8,
        ];
        assert(r@ =~= le_bytes(n));
        r
    }

    fn decode(b: &Vec<u8>) -> (r: Option<u32>) {
        let n: u32 = b[0] as u32 + 256 * (b[1] as u32 + 256 * (b[2] as u32 + 256 * b[3] as u32));
        Some(n)
    }
}

impl Repr for char {
    open spec fn size() -> nat {
        4
    }

    open spec fn to_bytes(self) -> Seq<u8> {
        le_bytes(self as u32)
    }

    open spec fn from_bytes(b: Seq<u8>) -> Option<char> {
        if b.len() == 4 && is_scalar(le_value(b) as u32) {
            Some((le_value(b) as u32) as char)
        } else {
            None
        }
    }

    proof fn lemma_round_trip(v: char) {
        vstd::utf8::char_is_scalar(v);
        vstd::utf8::char_u32_cast(v, v as u32);
        u32::lemma_round_trip(v as u32);
    }

    fn byte_len() -> (r: usize) {
        4
    }

    fn encode(&self) -> (r: Vec<u8>) {
        (*self as u32).encode()
    }

    fn decode(b: &Vec<u8>) -> (r: Option<char>) {
        match u32::decode(b) {
            Some(n) => core::char::from_u32(n),
            None => None,
        }
    }
}

} // verus!
