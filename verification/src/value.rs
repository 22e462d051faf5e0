//! Values that can be stored in a per-CPU area.
//!
//! An area is a run of bytes, so a value that lives in one has a fixed size
//! and a byte representation from which it can be read back.
use vstd::bytes::*;
use vstd::prelude::*;
use vstd::slice::slice_subrange;

verus! {

/// A value with a fixed-size byte representation.
pub trait Plain: Sized {
    /// The number of bytes that a value occupies.
    spec fn spec_size() -> nat;

    /// The bytes that represent `self`.
    spec fn spec_to_bytes(&self) -> Seq<u8>;

    /// The value that `bytes` represent.
    spec fn spec_from_bytes(bytes: Seq<u8>) -> Self;

    /// Every value is represented by `spec_size()` bytes and is read back
    /// from them unchanged.
    proof fn lemma_round_trip(v: Self)
        ensures
            v.spec_to_bytes().len() == Self::spec_size(),
            Self::spec_from_bytes(v.spec_to_bytes()) == v,
    ;

    /// Returns the number of bytes that a value occupies. A type whose
    /// values are too large to exist has no size to return.
    fn size() -> (n: usize)
        requires
            Self::spec_size() <= usize::MAX,
        ensures
            n == Self::spec_size(),
    ;

    /// Returns the bytes that represent `self`.
    fn to_bytes(&self) -> (bytes: Vec<u8>)
        ensures
            bytes@ == self.spec_to_bytes(),
    ;

    /// Returns the value that `bytes` represent.
    fn from_bytes(bytes: &[u8]) -> (v: Self)
        requires
            bytes@.len() == Self::spec_size(),
        ensures
            v == Self::spec_from_bytes(bytes@),
    ;
}

impl Plain for u8 {
    open spec fn spec_size() -> nat {
        1
    }

    open spec fn spec_to_bytes(&self) -> Seq<u8> {
        seq![*self]
    }

    open spec fn spec_from_bytes(bytes: Seq<u8>) -> u8 {
        bytes[0]
    }

    proof fn lemma_round_trip(v: u8) {
    }

    fn size() -> (n: usize) {
        1
    }

    fn to_bytes(&self) -> (bytes: Vec<u8>) {
        let mut bytes: Vec<u8> = Vec::new();
        bytes.push(*self);
        assert(bytes@ =~= seq![*self]);
        bytes
    }

    fn from_bytes(bytes: &[u8]) -> (v: u8) {
        bytes[0]
    }
}

impl Plain for u16 {
    open spec fn spec_size() -> nat {
        2
    }

    open spec fn spec_to_bytes(&self) -> Seq<u8> {
        spec_u16_to_le_bytes(*self)
    }

    open spec fn spec_from_bytes(bytes: Seq<u8>) -> u16 {
        spec_u16_from_le_bytes(bytes)
    }

    proof fn lemma_round_trip(v: u16) {
        lemma_auto_spec_u16_to_from_le_bytes();
        assert(spec_u16_to_le_bytes(v).len() == 2);
    }

    fn size() -> (n: usize) {
        2
    }

    fn to_bytes(&self) -> (bytes: Vec<u8>) {
        u16_to_le_bytes(*self)
    }

    fn from_bytes(bytes: &[u8]) -> (v: u16) {
        u16_from_le_bytes(bytes)
    }
}

impl Plain for u32 {
    open spec fn spec_size() -> nat {
        4
    }

    open spec fn spec_to_bytes(&self) -> Seq<u8> {
        spec_u32_to_le_bytes(*self)
    }

    open spec fn spec_from_bytes(bytes: Seq<u8>) -> u32 {
        spec_u32_from_le_bytes(bytes)
    }

    proof fn lemma_round_trip(v: u32) {
        lemma_auto_spec_u32_to_from_le_bytes();
        assert(spec_u32_to_le_bytes(v).len() == 4);
    }

    fn size() -> (n: usize) {
        4
    }

    fn to_bytes(&self) -> (bytes: Vec<u8>) {
        u32_to_le_bytes(*self)
    }

    fn from_bytes(bytes: &[u8]) -> (v: u32) {
        u32_from_le_bytes(bytes)
    }
}

impl Plain for u64 {
    open spec fn spec_size() -> nat {
        8
    }

    open spec fn spec_to_bytes(&self) -> Seq<u8> {
        spec_u64_to_le_bytes(*self)
    }

    open spec fn spec_from_bytes(bytes: Seq<u8>) -> u64 {
        spec_u64_from_le_bytes(bytes)
    }

    proof fn lemma_round_trip(v: u64) {
        lemma_auto_spec_u64_to_from_le_bytes();
    }

    fn size() -> (n: usize) {
        8
    }

    fn to_bytes(&self) -> (bytes: Vec<u8>) {
        u64_to_le_bytes(*self)
    }

    fn from_bytes(bytes: &[u8]) -> (v: u64) {
        u64_from_le_bytes(bytes)
    }
}

/// A `usize` is stored as eight bytes on every platform.
impl Plain for usize {
    open spec fn spec_size() -> nat {
        8
    }

    open spec fn spec_to_bytes(&self) -> Seq<u8> {
        spec_u64_to_le_bytes(*self as u64)
    }

    open spec fn spec_from_bytes(bytes: Seq<u8>) -> usize {
        spec_u64_from_le_bytes(bytes) as usize
    }

    proof fn lemma_round_trip(v: usize) {
        lemma_auto_spec_u64_to_from_le_bytes();
    }

    fn size() -> (n: usize) {
        8
    }

    fn to_bytes(&self) -> (bytes: Vec<u8>) {
        u64_to_le_bytes(*self as u64)
    }

    fn from_bytes(bytes: &[u8]) -> (v: usize) {
        #[verifier::truncate]
        (u64_from_le_bytes(bytes) as usize)
    }
}

/// A pair is stored as its first part followed by its second part.
impl<A: Plain, B: Plain> Plain for (A, B) {
    open spec fn spec_size() -> nat {
        A::spec_size() + B::spec_size()
    }

    open spec fn spec_to_bytes(&self) -> Seq<u8> {
        self.0.spec_to_bytes() + self.1.spec_to_bytes()
    }

    open spec fn spec_from_bytes(bytes: Seq<u8>) -> (A, B) {
        (
            A::spec_from_bytes(bytes.subrange(0, A::spec_size() as int)),
            B::spec_from_bytes(bytes.subrange(A::spec_size() as int, bytes.len() as int)),
        )
    }

    proof fn lemma_round_trip(v: (A, B)) {
        A::lemma_round_trip(v.0);
        B::lemma_round_trip(v.1);
        let bytes = v.spec_to_bytes();
        assert(bytes.subrange(0, A::spec_size() as int) =~= v.0.spec_to_bytes());
        assert(bytes.subrange(A::spec_size() as int, bytes.len() as int) =~= v.1.spec_to_bytes());
    }

    fn size() -> (n: usize) {
        A::size() + B::size()
    }

    fn to_bytes(&self) -> (bytes: Vec<u8>) {
        let mut bytes = self.0.to_bytes();
        let mut rest = self.1.to_bytes();
        bytes.append(&mut rest);
        bytes
    }

    fn from_bytes(bytes: &[u8]) -> (v: (A, B)) {
        let len = bytes.len();
        let mid = A::size();
        let a = A::from_bytes(slice_subrange(bytes, 0, mid));
        let b = B::from_bytes(slice_subrange(bytes, mid, len));
        (a, b)
    }
}

} // verus!
