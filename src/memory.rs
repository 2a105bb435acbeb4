use vstd::prelude::*;

use core::marker::PhantomData;

use crate::repr::Repr;
use crate::ForceMut;

verus! {

/// A typed handle into a `Memory`: the address of the first byte, whether
/// writes through it are allowed, and the type its bytes are read as.
///
/// Nothing ties the type to what is stored there: `force_convert` gives a
/// handle of another type at the same address. A read checks instead that the
/// bytes found there are a valid value of the handle's type.
pub struct Ptr<T> {
    addr: usize,
    writable: bool,
    marker: PhantomData<T>,
}

impl<T> Ptr<T> {
    /// The handle that `forcemut` returns for this one.
    pub closed spec fn forced(self) -> Ptr<T> {
        Ptr { addr: self.addr, writable: true, marker: PhantomData }
    }

    /// The handle that `force_convert` returns for this one.
    pub closed spec fn converted<B>(self) -> Ptr<B> {
        Ptr { addr: self.addr, writable: false, marker: PhantomData }
    }

    /// The address of the first byte.
    pub fn address_of(&self) -> (r: usize)
        ensures
            r == self.address(),
    {
        self.addr
    }

    /// Whether writes through this handle are allowed.
    pub fn writable(&self) -> (r: bool)
        ensures
            r == self.is_writable(),
    {
        self.writable
    }
}

impl<T> Clone for Ptr<T> {
    fn clone(&self) -> (r: Ptr<T>)
        ensures
            r == *self,
    {
        Ptr { addr: self.addr, writable: self.writable, marker: PhantomData }
    }
}

impl<T> ForceMut for Ptr<T> {
    closed spec fn address(&self) -> nat {
        self.addr as nat
    }

    closed spec fn is_writable(&self) -> bool {
        self.writable
    }

    fn forcemut(&self) -> (r: Ptr<T>)
        ensures
            r == self.forced(),
    {
        Ptr { addr: self.addr, writable: true, marker: PhantomData }
    }
}

/// A read-only handle of type `B` at the address of `p`.
///
/// Nothing about `B` is checked here: whether the bytes at that address are a
/// valid `B` is what a later read through the handle requires.
pub fn force_convert<A, B>(p: &Ptr<A>) -> (r: Ptr<B>)
    ensures
        r == p.converted::<B>(),
        r.address() == p.address(),
        !r.is_writable(),
{
    Ptr { addr: p.addr, writable: false, marker: PhantomData }
}

/// The `n` bytes of `mem` from address `a` on.
pub open spec fn bytes_at(mem: Seq<u8>, a: nat, n: nat) -> Seq<u8> {
    mem.subrange(a as int, (a + n) as int)
}

/// Whether a value of `T` at address `a` lies within `mem`.
pub open spec fn fits<T: Repr>(mem: Seq<u8>, a: nat) -> bool {
    a + T::size() <= mem.len()
}

/// The value of `T` that the bytes of `mem` at address `a` store, if they
/// lie within `mem` and are a valid `T`.
pub open spec fn value_at<T: Repr>(mem: Seq<u8>, a: nat) -> Option<T> {
    if fits::<T>(mem, a) {
        T::from_bytes(bytes_at(mem, a, T::size()))
    } else {
        None
    }
}

/// `mem` with the bytes from address `a` on replaced by `b`.
pub open spec fn overwrite(mem: Seq<u8>, a: nat, b: Seq<u8>) -> Seq<u8> {
    mem.subrange(0, a as int) + b + mem.subrange((a + b.len()) as int, mem.len() as int)
}

/// A sequence of bytes in which values of `Repr` types are placed, read and
/// written through typed handles.
pub struct Memory {
    bytes: Vec<u8>,
}

impl View for Memory {
    type V = Seq<u8>;

    closed spec fn view(&self) -> Seq<u8> {
        self.bytes@
    }
}

impl Memory {
    /// An empty memory.
    pub fn new() -> (r: Memory)
        ensures
            r@ == Seq::<u8>::empty(),
    {
        Memory { bytes: Vec::new() }
    }

    /// The number of bytes.
    pub fn len(&self) -> (r: usize)
        ensures
            r == self@.len(),
    {
        self.bytes.len()
    }

    /// Appends the bytes of `v` and returns a read-only handle to them.
    pub fn place<T: Repr>(&mut self, v: &T) -> (r: Ptr<T>)
        requires
            old(self)@.len() + T::size() <= usize::MAX,
        ensures
            final(self)@ == old(self)@ + v.to_bytes(),
            r.address() == old(self)@.len(),
            !r.is_writable(),
    {
        let addr = self.bytes.len();
        let mut b = v.encode();
        self.bytes.append(&mut b);
        Ptr { addr, writable: false, marker: PhantomData }
    }

    /// The value of `T` stored at the address of `p`.
    pub fn load<T: Repr>(&self, p: &Ptr<T>) -> (r: T)
        requires
            value_at::<T>(self@, p.address()) is Some,
        ensures
            value_at::<T>(self@, p.address()) == Some(r),
    {
        let n = T::byte_len();
        let len = self.bytes.len();
        let mut b: Vec<u8> = Vec::new();
        let mut i: usize = 0;
        while i < n
            invariant
                n == T::size(),
                len == self@.len(),
                p.addr as nat == p.address(),
                p.address() + n <= self@.len(),
                i <= n,
                b@ == bytes_at(self@, p.address(), i as nat),
            decreases n - i,
        {
            b.push(self.bytes[p.addr + i]);
            i = i + 1;
            assert(b@ =~= bytes_at(self@, p.address(), i as nat));
        }
        T::decode(&b).unwrap()
    }

    /// Writes the bytes of `v` at the address of `p`, over what was there.
    pub fn store<T: Repr>(&mut self, p: &Ptr<T>, v: &T)
        requires
            p.is_writable(),
            fits::<T>(old(self)@, p.address()),
        ensures
            final(self)@ == overwrite(old(self)@, p.address(), v.to_bytes()),
    {
        proof {
            T::lemma_round_trip(*v);
        }
        let b = v.encode();
        let n = b.len();
        let len = self.bytes.len();
        let mut i: usize = 0;
        while i < n
            invariant
                n == b@.len() == T::size(),
                len == old(self)@.len(),
                p.addr as nat == p.address(),
                p.address() + n <= old(self)@.len(),
                self@.len() == old(self)@.len(),
                i <= n,
                forall|j: int|
                    0 <= j < self@.len() ==> #[trigger] self@[j] == if p.address() <= j
                        < p.address() + i {
                        b@[j - p.address()]
                    } else {
                        old(self)@[j]
                    },
            decreases n - i,
        {
            self.bytes.set(p.addr + i, b[i]);
            i = i + 1;
        }
        assert(self@ =~= overwrite(old(self)@, p.address(), v.to_bytes()));
    }
}

/// Writing `w` through the handle that `forcemut` gives for `p`, then reading
/// through `p` itself, finds `w`.
pub proof fn lemma_store_through_forced<T: Repr>(mem: Seq<u8>, p: Ptr<T>, w: T)
    requires
        fits::<T>(mem, p.address()),
    ensures
        p.forced().address() == p.address(),
        p.forced().is_writable(),
        value_at::<T>(overwrite(mem, p.forced().address(), w.to_bytes()), p.address()) == Some(
            w,
        ),
{
    T::lemma_round_trip(w);
    let m = overwrite(mem, p.address(), w.to_bytes());
    assert(bytes_at(m, p.address(), T::size()) =~= w.to_bytes());
}

/// Converting a handle to its own type keeps the address, and a read through
/// the new handle finds the very bytes, and value, that one through the old
/// handle finds.
pub proof fn lemma_convert_same_type<A: Repr>(mem: Seq<u8>, p: Ptr<A>)
    ensures
        p.converted::<A>().address() == p.address(),
        bytes_at(mem, p.converted::<A>().address(), A::size()) == bytes_at(
            mem,
            p.address(),
            A::size(),
        ),
        value_at::<A>(mem, p.converted::<A>().address()) == value_at::<A>(mem, p.address()),
{
}

/// A value of `A` placed in memory and read through a handle converted to a
/// type `B` of the same size gives what `B` makes of the very bytes of the
/// value.
pub proof fn lemma_convert_reads_same_bytes<A: Repr, B: Repr>(mem: Seq<u8>, v: A, p: Ptr<A>)
    requires
        A::size() == B::size(),
        p.address() == mem.len(),
    ensures
        p.converted::<B>().address() == p.address(),
        value_at::<B>(mem + v.to_bytes(), p.converted::<B>().address()) == B::from_bytes(
            v.to_bytes(),
        ),
{
    A::lemma_round_trip(v);
    let m = mem + v.to_bytes();
    assert(bytes_at(m, p.address(), B::size()) =~= v.to_bytes());
}

} // verus!
