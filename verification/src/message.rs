//! Handles to message-eligible values and their normalization to a single
//! canonical pointer form.
//!
//! A *message-eligible* value is an address-stable value owned by a foreign
//! runtime (an object, a class, a block) that may be the target of a dynamic
//! message send. Code here never dereferences such a value; it only moves
//! its address around. An address is a plain `usize`, with `0` as the null
//! address, so every operation is a total, pure address computation and is
//! verified as such.

use vstd::prelude::*;
use core::marker::PhantomData;

verus! {

/// The null address: the address that an absent handle normalizes to.
pub const NULL_ADDR: usize = 0;

/// Marker for types whose values may be sent dynamic messages.
///
/// An implementing type promises that its values have a fixed, known memory
/// layout, so that a handle to one can be treated uniformly as a thin
/// address. The `Sized` bound enforces the thin-pointer part of that
/// promise; the rest is the implementer's contract. The marker has no
/// methods and no runtime behavior.
pub trait Message: Sized {}

/// The foreign runtime's generic object type, seen from here as an opaque
/// marker: the library only ever handles addresses of such values, never
/// their contents.
pub struct Object;

/// The foreign runtime's generic class type, equally opaque: a class is
/// itself a message-eligible value.
pub struct Class;

impl Message for Object {}

impl Message for Class {}

/// A raw constant pointer to a message-eligible value, carried as its
/// address. It may hold any address, the null address included, and nothing
/// here checks that the address is valid.
pub struct ConstPtr<T: Message> {
    addr: usize,
    marker: PhantomData<T>,
}

/// A raw mutable pointer to a message-eligible value, carried as its
/// address. This is the canonical form that every handle normalizes to,
/// and the form that a dynamic message send consumes.
pub struct MutPtr<T: Message> {
    addr: usize,
    marker: PhantomData<T>,
}

impl<T: Message> Clone for ConstPtr<T> {
    fn clone(&self) -> (r: Self)
        ensures
            r.addr() == self.addr(),
    {
        ConstPtr { addr: self.addr, marker: PhantomData }
    }
}

impl<T: Message> Copy for ConstPtr<T> {}

impl<T: Message> Clone for MutPtr<T> {
    fn clone(&self) -> (r: Self)
        ensures
            r.addr() == self.addr(),
    {
        MutPtr { addr: self.addr, marker: PhantomData }
    }
}

impl<T: Message> Copy for MutPtr<T> {}

impl<T: Message> ConstPtr<T> {
    /// The address this pointer holds.
    pub closed spec fn addr(self) -> usize {
        self.addr
    }

    /// Makes a constant pointer out of a bare address.
    pub fn from_addr(addr: usize) -> (p: Self)
        ensures
            p.addr() == addr,
    {
        ConstPtr { addr, marker: PhantomData }
    }

    /// The pointer's address as a bare value.
    pub fn to_addr(&self) -> (a: usize)
        ensures
            a == self.addr(),
    {
        self.addr
    }
}

impl<T: Message> MutPtr<T> {
    /// The address this pointer holds.
    pub closed spec fn addr(self) -> usize {
        self.addr
    }

    /// Makes a mutable pointer out of a bare address.
    pub fn from_addr(addr: usize) -> (p: Self)
        ensures
            p.addr() == addr,
    {
        MutPtr { addr, marker: PhantomData }
    }

    /// The null pointer.
    pub fn null() -> (p: Self)
        ensures
            p.addr() == NULL_ADDR,
    {
        MutPtr::from_addr(NULL_ADDR)
    }

    /// The pointer's address as a bare value.
    pub fn to_addr(&self) -> (a: usize)
        ensures
            a == self.addr(),
    {
        self.addr
    }

    /// True exactly when the pointer holds the null address.
    pub fn is_null(&self) -> (b: bool)
        ensures
            b == (self.addr() == NULL_ADDR),
    {
        self.addr == NULL_ADDR
    }

    /// Reinterprets the pointer at another message-eligible type. The
    /// address is kept unchanged; no check of any kind is made.
    pub fn cast<U: Message>(&self) -> (p: MutPtr<U>)
        ensures
            p.addr() == self.addr(),
    {
        MutPtr { addr: self.addr, marker: PhantomData }
    }
}

/// A borrowed reference to a message-eligible value, carried as the address
/// of its referent. A reference always designates a value, so its address
/// is never the null address.
pub struct MsgRef<T: Message> {
    addr: usize,
    marker: PhantomData<T>,
}

/// A mutable borrowed reference to a message-eligible value, carried as the
/// address of its referent; like `MsgRef`, never null.
pub struct MsgRefMut<T: Message> {
    addr: usize,
    marker: PhantomData<T>,
}

impl<T: Message> MsgRef<T> {
    /// The address of the referent.
    pub closed spec fn addr(self) -> usize {
        self.addr
    }

    /// A reference is well formed when it designates a value: its address
    /// is not the null address.
    pub open spec fn wf(self) -> bool {
        self.addr() != NULL_ADDR
    }

    /// Makes a reference out of the address of a value.
    pub fn new(addr: usize) -> (r: Self)
        requires
            addr != NULL_ADDR,
        ensures
            r.addr() == addr,
    {
        MsgRef { addr, marker: PhantomData }
    }

    /// The referent's address as a bare value.
    pub fn to_addr(&self) -> (a: usize)
        ensures
            a == self.addr(),
    {
        self.addr
    }
}

impl<T: Message> Clone for MsgRef<T> {
    fn clone(&self) -> (r: Self)
        ensures
            r.addr() == self.addr(),
    {
        MsgRef { addr: self.addr, marker: PhantomData }
    }
}

impl<T: Message> Copy for MsgRef<T> {}

impl<T: Message> MsgRefMut<T> {
    /// The address of the referent.
    pub closed spec fn addr(self) -> usize {
        self.addr
    }

    /// A mutable reference is well formed when it designates a value: its
    /// address is not the null address.
    pub open spec fn wf(self) -> bool {
        self.addr() != NULL_ADDR
    }

    /// Makes a mutable reference out of the address of a value.
    pub fn new(addr: usize) -> (r: Self)
        requires
            addr != NULL_ADDR,
        ensures
            r.addr() == addr,
    {
        MsgRefMut { addr, marker: PhantomData }
    }

    /// The referent's address as a bare value.
    pub fn to_addr(&self) -> (a: usize)
        ensures
            a == self.addr(),
    {
        self.addr
    }
}

impl<T: Message> Clone for MsgRefMut<T> {
    fn clone(&self) -> (r: Self)
        ensures
            r.addr() == self.addr(),
    {
        MsgRefMut { addr: self.addr, marker: PhantomData }
    }
}

impl<T: Message> Copy for MsgRefMut<T> {}

/// Conversion of a handle to a canonical pointer to a message-eligible
/// value.
///
/// Every handle shape normalizes deterministically to exactly one address,
/// named by `target_addr`. Normalization never dereferences anything and
/// never fails, even on a null or dangling address; whether the address is
/// valid at the moment of use is the caller's responsibility.
pub trait ToMessage<T: Message>: Sized {
    /// The address this handle normalizes to; the null address when the
    /// handle is absent.
    spec fn target_addr(&self) -> usize;

    /// Normalizes the handle to the canonical mutable-pointer form,
    /// keeping its address exactly.
    fn as_ptr(&self) -> (p: MutPtr<T>)
        ensures
            p.addr() == self.target_addr(),
    ;

    /// True exactly when the handle normalizes to the null pointer.
    fn is_nil(&self) -> (b: bool)
        ensures
            b == (self.target_addr() == NULL_ADDR),
    {
        self.as_ptr().is_null()
    }
}

impl<T: Message> ToMessage<T> for ConstPtr<T> {
    /// A constant pointer normalizes to its own address, unchanged up to
    /// the mutability reinterpretation.
    open spec fn target_addr(&self) -> usize {
        self.addr()
    }

    fn as_ptr(&self) -> (p: MutPtr<T>) {
        MutPtr::from_addr(self.to_addr())
    }
}

impl<T: Message> ToMessage<T> for MutPtr<T> {
    /// A mutable pointer normalizes to itself.
    open spec fn target_addr(&self) -> usize {
        self.addr()
    }

    fn as_ptr(&self) -> (p: MutPtr<T>) {
        *self
    }
}

impl<T: Message> ToMessage<T> for MsgRef<T> {
    /// A reference normalizes to the address of its referent.
    open spec fn target_addr(&self) -> usize {
        self.addr()
    }

    fn as_ptr(&self) -> (p: MutPtr<T>) {
        MutPtr::from_addr(self.to_addr())
    }
}

impl<T: Message> ToMessage<T> for MsgRefMut<T> {
    /// A mutable reference normalizes to the address of its referent.
    open spec fn target_addr(&self) -> usize {
        self.addr()
    }

    fn as_ptr(&self) -> (p: MutPtr<T>) {
        MutPtr::from_addr(self.to_addr())
    }
}

impl<T: Message> ToMessage<T> for Option<MsgRef<T>> {
    /// An absent optional reference normalizes to the null address; a
    /// present one delegates to the reference it holds.
    open spec fn target_addr(&self) -> usize {
        match *self {
            None => NULL_ADDR,
            Some(r) => r.addr(),
        }
    }

    fn as_ptr(&self) -> (p: MutPtr<T>) {
        match *self {
            None => MutPtr::null(),
            Some(ref obj) => obj.as_ptr(),
        }
    }
}

impl<T: Message> ToMessage<T> for Option<MsgRefMut<T>> {
    /// An absent optional mutable reference normalizes to the null
    /// address; a present one delegates to the reference it holds.
    open spec fn target_addr(&self) -> usize {
        match *self {
            None => NULL_ADDR,
            Some(r) => r.addr(),
        }
    }

    fn as_ptr(&self) -> (p: MutPtr<T>) {
        match *self {
            None => MutPtr::null(),
            Some(ref obj) => obj.as_ptr(),
        }
    }
}

/// Normalizing a constant pointer is the identity on its address: the
/// pointer comes back unchanged up to the mutability reinterpretation.
pub proof fn lemma_normalize_const_ptr_identity<T: Message>(p: ConstPtr<T>)
    ensures
        p.target_addr() == p.addr(),
{
}

/// Normalizing a mutable pointer is the identity: the pointer comes back
/// unchanged.
pub proof fn lemma_normalize_mut_ptr_identity<T: Message>(p: MutPtr<T>)
    ensures
        p.target_addr() == p.addr(),
{
}

/// Normalizing a reference yields exactly the address of its referent.
pub proof fn lemma_normalize_ref_addr<T: Message>(r: MsgRef<T>)
    ensures
        r.target_addr() == r.addr(),
{
}

/// Normalizing a mutable reference yields exactly the address of its
/// referent.
pub proof fn lemma_normalize_ref_mut_addr<T: Message>(r: MsgRefMut<T>)
    ensures
        r.target_addr() == r.addr(),
{
}

/// An absent optional reference normalizes to the null address, so
/// `is_nil` holds of it.
pub proof fn lemma_absent_ref_is_null<T: Message>(h: Option<MsgRef<T>>)
    requires
        h is None,
    ensures
        h.target_addr() == NULL_ADDR,
{
}

/// An absent optional mutable reference normalizes to the null address,
/// so `is_nil` holds of it.
pub proof fn lemma_absent_ref_mut_is_null<T: Message>(h: Option<MsgRefMut<T>>)
    requires
        h is None,
    ensures
        h.target_addr() == NULL_ADDR,
{
}

/// A present optional reference delegates exactly to the reference it
/// holds: both normalize to the same address.
pub proof fn lemma_present_ref_delegates<T: Message>(h: Option<MsgRef<T>>, r: MsgRef<T>)
    requires
        h == Some(r),
    ensures
        h.target_addr() == r.target_addr(),
{
}

/// A present optional mutable reference delegates exactly to the
/// reference it holds: both normalize to the same address.
pub proof fn lemma_present_ref_mut_delegates<T: Message>(h: Option<MsgRefMut<T>>, r: MsgRefMut<T>)
    requires
        h == Some(r),
    ensures
        h.target_addr() == r.target_addr(),
{
}

/// An optional reference is nil exactly when it is absent: a well-formed
/// reference never has the null address, so a present optional never
/// normalizes to null.
pub proof fn lemma_opt_ref_nil_iff_absent<T: Message>(h: Option<MsgRef<T>>)
    requires
        h matches Some(r) ==> r.wf(),
    ensures
        (h.target_addr() == NULL_ADDR) <==> (h is None),
{
}

/// An optional mutable reference is nil exactly when it is absent.
pub proof fn lemma_opt_ref_mut_nil_iff_absent<T: Message>(h: Option<MsgRefMut<T>>)
    requires
        h matches Some(r) ==> r.wf(),
    ensures
        (h.target_addr() == NULL_ADDR) <==> (h is None),
{
}

/// A well-formed reference is never nil.
pub proof fn lemma_ref_never_nil<T: Message>(r: MsgRef<T>)
    requires
        r.wf(),
    ensures
        r.target_addr() != NULL_ADDR,
{
}

/// A well-formed mutable reference is never nil.
pub proof fn lemma_ref_mut_never_nil<T: Message>(r: MsgRefMut<T>)
    requires
        r.wf(),
    ensures
        r.target_addr() != NULL_ADDR,
{
}

/// Converts any handle to a type-erased pointer to the generic object
/// type: the single entry point a dynamic message send goes through. The
/// address is exactly the one the handle normalizes to; only the pointee
/// type is reinterpreted.
pub fn to_obj_ptr<T: Message, M: ToMessage<T>>(obj_ref: &M) -> (p: MutPtr<Object>)
    ensures
        p.addr() == obj_ref.target_addr(),
{
    obj_ref.as_ptr().cast()
}

} // verus!
