use msgptr::message::Class;
use msgptr::message::ConstPtr;
use msgptr::message::MsgRef;
use msgptr::message::MsgRefMut;
use msgptr::message::MutPtr;
use msgptr::message::Object;
use msgptr::message::ToMessage;
use msgptr::message::to_obj_ptr;

#[test]
fn null_const_ptr_is_nil_and_normalizes_to_null() {
    let p: ConstPtr<Object> = ConstPtr::from_addr(0);
    assert!(p.is_nil());
    assert_eq!(p.as_ptr().to_addr(), 0);
}

#[test]
fn const_ptr_normalizes_to_its_own_address() {
    let p: ConstPtr<Object> = ConstPtr::from_addr(0x1000);
    assert_eq!(p.as_ptr().to_addr(), 0x1000);
    assert!(!p.is_nil());
}

#[test]
fn mut_ptr_normalizes_to_itself() {
    let p: MutPtr<Object> = MutPtr::from_addr(0x2040);
    assert_eq!(p.as_ptr().to_addr(), 0x2040);
    assert!(!p.is_nil());
}

#[test]
fn null_mut_ptr_is_nil() {
    let p: MutPtr<Class> = MutPtr::null();
    assert!(p.is_nil());
    assert_eq!(p.as_ptr().to_addr(), 0);
}

#[test]
fn reference_normalizes_to_address_of_referent() {
    let r: MsgRef<Object> = MsgRef::new(0x40);
    assert_eq!(r.as_ptr().to_addr(), 0x40);
    assert!(!r.is_nil());
}

#[test]
fn mut_reference_normalizes_to_address_of_referent() {
    let r: MsgRefMut<Object> = MsgRefMut::new(0x88);
    assert_eq!(r.as_ptr().to_addr(), 0x88);
    assert!(!r.is_nil());
}

#[test]
fn absent_optional_reference_is_nil_and_null() {
    let h: Option<MsgRef<Object>> = None;
    assert!(h.is_nil());
    assert_eq!(h.as_ptr().to_addr(), 0);
    assert_eq!(to_obj_ptr(&h).to_addr(), 0);
}

#[test]
fn absent_optional_mut_reference_is_nil_and_null() {
    let h: Option<MsgRefMut<Class>> = None;
    assert!(h.is_nil());
    assert_eq!(h.as_ptr().to_addr(), 0);
    assert_eq!(to_obj_ptr(&h).to_addr(), 0);
}

#[test]
fn present_optional_reference_delegates_to_the_reference() {
    let r: MsgRef<Object> = MsgRef::new(0x3c0);
    let h: Option<MsgRef<Object>> = Some(r);
    assert_eq!(h.as_ptr().to_addr(), r.as_ptr().to_addr());
    assert!(!h.is_nil());
}

#[test]
fn present_optional_mut_reference_delegates_to_the_reference() {
    let r: MsgRefMut<Object> = MsgRefMut::new(0x7e8);
    let h: Option<MsgRefMut<Object>> = Some(r);
    assert_eq!(h.as_ptr().to_addr(), r.as_ptr().to_addr());
    assert!(!h.is_nil());
}

#[test]
fn to_obj_ptr_keeps_the_normalized_address() {
    let p: ConstPtr<Object> = ConstPtr::from_addr(0x500);
    assert_eq!(to_obj_ptr(&p).to_addr(), p.as_ptr().to_addr());
    let q: MutPtr<Object> = MutPtr::from_addr(0x501);
    assert_eq!(to_obj_ptr(&q).to_addr(), q.as_ptr().to_addr());
    let r: MsgRef<Object> = MsgRef::new(0x502);
    assert_eq!(to_obj_ptr(&r).to_addr(), r.as_ptr().to_addr());
    let m: MsgRefMut<Object> = MsgRefMut::new(0x503);
    assert_eq!(to_obj_ptr(&m).to_addr(), m.as_ptr().to_addr());
    let h: Option<MsgRef<Object>> = Some(MsgRef::new(0x504));
    assert_eq!(to_obj_ptr(&h).to_addr(), h.as_ptr().to_addr());
}

#[test]
fn to_obj_ptr_erases_the_class_type_but_keeps_the_address() {
    let c: MsgRef<Class> = MsgRef::new(0x900);
    let p: MutPtr<Object> = to_obj_ptr(&c);
    assert_eq!(p.to_addr(), 0x900);
}

#[test]
fn cast_keeps_the_address() {
    let p: MutPtr<Class> = MutPtr::from_addr(0xabc);
    let q: MutPtr<Object> = p.cast();
    assert_eq!(q.to_addr(), 0xabc);
}

#[test]
fn copies_keep_the_address() {
    let p: MutPtr<Object> = MutPtr::from_addr(0x77);
    let q = p.clone();
    assert_eq!(q.to_addr(), 0x77);
    let c: ConstPtr<Object> = ConstPtr::from_addr(0x78);
    assert_eq!(c.clone().to_addr(), 0x78);
    let r: MsgRef<Object> = MsgRef::new(0x79);
    assert_eq!(r.clone().to_addr(), 0x79);
    let m: MsgRefMut<Object> = MsgRefMut::new(0x7a);
    assert_eq!(m.clone().to_addr(), 0x7a);
}
