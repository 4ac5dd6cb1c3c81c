use downcast_rs::Downcast;
use polymorph::eval::{eval_eq, eval_hash, eval_partial_eq, eval_partial_ord};
use polymorph::ref_or_owned::{RefMutOrBox, RefMutOrOwned, RefOrBox, RefOrOwned};
use polymorph::samples::{
    Implementor, MyTrait, TestRefMutOrBox, TestRefMutOrOwned, TestRefOrBox, TestRefOrOwned,
};
use std::borrow::{Borrow, BorrowMut};
use std::cmp::Ordering;
use std::error::Error;
use std::fmt::{Display, Formatter};
use std::ops::Deref;

/// `MyTrait` for a trait object that can be taken back to its concrete type.
trait MyDowncastTrait: MyTrait + Downcast {}

impl MyDowncastTrait for Implementor {}

struct TestRefOrDowncastBox<'t> {
    my_trait: RefOrBox<'t, dyn MyDowncastTrait>,
}

impl<'t> TestRefOrDowncastBox<'t> {
    fn new<T>(my_trait: T) -> Self
    where
        T: Into<RefOrBox<'t, dyn MyDowncastTrait>>,
    {
        Self {
            my_trait: my_trait.into(),
        }
    }
}

struct TestRefMutOrDowncastBox<'t> {
    my_trait: RefMutOrBox<'t, dyn MyDowncastTrait>,
}

impl<'t> TestRefMutOrDowncastBox<'t> {
    fn new<T>(my_trait: T) -> Self
    where
        T: Into<RefMutOrBox<'t, dyn MyDowncastTrait>>,
    {
        Self {
            my_trait: my_trait.into(),
        }
    }
}

fn downcast_to_implementor(implementor: Box<dyn MyDowncastTrait>) -> Implementor {
    match implementor.into_any().downcast::<Implementor>() {
        Ok(value) => *value,
        Err(_) => panic!("Wrong MyTrait implementation"),
    }
}

//
// Implicit Deref
// From<&T>, From<&mut T>, From<T>, and From<Box<T>>
//

#[test]
fn test_ref_or_owned_with_ref() {
    let implementor = Implementor::default();
    let test_ref_or_owned = TestRefOrOwned::new(&implementor);
    implementor.do_something();
    test_ref_or_owned.implementor.do_something();
    assert_eq!(2, implementor.calls());
    assert_eq!(0, implementor.mut_calls());
}

#[test]
fn test_ref_or_owned_with_ownership() {
    let implementor = Implementor::default();
    let test_ref_or_owned = TestRefOrOwned::new(implementor);
    test_ref_or_owned.implementor.do_something();
    let implementor = test_ref_or_owned.implementor;
    assert_eq!(1, implementor.calls());
    assert_eq!(0, implementor.mut_calls());
}

#[test]
fn test_ref_mut_or_owned_with_ref() {
    let mut implementor = Implementor::default();
    let mut test_ref_or_owned = TestRefMutOrOwned::new(&mut implementor);
    test_ref_or_owned.implementor.do_mutable();
    assert_eq!(0, implementor.calls());
    assert_eq!(1, implementor.mut_calls());
}

#[test]
fn test_ref_mut_or_owned_with_ownership() {
    let implementor = Implementor::default();
    let mut test_ref_or_owned = TestRefMutOrOwned::new(implementor);
    test_ref_or_owned.implementor.do_mutable();
    let implementor = test_ref_or_owned.implementor;
    assert_eq!(0, implementor.calls());
    assert_eq!(1, implementor.mut_calls());
}

#[test]
fn test_ref_or_box_with_ref() {
    let implementor = Implementor::default();
    let test_ref_or_box = TestRefOrBox::new(&implementor as &dyn MyTrait);
    implementor.do_something();
    test_ref_or_box.my_trait.do_something();
    assert_eq!(2, implementor.calls());
    assert_eq!(0, implementor.mut_calls());
}

#[test]
fn test_ref_or_box_with_box() -> Result<(), Box<dyn Error>> {
    let implementor: Box<dyn MyDowncastTrait> = Box::new(Implementor::default());
    let test_ref_or_box = TestRefOrDowncastBox::new(implementor);
    test_ref_or_box.my_trait.do_something();

    let implementor = match test_ref_or_box.my_trait {
        RefOrBox::Borrowed(_) => panic!("Wrong RefOrBox variant"),
        RefOrBox::Owned(value) => downcast_to_implementor(value),
    };
    assert_eq!(1, implementor.calls());
    assert_eq!(0, implementor.mut_calls());
    Ok(())
}

#[test]
fn test_ref_mut_or_box_with_ref() {
    let mut implementor = Implementor::default();
    let mut test_ref_mut_or_box = TestRefMutOrBox::new(&mut implementor as &mut dyn MyTrait);
    test_ref_mut_or_box.my_trait.do_mutable();
    implementor.do_mutable();
    assert_eq!(0, implementor.calls());
    assert_eq!(2, implementor.mut_calls());
}

#[test]
fn test_ref_mut_or_box_with_box() -> Result<(), Box<dyn Error>> {
    let implementor: Box<dyn MyDowncastTrait> = Box::new(Implementor::default());
    let mut test_ref_or_box = TestRefMutOrDowncastBox::new(implementor);
    test_ref_or_box.my_trait.do_mutable();

    let implementor = match test_ref_or_box.my_trait {
        RefMutOrBox::Borrowed(_) => panic!("Wrong RefMutOrBox variant"),
        RefMutOrBox::Owned(value) => downcast_to_implementor(value),
    };
    assert_eq!(0, implementor.calls());
    assert_eq!(1, implementor.mut_calls());
    Ok(())
}

//
// into_owned() tests
//

trait CloneTrait: dyn_clone::DynClone {}

#[derive(Clone, Default)]
struct ClonableStruct {}

impl CloneTrait for ClonableStruct {}

#[test]
fn ref_or_owned_into_owned() {
    let clonable = ClonableStruct::default();
    let clonable = RefOrOwned::Borrowed(&clonable);
    let _cloned: ClonableStruct = clonable.into_owned();
}

#[test]
fn ref_or_box_into_owned() {
    let clonable = ClonableStruct::default();
    let clonable: RefOrBox<dyn CloneTrait> = RefOrBox::from(&clonable as &dyn CloneTrait);
    let _cloned: Box<dyn CloneTrait> = clonable.into_owned();
}

//
// Deref, AsRef, AsMut, Borrow, and BorrowMut
//

#[test]
fn ref_or_owned_as_ref() {
    let implementor = Implementor::default();
    let implementor = RefOrBox::from(&implementor);
    let _my_trait: &Implementor = implementor.deref();
    let _my_trait: &Implementor = implementor.as_ref();
    let _my_trait: &Implementor = implementor.borrow();
}

#[test]
fn ref_mut_or_owned_as_mut() {
    let mut implementor = Implementor::default();
    let mut implementor = RefMutOrBox::from(&mut implementor);
    let _my_trait: &Implementor = implementor.deref();
    let _my_trait: &Implementor = implementor.as_ref();
    let _my_trait: &Implementor = implementor.borrow();
    let _my_trait: &mut Implementor = implementor.as_mut();
    let _my_trait: &mut Implementor = implementor.borrow_mut();
}

#[test]
fn ref_or_box_as_ref() {
    let implementor = Implementor::default();
    let implementor: RefOrBox<dyn MyTrait> = RefOrBox::from(&implementor as &dyn MyTrait);
    let _my_trait: &dyn MyTrait = implementor.deref();
    let _my_trait: &dyn MyTrait = implementor.as_ref();
    let _my_trait: &dyn MyTrait = implementor.borrow();
}

#[test]
fn ref_mut_or_box_as_mut() {
    let mut implementor = Implementor::default();
    let mut implementor: RefMutOrBox<dyn MyTrait> =
        RefMutOrBox::from(&mut implementor as &mut dyn MyTrait);
    let _my_trait: &dyn MyTrait = implementor.deref();
    let _my_trait: &dyn MyTrait = implementor.as_ref();
    let _my_trait: &dyn MyTrait = implementor.borrow();
    let _my_trait: &mut dyn MyTrait = implementor.as_mut();
    let _my_trait: &mut dyn MyTrait = implementor.borrow_mut();
}

//
// Default, Hash, and Display
// PartialEq, Eq, PartialOrd, and Ord
//

trait BeanTrait: Display {
    fn data(&self) -> u8;
}

#[derive(PartialEq, Eq, PartialOrd, Ord, Hash)]
struct Bean {
    data: u8,
}

impl Bean {
    fn new(data: u8) -> Self {
        Self { data }
    }
}

impl BeanTrait for Bean {
    fn data(&self) -> u8 {
        self.data
    }
}

impl PartialEq<dyn BeanTrait> for dyn BeanTrait {
    fn eq(&self, other: &dyn BeanTrait) -> bool {
        self.data().eq(&other.data())
    }
}

impl PartialOrd<dyn BeanTrait> for dyn BeanTrait {
    fn partial_cmp(&self, other: &dyn BeanTrait) -> Option<Ordering> {
        self.data().partial_cmp(&other.data())
    }
}

impl Default for Bean {
    fn default() -> Self {
        Self {
            // Don't generate u8::MAX to avoid overflows when incrementing
            data: fastrand::u8(..u8::MAX),
        }
    }
}

impl Display for Bean {
    fn fmt(&self, f: &mut Formatter<'_>) -> std::fmt::Result {
        f.write_str(&format!("Bean: {:?}", self.data))
    }
}

#[test]
fn ref_or_owned_std_traits() {
    let generated: RefOrOwned<Bean> = RefOrOwned::default();
    let incremented = RefOrOwned::Owned(Bean::new(generated.data + 1));

    let _fmt = format!("Is: {}", &generated);
    let _hash = eval_hash(&generated);

    assert!(eval_partial_eq(&generated, &generated));
    assert!(eval_eq(&generated, &generated));
    assert!(!eval_partial_eq(&generated, &incremented));
    assert!(!eval_eq(&generated, &incremented));

    assert_eq!(Ordering::Equal, eval_partial_ord(&generated, &generated));
    assert_eq!(Ordering::Equal, generated.cmp(&generated));
    assert_eq!(Ordering::Less, eval_partial_ord(&generated, &incremented));
    assert_eq!(Ordering::Less, generated.cmp(&incremented));
    assert_eq!(Ordering::Greater, eval_partial_ord(&incremented, &generated));
    assert_eq!(Ordering::Greater, incremented.cmp(&generated));
}

#[test]
fn ref_mut_or_owned_std_traits() {
    let generated: RefMutOrOwned<Bean> = RefMutOrOwned::default();
    let incremented = RefMutOrOwned::Owned(Bean::new(generated.data + 1));

    let _fmt = format!("Is: {}", &generated);
    let _hash = eval_hash(&generated);

    assert!(eval_partial_eq(&generated, &generated));
    assert!(eval_eq(&generated, &generated));
    assert!(!eval_partial_eq(&generated, &incremented));
    assert!(!eval_eq(&generated, &incremented));

    assert_eq!(Ordering::Equal, eval_partial_ord(&generated, &generated));
    assert_eq!(Ordering::Equal, generated.cmp(&generated));
    assert_eq!(Ordering::Less, eval_partial_ord(&generated, &incremented));
    assert_eq!(Ordering::Less, generated.cmp(&incremented));
    assert_eq!(Ordering::Greater, eval_partial_ord(&incremented, &generated));
    assert_eq!(Ordering::Greater, incremented.cmp(&generated));
}

#[test]
fn ref_or_box_std_traits() {
    let generated: Box<dyn BeanTrait> = Box::new(Bean::default());
    let generated = RefOrBox::Owned(generated);
    let incremented: Box<dyn BeanTrait> = Box::new(Bean::new(generated.data() + 1));
    let incremented = RefOrBox::Owned(incremented);

    let _fmt = format!("Is: {}", &generated);

    assert!(eval_partial_eq(&generated, &generated));
    assert!(!eval_partial_eq(&generated, &incremented));

    assert_eq!(Ordering::Equal, eval_partial_ord(&generated, &generated));
    assert_eq!(Ordering::Less, eval_partial_ord(&generated, &incremented));
    assert_eq!(Ordering::Greater, eval_partial_ord(&incremented, &generated));
}

#[test]
fn ref_mut_or_box_std_traits() {
    let generated: Box<dyn BeanTrait> = Box::new(Bean::default());
    let generated = RefMutOrBox::Owned(generated);
    let incremented: Box<dyn BeanTrait> = Box::new(Bean::new(generated.data() + 1));
    let incremented = RefMutOrBox::Owned(incremented);

    let _fmt = format!("Is: {}", &generated);

    assert!(eval_partial_eq(&generated, &generated));
    assert!(!eval_partial_eq(&generated, &incremented));

    assert_eq!(Ordering::Equal, eval_partial_ord(&generated, &generated));
    assert_eq!(Ordering::Less, eval_partial_ord(&generated, &incremented));
    assert_eq!(Ordering::Greater, eval_partial_ord(&incremented, &generated));
}
