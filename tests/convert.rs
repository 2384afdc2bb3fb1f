use ownit::Ownit;
use std::borrow::Cow;
use std::path::PathBuf;
use std::rc::Rc;
use std::time::Duration;

struct Foo<'a, 'b, T: Clone> {
    view_a: Cow<'a, str>,
    view_b: Cow<'b, T>,
    n: usize,
    owned: String,
}

impl<T: Clone + 'static> Ownit for Foo<'_, '_, T> {
    type OwnedSelf = Foo<'static, 'static, T>;

    fn into_static(self) -> Self::OwnedSelf {
        Foo {
            view_a: self.view_a.into_static(),
            view_b: self.view_b.into_static(),
            n: self.n.into_static(),
            owned: self.owned.into_static(),
        }
    }
}

struct Bar<'a, 'b, T: Clone>(Cow<'a, str>, Cow<'b, T>, usize, String);

impl<T: Clone + 'static> Ownit for Bar<'_, '_, T> {
    type OwnedSelf = Bar<'static, 'static, T>;

    fn into_static(self) -> Self::OwnedSelf {
        Bar(
            self.0.into_static(),
            self.1.into_static(),
            self.2.into_static(),
            self.3.into_static(),
        )
    }
}

#[derive(Debug, PartialEq)]
struct Unit;

impl Ownit for Unit {
    type OwnedSelf = Unit;

    fn into_static(self) -> Self::OwnedSelf {
        Unit
    }
}

#[derive(Debug, PartialEq)]
enum Enumeration<'a, 'b, T: Clone> {
    A(String),
    B,
    C(Cow<'a, str>, Cow<'b, T>),
    D { foo: Cow<'a, str>, bar: Cow<'b, T> },
}

impl<T: Clone + 'static> Ownit for Enumeration<'_, '_, T> {
    type OwnedSelf = Enumeration<'static, 'static, T>;

    fn into_static(self) -> Self::OwnedSelf {
        match self {
            Self::A(x0) => Self::OwnedSelf::A(x0.into_static()),
            Self::B => Self::OwnedSelf::B,
            Self::C(x0, x1) => Self::OwnedSelf::C(x0.into_static(), x1.into_static()),
            Self::D { foo, bar } => Self::OwnedSelf::D {
                foo: foo.into_static(),
                bar: bar.into_static(),
            },
        }
    }
}

fn is_owned<T: ?Sized + ToOwned>(c: &Cow<'_, T>) -> bool {
    matches!(c, Cow::Owned(_))
}

#[test]
fn identity_on_base_kinds() {
    assert_eq!(7u8.into_static(), 7u8);
    assert_eq!(u64::MAX.into_static(), u64::MAX);
    assert_eq!(i128::MIN.into_static(), i128::MIN);
    assert_eq!((-3isize).into_static(), -3isize);
    assert_eq!(true.into_static(), true);
    assert_eq!('z'.into_static(), 'z');
    assert_eq!(String::from("text").into_static(), "text");
    assert_eq!(PathBuf::from("/a/b").into_static(), PathBuf::from("/a/b"));
    assert_eq!(Duration::from_millis(1500).into_static(), Duration::from_millis(1500));
    assert_eq!(().into_static(), ());
    let now = std::time::Instant::now();
    assert_eq!(now.into_static(), now);
    let epoch = std::time::SystemTime::UNIX_EPOCH;
    assert_eq!(epoch.into_static(), epoch);
    let a = std::sync::atomic::AtomicU32::new(9).into_static();
    assert_eq!(a.load(std::sync::atomic::Ordering::SeqCst), 9);
}

#[test]
fn cow_is_materialized() {
    let text = String::from("borrowed");
    let c: Cow<'_, str> = Cow::Borrowed(&text);
    let o: Cow<'static, str> = c.into_static();
    assert!(is_owned(&o));
    assert_eq!(o, "borrowed");
    let c2: Cow<'_, str> = Cow::Owned(String::from("own"));
    let o2 = c2.into_static();
    assert!(is_owned(&o2));
    assert_eq!(o2, "own");
}

#[test]
fn sequence_is_converted_in_order() {
    let words = vec![String::from("x"), String::from("y")];
    let v: Vec<Cow<'_, str>> = vec![Cow::Borrowed(&words[1]), Cow::Borrowed(&words[0])];
    let o = v.into_static();
    assert_eq!(o.len(), 2);
    assert_eq!(o[0], "y");
    assert_eq!(o[1], "x");
    assert!(o.iter().all(is_owned));
    let empty: Vec<u8> = Vec::new();
    assert!(empty.into_static().is_empty());
}

#[test]
fn array_keeps_size() {
    let s = String::from("q");
    let a: [Cow<'_, str>; 3] = [Cow::Borrowed(&s), Cow::Borrowed("r"), Cow::Owned(String::from("t"))];
    let o = a.into_static();
    assert_eq!(o.len(), 3);
    assert_eq!(o[0], "q");
    assert_eq!(o[1], "r");
    assert_eq!(o[2], "t");
    assert!(o.iter().all(is_owned));
}

#[test]
fn option_and_result_keep_their_arm() {
    let s = String::from("v");
    let some: Option<Cow<'_, str>> = Some(Cow::Borrowed(&s));
    assert_eq!(some.into_static(), Some(Cow::Owned(String::from("v"))));
    let none: Option<Cow<'_, str>> = None;
    assert_eq!(none.into_static(), None);
    let ok: Result<Cow<'_, str>, u8> = Ok(Cow::Borrowed(&s));
    assert_eq!(ok.into_static(), Ok(Cow::Owned(String::from("v"))));
    let err: Result<u8, Cow<'_, str>> = Err(Cow::Borrowed(&s));
    assert_eq!(err.into_static(), Err(Cow::Owned(String::from("v"))));
}

#[test]
fn box_payload_is_converted() {
    let s = String::from("boxed");
    let b: Box<Cow<'_, str>> = Box::new(Cow::Borrowed(&s));
    let o = b.into_static();
    assert!(is_owned(&o));
    assert_eq!(*o, "boxed");
}

#[test]
fn rc_sole_owner_and_shared() {
    let sole = Rc::new(String::from("only"));
    assert_eq!(*sole.into_static(), "only");
    let shared = Rc::new(String::from("both"));
    let other = Rc::clone(&shared);
    let o = shared.into_static();
    assert_eq!(*o, "both");
    assert_eq!(*other, "both");
    assert_eq!(Rc::strong_count(&other), 1);
}

#[test]
fn named_struct_materializes_views() {
    let text = String::from("a");
    let number = 5u32;
    let foo: Foo<'_, '_, u32> = Foo {
        view_a: Cow::Borrowed(&text),
        view_b: Cow::Borrowed(&number),
        n: 42,
        owned: String::from("kept"),
    };
    let o: Foo<'static, 'static, u32> = foo.into_static();
    assert!(is_owned(&o.view_a));
    assert!(is_owned(&o.view_b));
    assert_eq!(o.view_a, "a");
    assert_eq!(*o.view_b, 5);
    assert_eq!(o.n, 42);
    assert_eq!(o.owned, "kept");
}

#[test]
fn tuple_struct_materializes_views() {
    let text = String::from("b");
    let number = 6u32;
    let bar: Bar<'_, '_, u32> = Bar(Cow::Borrowed(&text), Cow::Borrowed(&number), 7, String::from("s"));
    let o: Bar<'static, 'static, u32> = bar.into_static();
    assert!(is_owned(&o.0));
    assert!(is_owned(&o.1));
    assert_eq!(o.0, "b");
    assert_eq!(*o.1, 6);
    assert_eq!(o.2, 7);
    assert_eq!(o.3, "s");
}

#[test]
fn unit_struct_is_itself() {
    assert_eq!(Unit.into_static(), Unit);
}

#[test]
fn enum_keeps_variant_and_converts_payload() {
    let text = String::from("c");
    let number = 8u32;
    let a: Enumeration<'_, '_, u32> = Enumeration::A(String::from("plain"));
    assert_eq!(a.into_static(), Enumeration::A(String::from("plain")));
    let b: Enumeration<'_, '_, u32> = Enumeration::B;
    assert_eq!(b.into_static(), Enumeration::B);
    let c: Enumeration<'_, '_, u32> = Enumeration::C(Cow::Borrowed(&text), Cow::Borrowed(&number));
    match c.into_static() {
        Enumeration::C(x, y) => {
            assert!(is_owned(&x) && is_owned(&y));
            assert_eq!(x, "c");
            assert_eq!(*y, 8);
        }
        _ => panic!("variant changed"),
    }
    let d: Enumeration<'_, '_, u32> = Enumeration::D { foo: Cow::Borrowed(&text), bar: Cow::Borrowed(&number) };
    match d.into_static() {
        Enumeration::D { foo, bar } => {
            assert!(is_owned(&foo) && is_owned(&bar));
            assert_eq!(foo, "c");
            assert_eq!(*bar, 8);
        }
        _ => panic!("variant changed"),
    }
}
