//! The two-way mapping between a small enum and its raw values, written out
//! as a pair of `match`es, the way the level header's enums map their codes.

use smb1_level::header::LevelTime;

#[derive(Debug, PartialEq, Eq)]
enum MyNumberEnum {
    Foo,
    Bar,
}

impl MyNumberEnum {
    fn new(val: u32) -> Self {
        match val {
            47 => MyNumberEnum::Foo,
            78 => MyNumberEnum::Bar,
            _ => panic!("invalid MyNumberEnum val: {:?}", val),
        }
    }

    fn value(&self) -> u32 {
        match self {
            MyNumberEnum::Foo => 47,
            MyNumberEnum::Bar => 78,
        }
    }
}

#[derive(Debug, PartialEq, Eq)]
enum MyStrEnum {
    Foo,
    Bar,
}

impl MyStrEnum {
    fn new(val: &str) -> Self {
        match val {
            "foo" => MyStrEnum::Foo,
            "bar" => MyStrEnum::Bar,
            _ => panic!("invalid MyStrEnum val: {:?}", val),
        }
    }

    fn value(&self) -> &'static str {
        match self {
            MyStrEnum::Foo => "foo",
            MyStrEnum::Bar => "bar",
        }
    }
}

#[test]
fn test_num_1() {
    assert_eq!(MyNumberEnum::Foo.value(), 47);
    assert_eq!(MyNumberEnum::Bar.value(), 78);
}

#[test]
fn test_num_2() {
    assert_eq!(MyNumberEnum::new(47), MyNumberEnum::Foo);
    assert_eq!(MyNumberEnum::new(78), MyNumberEnum::Bar);
}

#[test]
fn test_str_1() {
    assert_eq!(MyStrEnum::Foo.value(), "foo");
    assert_eq!(MyStrEnum::Bar.value(), "bar");
}

#[test]
fn test_str_2() {
    assert_eq!(MyStrEnum::new("foo"), MyStrEnum::Foo);
    assert_eq!(MyStrEnum::new("bar"), MyStrEnum::Bar);
}

#[test]
fn level_time_maps_both_ways() {
    assert_eq!(LevelTime::T300.value(), 2);
    assert_eq!(LevelTime::new(2), LevelTime::T300);
    assert_eq!(LevelTime::new(LevelTime::T200.value()), LevelTime::T200);
}
