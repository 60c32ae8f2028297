use cosmosis::Complex;
use cosmosis::DATABLOCK_STATUS;
use cosmosis::DataBlock;
use cosmosis::Double;
use cosmosis::datablock_type_t;

fn d(x: f64) -> Double {
    Double { bits: x.to_bits() }
}

fn c(re: f64, im: f64) -> Complex {
    Complex { re: d(re), im: d(im) }
}

#[test]
fn roundtrip_int() {
    let mut db = DataBlock::new();
    assert!(db.put("s", "n", &-17i32).is_ok());
    assert_eq!(db.get::<i32>("s", "n").unwrap(), -17);
}

#[test]
fn roundtrip_bool() {
    let mut db = DataBlock::new();
    assert!(db.put("s", "t", &true).is_ok());
    assert!(db.put("s", "f", &false).is_ok());
    assert!(db.get::<bool>("s", "t").unwrap());
    assert!(!db.get::<bool>("s", "f").unwrap());
}

#[test]
fn roundtrip_double() {
    let mut db = DataBlock::new();
    assert!(db.put("s", "n", &d(2.5)).is_ok());
    assert_eq!(f64::from_bits(db.get::<Double>("s", "n").unwrap().bits), 2.5);
}

#[test]
fn roundtrip_complex() {
    let mut db = DataBlock::new();
    assert!(db.put("s", "n", &c(1.5, -0.25)).is_ok());
    let got = db.get::<Complex>("s", "n").unwrap();
    assert_eq!(f64::from_bits(got.re.bits), 1.5);
    assert_eq!(f64::from_bits(got.im.bits), -0.25);
}

#[test]
fn roundtrip_string() {
    let mut db = DataBlock::new();
    assert!(db.put("s", "n", &String::from("hello world")).is_ok());
    assert_eq!(db.get::<String>("s", "n").unwrap(), "hello world");
}

#[test]
fn roundtrip_int_array() {
    let mut db = DataBlock::new();
    assert!(db.put("s", "n", &vec![3i32, 1, 4, 1, 5]).is_ok());
    assert_eq!(db.get::<Vec<i32>>("s", "n").unwrap(), vec![3, 1, 4, 1, 5]);
}

#[test]
fn roundtrip_double_array() {
    let mut db = DataBlock::new();
    let xs = vec![d(1.0), d(0.5), d(-3.25)];
    assert!(db.put("s", "n", &xs).is_ok());
    assert_eq!(db.get::<Vec<Double>>("s", "n").unwrap(), xs);
}

#[test]
fn roundtrip_complex_array() {
    let mut db = DataBlock::new();
    let xs = vec![c(1.0, 2.0), c(-0.5, 0.0)];
    assert!(db.put("s", "n", &xs).is_ok());
    assert_eq!(db.get::<Vec<Complex>>("s", "n").unwrap(), xs);
}

#[test]
fn empty_array_distinct_from_absent() {
    let mut db = DataBlock::new();
    assert!(db.put("s", "empty", &Vec::<i32>::new()).is_ok());
    let got = db.get::<Vec<i32>>("s", "empty").unwrap();
    assert!(got.is_empty());
    assert_eq!(
        db.get::<Vec<i32>>("s", "missing").unwrap_err().kind,
        DATABLOCK_STATUS::DBS_NAME_NOT_FOUND
    );
}

#[test]
fn never_written_is_absent() {
    let db = DataBlock::new();
    assert_eq!(db.get::<i32>("s", "n").unwrap_err().kind, DATABLOCK_STATUS::DBS_NAME_NOT_FOUND);
    assert!(!db.contains("s", "n"));
    assert!(!db.contains_section("s"));
    assert!(db.get_type("s", "n").is_none());
}

#[test]
fn insert_absent_behaves_like_put() {
    let mut db = DataBlock::new();
    let prev = db.insert("s", "n", &5i32).unwrap();
    assert!(prev.is_none());
    assert_eq!(db.get::<i32>("s", "n").unwrap(), 5);
}

#[test]
fn insert_present_returns_old_value() {
    let mut db = DataBlock::new();
    assert!(db.put("s", "n", &5i32).is_ok());
    let prev = db.insert("s", "n", &8i32).unwrap();
    assert_eq!(prev, Some(5));
    assert_eq!(db.get::<i32>("s", "n").unwrap(), 8);
}

#[test]
fn insert_wrong_type_fails_and_preserves() {
    let mut db = DataBlock::new();
    assert!(db.put("s", "n", &5i32).is_ok());
    let err = db.insert("s", "n", &d(1.0)).unwrap_err();
    assert_eq!(err.kind, DATABLOCK_STATUS::DBS_WRONG_VALUE_TYPE);
    assert_eq!(db.get::<i32>("s", "n").unwrap(), 5);
}

#[test]
fn put_existing_fails_and_preserves() {
    let mut db = DataBlock::new();
    assert!(db.put("s", "n", &5i32).is_ok());
    let err = db.put("s", "n", &6i32).unwrap_err();
    assert_eq!(err.kind, DATABLOCK_STATUS::DBS_NAME_ALREADY_EXISTS);
    let err2 = db.put("s", "n", &String::from("text")).unwrap_err();
    assert_eq!(err2.kind, DATABLOCK_STATUS::DBS_NAME_ALREADY_EXISTS);
    assert_eq!(db.get::<i32>("s", "n").unwrap(), 5);
}

#[test]
fn clone_is_a_deep_copy() {
    let mut db = DataBlock::new();
    assert!(db.put("s", "n", &1i32).is_ok());
    assert!(db.put("s", "xs", &vec![1i32, 2, 3]).is_ok());
    let mut copy = db.clone();

    assert_eq!(copy.insert("s", "n", &2i32).unwrap(), Some(1));
    assert!(copy.put("s", "extra", &9i32).is_ok());
    assert_eq!(copy.insert("s", "xs", &vec![7i32]).unwrap(), Some(vec![1, 2, 3]));

    assert_eq!(db.get::<i32>("s", "n").unwrap(), 1);
    assert_eq!(db.get::<Vec<i32>>("s", "xs").unwrap(), vec![1, 2, 3]);
    assert!(!db.contains("s", "extra"));
    assert_eq!(copy.get::<i32>("s", "n").unwrap(), 2);
}

#[test]
fn contains_section_tracks_sections() {
    let mut db = DataBlock::new();
    assert!(!db.contains_section("a"));
    assert!(db.put("a", "n", &1i32).is_ok());
    assert!(db.contains_section("a"));
    assert!(!db.contains_section("b"));
    assert!(!db.contains_section("n"));
}

#[test]
fn get_type_reports_each_tag() {
    let mut db = DataBlock::new();
    assert!(db.put("s", "i", &1i32).is_ok());
    assert!(db.put("s", "b", &true).is_ok());
    assert!(db.put("s", "dd", &d(1.0)).is_ok());
    assert!(db.put("s", "cc", &c(1.0, 2.0)).is_ok());
    assert!(db.put("s", "txt", &String::from("x")).is_ok());
    assert!(db.put("s", "iv", &vec![1i32]).is_ok());
    assert!(db.put("s", "dv", &vec![d(1.0)]).is_ok());
    assert!(db.put("s", "cv", &vec![c(1.0, 2.0)]).is_ok());

    assert_eq!(db.get_type("s", "i").unwrap(), datablock_type_t::DBT_INT);
    assert_eq!(db.get_type("s", "b").unwrap(), datablock_type_t::DBT_BOOL);
    assert_eq!(db.get_type("s", "dd").unwrap(), datablock_type_t::DBT_DOUBLE);
    assert_eq!(db.get_type("s", "cc").unwrap(), datablock_type_t::DBT_COMPLEX);
    assert_eq!(db.get_type("s", "txt").unwrap(), datablock_type_t::DBT_STRING);
    assert_eq!(db.get_type("s", "iv").unwrap(), datablock_type_t::DBT_INT1D);
    assert_eq!(db.get_type("s", "dv").unwrap(), datablock_type_t::DBT_DOUBLE1D);
    assert_eq!(db.get_type("s", "cv").unwrap(), datablock_type_t::DBT_COMPLEX1D);
}

#[test]
fn is_type_checks_tag_and_presence() {
    let mut db = DataBlock::new();
    assert!(db.put("s", "n", &1i32).is_ok());
    assert!(db.is_type::<i32>("s", "n"));
    assert!(!db.is_type::<Double>("s", "n"));
    assert!(!db.is_type::<i32>("s", "missing"));
}

#[test]
fn sections_namespace_names() {
    let mut db = DataBlock::new();
    assert!(db.put("a", "n", &1i32).is_ok());
    assert!(db.put("b", "n", &2i32).is_ok());
    assert_eq!(db.get::<i32>("a", "n").unwrap(), 1);
    assert_eq!(db.get::<i32>("b", "n").unwrap(), 2);
}

#[test]
fn default_is_empty() {
    let db = DataBlock::default();
    assert!(!db.contains("s", "n"));
}
