use cosmosis::DATABLOCK_STATUS;
use cosmosis::DataBlock;
use cosmosis::Double;
use cosmosis::datablock_type_t;

fn d(x: f64) -> Double {
    Double { bits: x.to_bits() }
}

#[test]
fn test_put_get() {
    let mut db = DataBlock::new();
    let numbers: Vec<(&str, i32)> = vec![("one", 1), ("two", 2), ("three", 3)];

    for (name, val) in numbers.iter() {
        assert!(db.put("my_section", name, val).is_ok());
        assert!(db.contains("my_section", name));
    }

    for (name, val) in numbers.iter() {
        assert!(db.contains("my_section", name));
        assert_eq!(db.get::<i32>("my_section", name).expect("should be present"), *val);
        assert_eq!(
            db.get::<Double>("my_section", name).unwrap_err().kind,
            DATABLOCK_STATUS::DBS_WRONG_VALUE_TYPE
        );
    }

    for name in ["four", "five", "six", "seven", "eight"].iter() {
        assert_eq!(
            db.get::<i32>("my_section", name).unwrap_err().kind,
            DATABLOCK_STATUS::DBS_NAME_NOT_FOUND
        );
        assert!(!db.contains("my_section", name));
    }
}

#[test]
fn test_wrong_type() {
    let mut db = DataBlock::new();
    let numbers: Vec<(&str, f64)> = vec![("hello", 1.0), ("there", 3.2), ("pal", -1.324)];

    for (name, val) in numbers.iter() {
        assert!(db.put("my_section", name, &d(*val)).is_ok())
    }

    for (name, _) in numbers.iter() {
        assert_eq!(
            db.get::<i32>("my_section", name).unwrap_err().kind,
            DATABLOCK_STATUS::DBS_WRONG_VALUE_TYPE
        );
        assert_eq!(db.get_type("my_section", name).unwrap(), datablock_type_t::DBT_DOUBLE);
    }

    for name in ["four", "five", "six", "seven", "eight"].iter() {
        assert!(db.get_type("my_section", name).is_none());
    }
}

#[test]
fn test_replace() {
    let mut db = DataBlock::new();
    let numbers: Vec<(&str, i32)> = vec![("one", 1), ("two", 2), ("three", 3)];

    for (name, val) in numbers.iter() {
        assert!(db.put("my_section", name, val).is_ok());
        assert!(db.contains("my_section", name));
    }

    for (name, val) in numbers.iter() {
        let inserted = db.insert("my_section", name, &(*val + 1)).unwrap();
        assert!(inserted.is_some());
        assert_eq!(inserted.unwrap(), *val);
        assert_eq!(db.get::<i32>("my_section", name).unwrap(), *val + 1);
    }
}

#[test]
fn test_put_get_vec() {
    let mut db = DataBlock::new();
    let data: Vec<(&str, Vec<f64>)> = vec![
        ("one", vec![1.0, 2.0, 3.0]),
        ("two", vec![0.0, 2.0, 4.0]),
        ("archnemesis", vec![5.0, 6.0, 7.0]),
    ];

    for (name, val) in data.iter() {
        let stored: Vec<Double> = val.iter().map(|x| d(*x)).collect();
        assert!(db.put("my_section", name, &stored).is_ok());
        assert!(db.contains("my_section", name));
    }

    for (name, val) in data.iter() {
        assert!(db.contains("my_section", name));
        let got = db.get::<Vec<Double>>("my_section", name).expect("should be present");
        let back: Vec<f64> = got.iter().map(|x| f64::from_bits(x.bits)).collect();
        assert_eq!(back, &val[..]);
        assert_eq!(
            db.get::<Double>("my_section", name).unwrap_err().kind,
            DATABLOCK_STATUS::DBS_WRONG_VALUE_TYPE
        );
    }
}

#[test]
fn test_put_get_string() {
    let mut db = DataBlock::new();
    let data: Vec<(&str, &str)> = vec![
        ("a", "artichoke"),
        ("b", "bear"),
        ("c", "caterpillar"),
        ("d", "dandelion"),
    ];

    for (name, val) in data.iter() {
        assert!(db.put("my_section", name, &String::from(*val)).is_ok());
        assert!(db.contains("my_section", name));
    }

    for (name, val) in data.iter() {
        assert!(db.contains("my_section", name));
        assert_eq!(db.get::<String>("my_section", name).expect("should be present"), *val);
        assert_eq!(
            db.get::<Double>("my_section", name).unwrap_err().kind,
            DATABLOCK_STATUS::DBS_WRONG_VALUE_TYPE
        );
    }
}
