use cosmosis::CosmosisDataType;
use cosmosis::CosmosisError;
use cosmosis::DATABLOCK_STATUS;
use cosmosis::DataBlock;
use cosmosis::Double;
use cosmosis::datablock_type_t;

#[test]
fn error_new_has_no_reason() {
    let e = CosmosisError::new(DATABLOCK_STATUS::DBS_LOGIC_ERROR);
    assert_eq!(e.kind, DATABLOCK_STATUS::DBS_LOGIC_ERROR);
    assert!(e.reason.is_none());
}

#[test]
fn error_with_reason_keeps_kind() {
    let e = CosmosisError::new(DATABLOCK_STATUS::DBS_VALUE_NULL)
        .with_reason(String::from("a detail"));
    assert_eq!(e.kind, DATABLOCK_STATUS::DBS_VALUE_NULL);
    assert_eq!(e.reason, Some(String::from("a detail")));
}

#[test]
fn error_from_status() {
    let e = CosmosisError::from(DATABLOCK_STATUS::DBS_MEMORY_ALLOC_FAILURE);
    assert_eq!(e.kind, DATABLOCK_STATUS::DBS_MEMORY_ALLOC_FAILURE);
    assert!(e.reason.is_none());
}

#[test]
fn status_description_names_the_status() {
    assert_eq!(DATABLOCK_STATUS::DBS_SUCCESS.description(), "DBS_SUCCESS");
    assert_eq!(DATABLOCK_STATUS::DBS_NAME_NOT_FOUND.description(), "DBS_NAME_NOT_FOUND");
    assert_eq!(DATABLOCK_STATUS::DBS_WRONG_VALUE_TYPE.description(), "DBS_WRONG_VALUE_TYPE");
    assert_eq!(DATABLOCK_STATUS::DBS_USED_DEFAULT.description(), "DBS_USED_DEFAULT");
}

#[test]
fn error_description_prefers_reason() {
    let plain = CosmosisError::new(DATABLOCK_STATUS::DBS_SECTION_NULL);
    assert_eq!(plain.description(), "DBS_SECTION_NULL");
    let detailed = plain.with_reason(String::from("section pointer was null"));
    assert_eq!(detailed.description(), "section pointer was null");
}

#[test]
fn error_message_renders_each_form() {
    let success = CosmosisError::new(DATABLOCK_STATUS::DBS_SUCCESS);
    assert_eq!(success.message(), "CosmosisError(success)");
    let bare = CosmosisError::new(DATABLOCK_STATUS::DBS_NAME_NOT_FOUND);
    assert_eq!(bare.message(), "CosmosisError(error: DBS_NAME_NOT_FOUND)");
    let detailed = CosmosisError::new(DATABLOCK_STATUS::DBS_NAME_NOT_FOUND)
        .with_reason(String::from("nothing there"));
    assert_eq!(
        detailed.message(),
        "CosmosisError(error: DBS_NAME_NOT_FOUND, reason: nothing there)"
    );
}

#[test]
fn failed_get_names_the_location() {
    let db = DataBlock::new();
    let err = db.get::<i32>("my_section", "nope").unwrap_err();
    assert_eq!(err.kind, DATABLOCK_STATUS::DBS_NAME_NOT_FOUND);
    assert_eq!(
        err.reason,
        Some(String::from("Could not get value at (section, name): (my_section, nope)"))
    );
}

#[test]
fn failed_wrong_type_get_names_the_location() {
    let mut db = DataBlock::new();
    assert!(db.put("sec", "n", &1i32).is_ok());
    let err = db.get::<Double>("sec", "n").unwrap_err();
    assert_eq!(err.kind, DATABLOCK_STATUS::DBS_WRONG_VALUE_TYPE);
    assert_eq!(
        err.reason,
        Some(String::from("Could not get value at (section, name): (sec, n)"))
    );
}

#[test]
fn failed_vector_get_names_the_location() {
    let db = DataBlock::new();
    let err = db.get::<Vec<i32>>("sec", "xs").unwrap_err();
    assert_eq!(err.kind, DATABLOCK_STATUS::DBS_NAME_NOT_FOUND);
    assert_eq!(
        err.reason,
        Some(String::from("Could not get value at (section, name): (sec, xs)"))
    );
}

#[test]
fn failed_insert_names_the_location() {
    let mut db = DataBlock::new();
    assert!(db.put("sec", "n", &1i32).is_ok());
    let err = db.insert("sec", "n", &Double { bits: 0 }).unwrap_err();
    assert_eq!(err.kind, DATABLOCK_STATUS::DBS_WRONG_VALUE_TYPE);
    assert_eq!(
        err.reason,
        Some(String::from("Could not get value at (section, name): (sec, n)"))
    );
}

#[test]
fn failed_put_names_the_location() {
    let mut db = DataBlock::new();
    assert!(db.put("sec", "n", &1i32).is_ok());
    let err = db.put("sec", "n", &2i32).unwrap_err();
    assert_eq!(err.kind, DATABLOCK_STATUS::DBS_NAME_ALREADY_EXISTS);
    assert_eq!(
        err.reason,
        Some(String::from("Could not put value at (section, name): (sec, n)"))
    );
}

#[test]
fn cosmosis_type_reports_each_tag() {
    assert_eq!(<i32 as CosmosisDataType>::cosmosis_type(), datablock_type_t::DBT_INT);
    assert_eq!(<bool as CosmosisDataType>::cosmosis_type(), datablock_type_t::DBT_BOOL);
    assert_eq!(<Double as CosmosisDataType>::cosmosis_type(), datablock_type_t::DBT_DOUBLE);
    assert_eq!(
        <cosmosis::Complex as CosmosisDataType>::cosmosis_type(),
        datablock_type_t::DBT_COMPLEX
    );
    assert_eq!(<String as CosmosisDataType>::cosmosis_type(), datablock_type_t::DBT_STRING);
    assert_eq!(<Vec<i32> as CosmosisDataType>::cosmosis_type(), datablock_type_t::DBT_INT1D);
    assert_eq!(
        <Vec<Double> as CosmosisDataType>::cosmosis_type(),
        datablock_type_t::DBT_DOUBLE1D
    );
    assert_eq!(
        <Vec<cosmosis::Complex> as CosmosisDataType>::cosmosis_type(),
        datablock_type_t::DBT_COMPLEX1D
    );
}
