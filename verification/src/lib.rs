//! Typed storage over a two-level (section, name) namespace.
//!
//! A [`DataBlock`] stores scalar values (integer, boolean, double, complex),
//! one-dimensional arrays of the numeric types, and text, each entry carrying
//! a runtime type tag.  Reads are type-checked against that tag: a read at
//! the wrong type reports `DBS_WRONG_VALUE_TYPE` rather than coercing, a
//! read of an absent entry reports `DBS_NAME_NOT_FOUND`, and `put` refuses
//! to overwrite an existing entry while `insert` replaces and yields the
//! previous value.  The generic `get` / `put` / `insert` calls dispatch at
//! compile time through the capability traits in [`marshal`], and every
//! operation's contract is stated over the block's view as a finite map.
//! The laws those contracts entail — round trips, type safety, the
//! put/insert relationship — are proved once in [`laws`].

pub mod block;
pub mod laws;
pub mod marshal;
pub mod status;
pub mod value;

pub use block::DataBlock;
pub use marshal::CosmosisDataType;
pub use marshal::CosmosisGettable;
pub use marshal::CosmosisStorable;
pub use status::CosmosisError;
pub use status::CosmosisResult;
pub use status::DATABLOCK_STATUS;
pub use value::Complex;
pub use value::Double;
pub use value::ValueView;
pub use value::datablock_type_t;
