//! Typed marshalling: the capability traits that let one `get` / `put` /
//! `insert` call site resolve, at compile time, to the right per-type
//! storage wiring.
//!
//! [`CosmosisDataType`] is implemented by each concrete stored
//! representation (scalars, one-dimensional arrays, text).
//! [`CosmosisGettable`] marks types that can be read back from a block and
//! [`CosmosisStorable`] marks types that can be written; every data type is
//! both, through the blanket implementations.  Each operation's contract is
//! phrased over the block's map view, through the `*_post` predicates.

use vstd::prelude::*;
use vstd::string::StringExecFns;
use crate::block::DataBlock;
use crate::status::CosmosisError;
use crate::status::CosmosisResult;
use crate::status::DATABLOCK_STATUS;
use crate::value::Complex;
use crate::value::Double;
use crate::value::Value;
use crate::value::ValueView;
use crate::value::datablock_type_t;
use crate::value::tag_of;

verus! {

/// The message carried by every failed read: the operation and the
/// (section, name) pair it was asked about.
pub open spec fn get_reason(s: Seq<char>, n: Seq<char>) -> Seq<char> {
    "Could not get value at (section, name): ("@ + s + ", "@ + n + ")"@
}

/// The message carried by every failed first write.
pub open spec fn put_reason(s: Seq<char>, n: Seq<char>) -> Seq<char> {
    "Could not put value at (section, name): ("@ + s + ", "@ + n + ")"@
}

/// What a read at the given tag reports on a block with map `m`: the stored
/// value exactly when the pair is present with that tag, `DBS_NAME_NOT_FOUND`
/// exactly when the pair is absent, and `DBS_WRONG_VALUE_TYPE` exactly when
/// it is present under another tag.  Every failure carries the message
/// naming the operation and the pair.
pub open spec fn read_post(
    m: Map<(Seq<char>, Seq<char>), ValueView>,
    s: Seq<char>,
    n: Seq<char>,
    tag: datablock_type_t,
    r: Result<ValueView, CosmosisError>,
) -> bool {
    match r {
        Ok(v) => m.contains_key((s, n)) && m[(s, n)] == v && tag_of(v) == tag,
        Err(e) => e.spec_reason() == Some(get_reason(s, n)) && match e.kind {
            DATABLOCK_STATUS::DBS_NAME_NOT_FOUND => !m.contains_key((s, n)),
            DATABLOCK_STATUS::DBS_WRONG_VALUE_TYPE => m.contains_key((s, n)) && tag_of(m[(s, n)])
                != tag,
            _ => false,
        },
    }
}

/// What a first write of `v` does: binds the pair to `v` exactly when the
/// pair was free, and reports `DBS_NAME_ALREADY_EXISTS`, changing nothing,
/// exactly when any value was already there.  The failure carries the
/// message naming the operation and the pair.
pub open spec fn write_post(
    old_m: Map<(Seq<char>, Seq<char>), ValueView>,
    new_m: Map<(Seq<char>, Seq<char>), ValueView>,
    s: Seq<char>,
    n: Seq<char>,
    v: ValueView,
    r: Result<(), CosmosisError>,
) -> bool {
    match r {
        Ok(u) => !old_m.contains_key((s, n)) && new_m == old_m.insert((s, n), v),
        Err(e) => e.kind == DATABLOCK_STATUS::DBS_NAME_ALREADY_EXISTS && e.spec_reason() == Some(
            put_reason(s, n),
        ) && old_m.contains_key((s, n)) && new_m == old_m,
    }
}

/// What replacing with `v` does: yields the previous value and rebinds the
/// pair exactly when the pair was present under `v`'s tag; otherwise changes
/// nothing and reports absence or the tag mismatch.  A replacement fails
/// only in its opening read, so the failure carries that read's message.
pub open spec fn replace_post(
    old_m: Map<(Seq<char>, Seq<char>), ValueView>,
    new_m: Map<(Seq<char>, Seq<char>), ValueView>,
    s: Seq<char>,
    n: Seq<char>,
    v: ValueView,
    r: Result<ValueView, CosmosisError>,
) -> bool {
    match r {
        Ok(prev) => old_m.contains_key((s, n)) && prev == old_m[(s, n)] && tag_of(prev) == tag_of(v)
            && new_m == old_m.insert((s, n), v),
        Err(e) => new_m == old_m && e.spec_reason() == Some(get_reason(s, n)) && match e.kind {
            DATABLOCK_STATUS::DBS_NAME_NOT_FOUND => !old_m.contains_key((s, n)),
            DATABLOCK_STATUS::DBS_WRONG_VALUE_TYPE => old_m.contains_key((s, n)) && tag_of(
                old_m[(s, n)],
            ) != tag_of(v),
            _ => false,
        },
    }
}

/// What `insert` does: a first write when the pair was free (yielding
/// nothing), a replacement yielding the previous value when the pair was
/// present under `v`'s tag, and `DBS_WRONG_VALUE_TYPE`, changing nothing,
/// when it was present under another tag.  The failure comes from the
/// replacement's opening read and carries that read's message.
pub open spec fn insert_post(
    old_m: Map<(Seq<char>, Seq<char>), ValueView>,
    new_m: Map<(Seq<char>, Seq<char>), ValueView>,
    s: Seq<char>,
    n: Seq<char>,
    v: ValueView,
    r: Result<Option<ValueView>, CosmosisError>,
) -> bool {
    match r {
        Ok(prev) => match prev {
            None => !old_m.contains_key((s, n)) && new_m == old_m.insert((s, n), v),
            Some(p) => old_m.contains_key((s, n)) && p == old_m[(s, n)] && tag_of(p) == tag_of(v)
                && new_m == old_m.insert((s, n), v),
        },
        Err(e) => new_m == old_m && e.kind == DATABLOCK_STATUS::DBS_WRONG_VALUE_TYPE
            && e.spec_reason() == Some(get_reason(s, n)) && old_m.contains_key((s, n)) && tag_of(
            old_m[(s, n)],
        ) != tag_of(v),
    }
}

/// The message attached to errors: the failing operation and the
/// (section, name) pair involved.
fn locate_reason(prefix: &str, section: &str, name: &str) -> (s: String)
    ensures
        s@ == prefix@ + section@ + ", "@ + name@ + ")"@,
{
    let mut s: String = prefix.to_owned();
    s.append(section);
    s.append(", ");
    s.append(name);
    s.append(")");
    s
}

/// Types with a concrete stored representation: each knows its own type tag
/// and how to read, write and replace itself directly.
pub trait CosmosisDataType: Sized {
    /// The runtime tag of entries holding this type.
    spec fn tag_spec() -> datablock_type_t;

    /// The stored shape of one value of this type.
    spec fn value_view(self) -> ValueView;

    /// Every stored shape of this type carries this type's tag.
    proof fn value_view_tagged(a: Self)
        ensures
            tag_of(a.value_view()) == Self::tag_spec(),
    ;

    /// The runtime tag of entries holding this type.
    fn cosmosis_type() -> (t: datablock_type_t)
        ensures
            t == Self::tag_spec(),
    ;

    /// Read the value of this type stored under (section, name).
    fn direct_get_datablock(db: &DataBlock, section: &str, name: &str) -> (r: CosmosisResult<
        Self,
    >)
        ensures
            read_post(
                db@,
                section@,
                name@,
                Self::tag_spec(),
                match r {
                    Ok(v) => Ok(v.value_view()),
                    Err(e) => Err(e),
                },
            ),
    ;

    /// Store a value of this type under a (section, name) pair not yet
    /// bound.
    fn direct_put_datablock(db: &mut DataBlock, section: &str, name: &str, obj: &Self) -> (r:
        CosmosisResult<()>)
        ensures
            write_post(
                old(db)@,
                final(db)@,
                section@,
                name@,
                (*obj).value_view(),
                match r {
                    Ok(u) => Ok(u),
                    Err(e) => Err(e),
                },
            ),
    ;

    /// Replace the value of this type stored under (section, name),
    /// yielding the previous one.
    fn direct_replace_datablock(db: &mut DataBlock, section: &str, name: &str, obj: &Self) -> (r:
        CosmosisResult<Self>)
        ensures
            replace_post(
                old(db)@,
                final(db)@,
                section@,
                name@,
                (*obj).value_view(),
                match r {
                    Ok(v) => Ok(v.value_view()),
                    Err(e) => Err(e),
                },
            ),
    ;
}

/// Types that may be retrieved from a block.
pub trait CosmosisGettable: Sized {
    /// The stored representation this type is read through.
    type InternalType: CosmosisDataType;

    /// The stored shape that reading this type consumes.
    spec fn gettable_view(self) -> ValueView;

    /// The stored shape carries the internal representation's tag.
    proof fn gettable_view_tagged(a: Self)
        ensures
            tag_of(a.gettable_view()) == <Self::InternalType as CosmosisDataType>::tag_spec(),
    ;

    /// Read the value of this type stored under (section, name).
    fn get_datablock(db: &DataBlock, section: &str, name: &str) -> (r: CosmosisResult<Self>)
        ensures
            read_post(
                db@,
                section@,
                name@,
                <Self::InternalType as CosmosisDataType>::tag_spec(),
                match r {
                    Ok(v) => Ok(v.gettable_view()),
                    Err(e) => Err(e),
                },
            ),
    ;
}

/// Types that may be written into a block.
pub trait CosmosisStorable: Sized {
    /// The stored representation this type is written through.
    type InternalType: CosmosisDataType;

    /// The owned type that a replacement yields back.
    type ResultType: CosmosisGettable;

    /// The stored shape that writing this value produces.
    spec fn storable_view(&self) -> ValueView;

    /// The stored shape carries the internal representation's tag, and a
    /// replacement reads its previous value through the same tag.
    proof fn storable_view_tagged(&self)
        ensures
            tag_of(self.storable_view()) == <Self::InternalType as CosmosisDataType>::tag_spec(),
            <<Self::ResultType as CosmosisGettable>::InternalType as CosmosisDataType>::tag_spec()
                == <Self::InternalType as CosmosisDataType>::tag_spec(),
    ;

    /// Store this value under a (section, name) pair not yet bound.
    fn put_datablock(db: &mut DataBlock, section: &str, name: &str, obj: &Self) -> (r:
        CosmosisResult<()>)
        ensures
            write_post(
                old(db)@,
                final(db)@,
                section@,
                name@,
                obj.storable_view(),
                match r {
                    Ok(u) => Ok(u),
                    Err(e) => Err(e),
                },
            ),
    ;

    /// Replace the value stored under (section, name) with this one,
    /// yielding the previous value.
    fn replace_datablock(db: &mut DataBlock, section: &str, name: &str, obj: &Self) -> (r:
        CosmosisResult<Self::ResultType>)
        ensures
            replace_post(
                old(db)@,
                final(db)@,
                section@,
                name@,
                obj.storable_view(),
                match r {
                    Ok(v) => Ok(v.gettable_view()),
                    Err(e) => Err(e),
                },
            ),
    ;
}

impl<T: CosmosisDataType> CosmosisGettable for T {
    type InternalType = T;

    open spec fn gettable_view(self) -> ValueView {
        self.value_view()
    }

    proof fn gettable_view_tagged(a: Self) {
        T::value_view_tagged(a);
    }

    fn get_datablock(db: &DataBlock, section: &str, name: &str) -> (r: CosmosisResult<Self>) {
        Self::direct_get_datablock(db, section, name)
    }
}

impl<T: CosmosisDataType> CosmosisStorable for T {
    type InternalType = T;

    type ResultType = T;

    open spec fn storable_view(&self) -> ValueView {
        (*self).value_view()
    }

    proof fn storable_view_tagged(&self) {
        T::value_view_tagged(*self);
    }

    fn put_datablock(db: &mut DataBlock, section: &str, name: &str, obj: &Self) -> (r:
        CosmosisResult<()>) {
        Self::direct_put_datablock(db, section, name, obj)
    }

    fn replace_datablock(db: &mut DataBlock, section: &str, name: &str, obj: &Self) -> (r:
        CosmosisResult<Self::ResultType>) {
        Self::direct_replace_datablock(db, section, name, obj)
    }
}

impl DataBlock {
    /// Whether the block holds an entry under (section, name) whose type is
    /// `C`.  False both when the entry is absent and when it is present
    /// with a different type.
    pub fn is_type<C: CosmosisGettable>(&self, section: &str, name: &str) -> (b: bool)
        ensures
            b == (self@.contains_key((section@, name@)) && tag_of(self@[(section@, name@)])
                == <C::InternalType as CosmosisDataType>::tag_spec()),
    {
        match self.get_type(section, name) {
            Some(t) => {
                let ct = <C::InternalType as CosmosisDataType>::cosmosis_type();
                t == ct
            },
            None => false,
        }
    }

    /// Retrieve the value stored under (section, name) as a `T`.
    pub fn get<T: CosmosisGettable>(&self, section: &str, name: &str) -> (r: CosmosisResult<T>)
        ensures
            read_post(
                self@,
                section@,
                name@,
                <T::InternalType as CosmosisDataType>::tag_spec(),
                match r {
                    Ok(v) => Ok(v.gettable_view()),
                    Err(e) => Err(e),
                },
            ),
    {
        T::get_datablock(self, section, name)
    }

    /// Store a new value under (section, name).  Fails with
    /// `DBS_NAME_ALREADY_EXISTS` if any entry is already bound there.
    pub fn put<T: CosmosisStorable>(&mut self, section: &str, name: &str, obj: &T) -> (r:
        CosmosisResult<()>)
        ensures
            write_post(
                old(self)@,
                final(self)@,
                section@,
                name@,
                obj.storable_view(),
                match r {
                    Ok(u) => Ok(u),
                    Err(e) => Err(e),
                },
            ),
    {
        T::put_datablock(self, section, name, obj)
    }

    /// Store a value under (section, name): if the pair is free this is a
    /// `put` yielding `None`; if it already holds a value of the same type,
    /// the value is replaced and the previous one yielded.
    pub fn insert<T: CosmosisStorable>(&mut self, section: &str, name: &str, obj: &T) -> (r:
        CosmosisResult<Option<T::ResultType>>)
        ensures
            insert_post(
                old(self)@,
                final(self)@,
                section@,
                name@,
                obj.storable_view(),
                match r {
                    Ok(prev) => Ok(
                        match prev {
                            Some(p) => Some(p.gettable_view()),
                            None => None,
                        },
                    ),
                    Err(e) => Err(e),
                },
            ),
    {
        proof {
            obj.storable_view_tagged();
        }
        if self.contains(section, name) {
            match T::replace_datablock(self, section, name, obj) {
                Ok(p) => Ok(Some(p)),
                Err(e) => Err(e),
            }
        } else {
            match T::put_datablock(self, section, name, obj) {
                Ok(u) => Ok(None),
                Err(e) => Err(e),
            }
        }
    }
}

impl CosmosisDataType for i32 {
    open spec fn tag_spec() -> datablock_type_t {
        datablock_type_t::DBT_INT
    }

    open spec fn value_view(self) -> ValueView {
        ValueView::Int(self)
    }

    proof fn value_view_tagged(a: Self) {
    }

    fn cosmosis_type() -> (t: datablock_type_t) {
        datablock_type_t::DBT_INT
    }

    fn direct_get_datablock(db: &DataBlock, section: &str, name: &str) -> (r: CosmosisResult<
        i32,
    >) {
        match db.lookup(section, name) {
            Some(v) => match v {
                Value::Int(x) => Ok(*x),
                _ => Err(
                    CosmosisError::new(DATABLOCK_STATUS::DBS_WRONG_VALUE_TYPE).with_reason(
                        locate_reason("Could not get value at (section, name): (", section, name),
                    ),
                ),
            },
            None => Err(
                CosmosisError::new(DATABLOCK_STATUS::DBS_NAME_NOT_FOUND).with_reason(
                    locate_reason("Could not get value at (section, name): (", section, name),
                ),
            ),
        }
    }

    fn direct_put_datablock(db: &mut DataBlock, section: &str, name: &str, obj: &Self) -> (r:
        CosmosisResult<()>) {
        if db.store_new(section, name, Value::Int(*obj)) {
            Ok(())
        } else {
            Err(
                CosmosisError::new(DATABLOCK_STATUS::DBS_NAME_ALREADY_EXISTS).with_reason(
                    locate_reason("Could not put value at (section, name): (", section, name),
                ),
            )
        }
    }

    fn direct_replace_datablock(db: &mut DataBlock, section: &str, name: &str, obj: &Self) -> (r:
        CosmosisResult<Self>) {
        let prev = match Self::direct_get_datablock(db, section, name) {
            Ok(p) => p,
            Err(e) => {
                return Err(e);
            },
        };
        if db.replace_value(section, name, Value::Int(*obj)) {
            Ok(prev)
        } else {
            // The read above succeeded, so the pair is present and the
            // replacement cannot fail.
            Err(CosmosisError::new(DATABLOCK_STATUS::DBS_LOGIC_ERROR))
        }
    }
}

impl CosmosisDataType for bool {
    open spec fn tag_spec() -> datablock_type_t {
        datablock_type_t::DBT_BOOL
    }

    open spec fn value_view(self) -> ValueView {
        ValueView::Bool(self)
    }

    proof fn value_view_tagged(a: Self) {
    }

    fn cosmosis_type() -> (t: datablock_type_t) {
        datablock_type_t::DBT_BOOL
    }

    fn direct_get_datablock(db: &DataBlock, section: &str, name: &str) -> (r: CosmosisResult<
        bool,
    >) {
        match db.lookup(section, name) {
            Some(v) => match v {
                Value::Bool(x) => Ok(*x),
                _ => Err(
                    CosmosisError::new(DATABLOCK_STATUS::DBS_WRONG_VALUE_TYPE).with_reason(
                        locate_reason("Could not get value at (section, name): (", section, name),
                    ),
                ),
            },
            None => Err(
                CosmosisError::new(DATABLOCK_STATUS::DBS_NAME_NOT_FOUND).with_reason(
                    locate_reason("Could not get value at (section, name): (", section, name),
                ),
            ),
        }
    }

    fn direct_put_datablock(db: &mut DataBlock, section: &str, name: &str, obj: &Self) -> (r:
        CosmosisResult<()>) {
        if db.store_new(section, name, Value::Bool(*obj)) {
            Ok(())
        } else {
            Err(
                CosmosisError::new(DATABLOCK_STATUS::DBS_NAME_ALREADY_EXISTS).with_reason(
                    locate_reason("Could not put value at (section, name): (", section, name),
                ),
            )
        }
    }

    fn direct_replace_datablock(db: &mut DataBlock, section: &str, name: &str, obj: &Self) -> (r:
        CosmosisResult<Self>) {
        let prev = match Self::direct_get_datablock(db, section, name) {
            Ok(p) => p,
            Err(e) => {
                return Err(e);
            },
        };
        if db.replace_value(section, name, Value::Bool(*obj)) {
            Ok(prev)
        } else {
            // The read above succeeded, so the pair is present and the
            // replacement cannot fail.
            Err(
                CosmosisError::new(DATABLOCK_STATUS::DBS_LOGIC_ERROR).with_reason(
                    locate_reason(
                        "Could not replace value at (section, name): (",
                        section,
                        name,
                    ),
                ),
            )
        }
    }
}

impl CosmosisDataType for Double {
    open spec fn tag_spec() -> datablock_type_t {
        datablock_type_t::DBT_DOUBLE
    }

    open spec fn value_view(self) -> ValueView {
        ValueView::Double(self)
    }

    proof fn value_view_tagged(a: Self) {
    }

    fn cosmosis_type() -> (t: datablock_type_t) {
        datablock_type_t::DBT_DOUBLE
    }

    fn direct_get_datablock(db: &DataBlock, section: &str, name: &str) -> (r: CosmosisResult<
        Double,
    >) {
        match db.lookup(section, name) {
            Some(v) => match v {
                Value::Double(x) => Ok(*x),
                _ => Err(
                    CosmosisError::new(DATABLOCK_STATUS::DBS_WRONG_VALUE_TYPE).with_reason(
                        locate_reason("Could not get value at (section, name): (", section, name),
                    ),
                ),
            },
            None => Err(
                CosmosisError::new(DATABLOCK_STATUS::DBS_NAME_NOT_FOUND).with_reason(
                    locate_reason("Could not get value at (section, name): (", section, name),
                ),
            ),
        }
    }

    fn direct_put_datablock(db: &mut DataBlock, section: &str, name: &str, obj: &Self) -> (r:
        CosmosisResult<()>) {
        if db.store_new(section, name, Value::Double(*obj)) {
            Ok(())
        } else {
            Err(
                CosmosisError::new(DATABLOCK_STATUS::DBS_NAME_ALREADY_EXISTS).with_reason(
                    locate_reason("Could not put value at (section, name): (", section, name),
                ),
            )
        }
    }

    fn direct_replace_datablock(db: &mut DataBlock, section: &str, name: &str, obj: &Self) -> (r:
        CosmosisResult<Self>) {
        let prev = match Self::direct_get_datablock(db, section, name) {
            Ok(p) => p,
            Err(e) => {
                return Err(e);
            },
        };
        if db.replace_value(section, name, Value::Double(*obj)) {
            Ok(prev)
        } else {
            // The read above succeeded, so the pair is present and the
            // replacement cannot fail.
            Err(
                CosmosisError::new(DATABLOCK_STATUS::DBS_LOGIC_ERROR).with_reason(
                    locate_reason(
                        "Could not replace value at (section, name): (",
                        section,
                        name,
                    ),
                ),
            )
        }
    }
}

impl CosmosisDataType for Complex {
    open spec fn tag_spec() -> datablock_type_t {
        datablock_type_t::DBT_COMPLEX
    }

    open spec fn value_view(self) -> ValueView {
        ValueView::Complex(self)
    }

    proof fn value_view_tagged(a: Self) {
    }

    fn cosmosis_type() -> (t: datablock_type_t) {
        datablock_type_t::DBT_COMPLEX
    }

    fn direct_get_datablock(db: &DataBlock, section: &str, name: &str) -> (r: CosmosisResult<
        Complex,
    >) {
        match db.lookup(section, name) {
            Some(v) => match v {
                Value::Complex(x) => Ok(*x),
                _ => Err(
                    CosmosisError::new(DATABLOCK_STATUS::DBS_WRONG_VALUE_TYPE).with_reason(
                        locate_reason("Could not get value at (section, name): (", section, name),
                    ),
                ),
            },
            None => Err(
                CosmosisError::new(DATABLOCK_STATUS::DBS_NAME_NOT_FOUND).with_reason(
                    locate_reason("Could not get value at (section, name): (", section, name),
                ),
            ),
        }
    }

    fn direct_put_datablock(db: &mut DataBlock, section: &str, name: &str, obj: &Self) -> (r:
        CosmosisResult<()>) {
        if db.store_new(section, name, Value::Complex(*obj)) {
            Ok(())
        } else {
            Err(
                CosmosisError::new(DATABLOCK_STATUS::DBS_NAME_ALREADY_EXISTS).with_reason(
                    locate_reason("Could not put value at (section, name): (", section, name),
                ),
            )
        }
    }

    fn direct_replace_datablock(db: &mut DataBlock, section: &str, name: &str, obj: &Self) -> (r:
        CosmosisResult<Self>) {
        let prev = match Self::direct_get_datablock(db, section, name) {
            Ok(p) => p,
            Err(e) => {
                return Err(e);
            },
        };
        if db.replace_value(section, name, Value::Complex(*obj)) {
            Ok(prev)
        } else {
            // The read above succeeded, so the pair is present and the
            // replacement cannot fail.
            Err(
                CosmosisError::new(DATABLOCK_STATUS::DBS_LOGIC_ERROR).with_reason(
                    locate_reason(
                        "Could not replace value at (section, name): (",
                        section,
                        name,
                    ),
                ),
            )
        }
    }
}

impl CosmosisDataType for String {
    open spec fn tag_spec() -> datablock_type_t {
        datablock_type_t::DBT_STRING
    }

    open spec fn value_view(self) -> ValueView {
        ValueView::Text(self@)
    }

    proof fn value_view_tagged(a: Self) {
    }

    fn cosmosis_type() -> (t: datablock_type_t) {
        datablock_type_t::DBT_STRING
    }

    fn direct_get_datablock(db: &DataBlock, section: &str, name: &str) -> (r: CosmosisResult<
        String,
    >) {
        match db.lookup(section, name) {
            Some(v) => match v {
                Value::Text(s) => Ok(s.clone()),
                _ => Err(
                    CosmosisError::new(DATABLOCK_STATUS::DBS_WRONG_VALUE_TYPE).with_reason(
                        locate_reason("Could not get value at (section, name): (", section, name),
                    ),
                ),
            },
            None => Err(
                CosmosisError::new(DATABLOCK_STATUS::DBS_NAME_NOT_FOUND).with_reason(
                    locate_reason("Could not get value at (section, name): (", section, name),
                ),
            ),
        }
    }

    fn direct_put_datablock(db: &mut DataBlock, section: &str, name: &str, obj: &Self) -> (r:
        CosmosisResult<()>) {
        if db.store_new(section, name, Value::Text(obj.clone())) {
            Ok(())
        } else {
            Err(
                CosmosisError::new(DATABLOCK_STATUS::DBS_NAME_ALREADY_EXISTS).with_reason(
                    locate_reason("Could not put value at (section, name): (", section, name),
                ),
            )
        }
    }

    fn direct_replace_datablock(db: &mut DataBlock, section: &str, name: &str, obj: &Self) -> (r:
        CosmosisResult<Self>) {
        let prev = match Self::direct_get_datablock(db, section, name) {
            Ok(p) => p,
            Err(e) => {
                return Err(e);
            },
        };
        if db.replace_value(section, name, Value::Text(obj.clone())) {
            Ok(prev)
        } else {
            // The read above succeeded, so the pair is present and the
            // replacement cannot fail.
            Err(
                CosmosisError::new(DATABLOCK_STATUS::DBS_LOGIC_ERROR).with_reason(
                    locate_reason(
                        "Could not replace value at (section, name): (",
                        section,
                        name,
                    ),
                ),
            )
        }
    }
}

impl CosmosisDataType for Vec<i32> {
    open spec fn tag_spec() -> datablock_type_t {
        datablock_type_t::DBT_INT1D
    }

    open spec fn value_view(self) -> ValueView {
        ValueView::IntArray(self@)
    }

    proof fn value_view_tagged(a: Self) {
    }

    fn cosmosis_type() -> (t: datablock_type_t) {
        datablock_type_t::DBT_INT1D
    }

    fn direct_get_datablock(db: &DataBlock, section: &str, name: &str) -> (r: CosmosisResult<
        Vec<i32>,
    >) {
        match db.lookup(section, name) {
            Some(v) => match v {
                Value::IntArray(xs) => {
                    let c = xs.clone();
                    proof {
                        assert(c@ =~= xs@);
                    }
                    Ok(c)
                },
                _ => Err(
                    CosmosisError::new(DATABLOCK_STATUS::DBS_WRONG_VALUE_TYPE).with_reason(
                        locate_reason("Could not get value at (section, name): (", section, name),
                    ),
                ),
            },
            None => Err(
                CosmosisError::new(DATABLOCK_STATUS::DBS_NAME_NOT_FOUND).with_reason(
                    locate_reason("Could not get value at (section, name): (", section, name),
                ),
            ),
        }
    }

    fn direct_put_datablock(db: &mut DataBlock, section: &str, name: &str, obj: &Self) -> (r:
        CosmosisResult<()>) {
        let c = obj.clone();
        proof {
            assert(c@ =~= obj@);
        }
        if db.store_new(section, name, Value::IntArray(c)) {
            Ok(())
        } else {
            Err(
                CosmosisError::new(DATABLOCK_STATUS::DBS_NAME_ALREADY_EXISTS).with_reason(
                    locate_reason("Could not put value at (section, name): (", section, name),
                ),
            )
        }
    }

    fn direct_replace_datablock(db: &mut DataBlock, section: &str, name: &str, obj: &Self) -> (r:
        CosmosisResult<Self>) {
        let prev = match Self::direct_get_datablock(db, section, name) {
            Ok(p) => p,
            Err(e) => {
                return Err(e);
            },
        };
        let c = obj.clone();
        proof {
            assert(c@ =~= obj@);
        }
        if db.replace_value(section, name, Value::IntArray(c)) {
            Ok(prev)
        } else {
            // The read above succeeded, so the pair is present and the
            // replacement cannot fail.
            Err(
                CosmosisError::new(DATABLOCK_STATUS::DBS_LOGIC_ERROR).with_reason(
                    locate_reason(
                        "Could not replace value at (section, name): (",
                        section,
                        name,
                    ),
                ),
            )
        }
    }
}

impl CosmosisDataType for Vec<Double> {
    open spec fn tag_spec() -> datablock_type_t {
        datablock_type_t::DBT_DOUBLE1D
    }

    open spec fn value_view(self) -> ValueView {
        ValueView::DoubleArray(self@)
    }

    proof fn value_view_tagged(a: Self) {
    }

    fn cosmosis_type() -> (t: datablock_type_t) {
        datablock_type_t::DBT_DOUBLE1D
    }

    fn direct_get_datablock(db: &DataBlock, section: &str, name: &str) -> (r: CosmosisResult<
        Vec<Double>,
    >) {
        match db.lookup(section, name) {
            Some(v) => match v {
                Value::DoubleArray(xs) => {
                    let c = xs.clone();
                    proof {
                        assert(c@ =~= xs@);
                    }
                    Ok(c)
                },
                _ => Err(
                    CosmosisError::new(DATABLOCK_STATUS::DBS_WRONG_VALUE_TYPE).with_reason(
                        locate_reason("Could not get value at (section, name): (", section, name),
                    ),
                ),
            },
            None => Err(
                CosmosisError::new(DATABLOCK_STATUS::DBS_NAME_NOT_FOUND).with_reason(
                    locate_reason("Could not get value at (section, name): (", section, name),
                ),
            ),
        }
    }

    fn direct_put_datablock(db: &mut DataBlock, section: &str, name: &str, obj: &Self) -> (r:
        CosmosisResult<()>) {
        let c = obj.clone();
        proof {
            assert(c@ =~= obj@);
        }
        if db.store_new(section, name, Value::DoubleArray(c)) {
            Ok(())
        } else {
            Err(
                CosmosisError::new(DATABLOCK_STATUS::DBS_NAME_ALREADY_EXISTS).with_reason(
                    locate_reason("Could not put value at (section, name): (", section, name),
                ),
            )
        }
    }

    fn direct_replace_datablock(db: &mut DataBlock, section: &str, name: &str, obj: &Self) -> (r:
        CosmosisResult<Self>) {
        let prev = match Self::direct_get_datablock(db, section, name) {
            Ok(p) => p,
            Err(e) => {
                return Err(e);
            },
        };
        let c = obj.clone();
        proof {
            assert(c@ =~= obj@);
        }
        if db.replace_value(section, name, Value::DoubleArray(c)) {
            Ok(prev)
        } else {
            // The read above succeeded, so the pair is present and the
            // replacement cannot fail.
            Err(
                CosmosisError::new(DATABLOCK_STATUS::DBS_LOGIC_ERROR).with_reason(
                    locate_reason(
                        "Could not replace value at (section, name): (",
                        section,
                        name,
                    ),
                ),
            )
        }
    }
}

impl CosmosisDataType for Vec<Complex> {
    open spec fn tag_spec() -> datablock_type_t {
        datablock_type_t::DBT_COMPLEX1D
    }

    open spec fn value_view(self) -> ValueView {
        ValueView::ComplexArray(self@)
    }

    proof fn value_view_tagged(a: Self) {
    }

    fn cosmosis_type() -> (t: datablock_type_t) {
        datablock_type_t::DBT_COMPLEX1D
    }

    fn direct_get_datablock(db: &DataBlock, section: &str, name: &str) -> (r: CosmosisResult<
        Vec<Complex>,
    >) {
        match db.lookup(section, name) {
            Some(v) => match v {
                Value::ComplexArray(xs) => {
                    let c = xs.clone();
                    proof {
                        assert(c@ =~= xs@);
                    }
                    Ok(c)
                },
                _ => Err(
                    CosmosisError::new(DATABLOCK_STATUS::DBS_WRONG_VALUE_TYPE).with_reason(
                        locate_reason("Could not get value at (section, name): (", section, name),
                    ),
                ),
            },
            None => Err(
                CosmosisError::new(DATABLOCK_STATUS::DBS_NAME_NOT_FOUND).with_reason(
                    locate_reason("Could not get value at (section, name): (", section, name),
                ),
            ),
        }
    }

    fn direct_put_datablock(db: &mut DataBlock, section: &str, name: &str, obj: &Self) -> (r:
        CosmosisResult<()>) {
        let c = obj.clone();
        proof {
            assert(c@ =~= obj@);
        }
        if db.store_new(section, name, Value::ComplexArray(c)) {
            Ok(())
        } else {
            Err(
                CosmosisError::new(DATABLOCK_STATUS::DBS_NAME_ALREADY_EXISTS).with_reason(
                    locate_reason("Could not put value at (section, name): (", section, name),
                ),
            )
        }
    }

    fn direct_replace_datablock(db: &mut DataBlock, section: &str, name: &str, obj: &Self) -> (r:
        CosmosisResult<Self>) {
        let prev = match Self::direct_get_datablock(db, section, name) {
            Ok(p) => p,
            Err(e) => {
                return Err(e);
            },
        };
        let c = obj.clone();
        proof {
            assert(c@ =~= obj@);
        }
        if db.replace_value(section, name, Value::ComplexArray(c)) {
            Ok(prev)
        } else {
            // The read above succeeded, so the pair is present and the
            // replacement cannot fail.
            Err(
                CosmosisError::new(DATABLOCK_STATUS::DBS_LOGIC_ERROR).with_reason(
                    locate_reason(
                        "Could not replace value at (section, name): (",
                        section,
                        name,
                    ),
                ),
            )
        }
    }
}

} // verus!
