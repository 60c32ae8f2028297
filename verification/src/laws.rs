//! The laws that the storage contracts entail, stated once and proved.
//!
//! Each lemma takes the outcome of an operation, constrained only by that
//! operation's contract, and pins down what the outcome must have been.
//! Reading them: `m.insert((s, n), v)` is the map view of a block right
//! after a successful `put` or `insert` of `v` under (section, name).

use vstd::prelude::*;
use crate::marshal::CosmosisDataType;
use crate::marshal::CosmosisGettable;
use crate::marshal::CosmosisStorable;
use crate::marshal::get_reason;
use crate::marshal::insert_post;
use crate::marshal::read_post;
use crate::marshal::write_post;
use crate::status::CosmosisError;
use crate::status::CosmosisResult;
use crate::status::DATABLOCK_STATUS;
use crate::value::Complex;
use crate::value::Double;
use crate::value::ValueView;
use crate::value::tag_of;

verus! {

/// After a value is written under (section, name), a read of the same type
/// there succeeds and yields a value with the very stored shape — the
/// round trip loses nothing.
pub proof fn lemma_put_then_get<T: CosmosisGettable>(
    m: Map<(Seq<char>, Seq<char>), ValueView>,
    s: Seq<char>,
    n: Seq<char>,
    x: T,
    r: CosmosisResult<T>,
)
    requires
        read_post(
            m.insert((s, n), x.gettable_view()),
            s,
            n,
            <T::InternalType as CosmosisDataType>::tag_spec(),
            match r {
                Ok(v) => Ok(v.gettable_view()),
                Err(e) => Err(e),
            },
        ),
    ensures
        r matches Ok(v) && v.gettable_view() == x.gettable_view(),
{
    T::gettable_view_tagged(x);
}

/// After a value is written under (section, name), a read there at any
/// other type fails with `DBS_WRONG_VALUE_TYPE`.
pub proof fn lemma_get_other_type<T: CosmosisGettable, U: CosmosisGettable>(
    m: Map<(Seq<char>, Seq<char>), ValueView>,
    s: Seq<char>,
    n: Seq<char>,
    x: T,
    r: CosmosisResult<U>,
)
    requires
        <U::InternalType as CosmosisDataType>::tag_spec()
            != <T::InternalType as CosmosisDataType>::tag_spec(),
        read_post(
            m.insert((s, n), x.gettable_view()),
            s,
            n,
            <U::InternalType as CosmosisDataType>::tag_spec(),
            match r {
                Ok(v) => Ok(v.gettable_view()),
                Err(e) => Err(e),
            },
        ),
    ensures
        r matches Err(e) && e.kind == DATABLOCK_STATUS::DBS_WRONG_VALUE_TYPE
            && e.spec_reason() == Some(get_reason(s, n)),
{
    T::gettable_view_tagged(x);
    match r {
        Ok(v) => {
            U::gettable_view_tagged(v);
        },
        Err(_) => {},
    }
}

/// A read under a (section, name) pair never written fails with
/// `DBS_NAME_NOT_FOUND`, whatever the type asked for.
pub proof fn lemma_get_absent<T: CosmosisGettable>(
    m: Map<(Seq<char>, Seq<char>), ValueView>,
    s: Seq<char>,
    n: Seq<char>,
    r: CosmosisResult<T>,
)
    requires
        !m.contains_key((s, n)),
        read_post(
            m,
            s,
            n,
            <T::InternalType as CosmosisDataType>::tag_spec(),
            match r {
                Ok(v) => Ok(v.gettable_view()),
                Err(e) => Err(e),
            },
        ),
    ensures
        r matches Err(e) && e.kind == DATABLOCK_STATUS::DBS_NAME_NOT_FOUND
            && e.spec_reason() == Some(get_reason(s, n)),
{
}

/// On a pair not yet bound, `insert` behaves exactly like `put`: it yields
/// nothing, binds the pair, and its outcome also satisfies `put`'s
/// contract.
pub proof fn lemma_insert_absent_is_put(
    old_m: Map<(Seq<char>, Seq<char>), ValueView>,
    new_m: Map<(Seq<char>, Seq<char>), ValueView>,
    s: Seq<char>,
    n: Seq<char>,
    v: ValueView,
    r: Result<Option<ValueView>, CosmosisError>,
)
    requires
        !old_m.contains_key((s, n)),
        insert_post(old_m, new_m, s, n, v, r),
    ensures
        r == Ok::<Option<ValueView>, CosmosisError>(None),
        new_m == old_m.insert((s, n), v),
        write_post(old_m, new_m, s, n, v, Ok(())),
{
}

/// On a pair bound to a value of the same type, `insert` yields that
/// previous value and leaves the new one readable there.
pub proof fn lemma_insert_present_replaces(
    old_m: Map<(Seq<char>, Seq<char>), ValueView>,
    new_m: Map<(Seq<char>, Seq<char>), ValueView>,
    s: Seq<char>,
    n: Seq<char>,
    v: ValueView,
    r: Result<Option<ValueView>, CosmosisError>,
)
    requires
        old_m.contains_key((s, n)),
        tag_of(old_m[(s, n)]) == tag_of(v),
        insert_post(old_m, new_m, s, n, v, r),
    ensures
        r == Ok::<Option<ValueView>, CosmosisError>(Some(old_m[(s, n)])),
        new_m == old_m.insert((s, n), v),
        new_m[(s, n)] == v,
{
}

/// Typed form of the replacement law: when the pair holds exactly what an
/// earlier write of `y` stored, `insert`ing `x` of the same stored type
/// yields a previous value with `y`'s stored shape.
pub proof fn lemma_insert_returns_previous<T: CosmosisStorable>(
    old_m: Map<(Seq<char>, Seq<char>), ValueView>,
    new_m: Map<(Seq<char>, Seq<char>), ValueView>,
    s: Seq<char>,
    n: Seq<char>,
    y: T::ResultType,
    x: &T,
    r: CosmosisResult<Option<T::ResultType>>,
)
    requires
        old_m.contains_key((s, n)),
        old_m[(s, n)] == y.gettable_view(),
        insert_post(
            old_m,
            new_m,
            s,
            n,
            x.storable_view(),
            match r {
                Ok(prev) => Ok(
                    match prev {
                        Some(p) => Some(p.gettable_view()),
                        None => None,
                    },
                ),
                Err(e) => Err(e),
            },
        ),
    ensures
        r matches Ok(Some(prev)) && prev.gettable_view() == y.gettable_view(),
        new_m == old_m.insert((s, n), x.storable_view()),
{
    x.storable_view_tagged();
    <T::ResultType as CosmosisGettable>::gettable_view_tagged(y);
}

/// Scalar round trip, at the value itself: writing an integer and reading
/// it back yields that integer.
pub proof fn lemma_int_roundtrip(
    m: Map<(Seq<char>, Seq<char>), ValueView>,
    s: Seq<char>,
    n: Seq<char>,
    x: i32,
    r: CosmosisResult<i32>,
)
    requires
        read_post(
            m.insert((s, n), x.gettable_view()),
            s,
            n,
            <<i32 as CosmosisGettable>::InternalType as CosmosisDataType>::tag_spec(),
            match r {
                Ok(v) => Ok(v.gettable_view()),
                Err(e) => Err(e),
            },
        ),
    ensures
        r == Ok::<i32, crate::status::CosmosisError>(x),
{
    lemma_put_then_get::<i32>(m, s, n, x, r);
}

/// Scalar round trip for booleans.
pub proof fn lemma_bool_roundtrip(
    m: Map<(Seq<char>, Seq<char>), ValueView>,
    s: Seq<char>,
    n: Seq<char>,
    x: bool,
    r: CosmosisResult<bool>,
)
    requires
        read_post(
            m.insert((s, n), x.gettable_view()),
            s,
            n,
            <<bool as CosmosisGettable>::InternalType as CosmosisDataType>::tag_spec(),
            match r {
                Ok(v) => Ok(v.gettable_view()),
                Err(e) => Err(e),
            },
        ),
    ensures
        r == Ok::<bool, crate::status::CosmosisError>(x),
{
    lemma_put_then_get::<bool>(m, s, n, x, r);
}

/// Scalar round trip for doubles: the 64 bits come back unchanged.
pub proof fn lemma_double_roundtrip(
    m: Map<(Seq<char>, Seq<char>), ValueView>,
    s: Seq<char>,
    n: Seq<char>,
    x: Double,
    r: CosmosisResult<Double>,
)
    requires
        read_post(
            m.insert((s, n), x.gettable_view()),
            s,
            n,
            <<Double as CosmosisGettable>::InternalType as CosmosisDataType>::tag_spec(),
            match r {
                Ok(v) => Ok(v.gettable_view()),
                Err(e) => Err(e),
            },
        ),
    ensures
        r == Ok::<Double, crate::status::CosmosisError>(x),
{
    lemma_put_then_get::<Double>(m, s, n, x, r);
}

/// Scalar round trip for complex values.
pub proof fn lemma_complex_roundtrip(
    m: Map<(Seq<char>, Seq<char>), ValueView>,
    s: Seq<char>,
    n: Seq<char>,
    x: Complex,
    r: CosmosisResult<Complex>,
)
    requires
        read_post(
            m.insert((s, n), x.gettable_view()),
            s,
            n,
            <<Complex as CosmosisGettable>::InternalType as CosmosisDataType>::tag_spec(),
            match r {
                Ok(v) => Ok(v.gettable_view()),
                Err(e) => Err(e),
            },
        ),
    ensures
        r == Ok::<Complex, crate::status::CosmosisError>(x),
{
    lemma_put_then_get::<Complex>(m, s, n, x, r);
}

/// Vector round trip: writing an array and reading it back yields the
/// exact element sequence, in order.  In particular an empty array reads
/// back as an empty array, never as `DBS_NAME_NOT_FOUND`.
pub proof fn lemma_int_array_roundtrip(
    m: Map<(Seq<char>, Seq<char>), ValueView>,
    s: Seq<char>,
    n: Seq<char>,
    x: Vec<i32>,
    r: CosmosisResult<Vec<i32>>,
)
    requires
        read_post(
            m.insert((s, n), x.gettable_view()),
            s,
            n,
            <<Vec<i32> as CosmosisGettable>::InternalType as CosmosisDataType>::tag_spec(),
            match r {
                Ok(v) => Ok(v.gettable_view()),
                Err(e) => Err(e),
            },
        ),
    ensures
        r matches Ok(v) && v@ == x@,
{
    lemma_put_then_get::<Vec<i32>>(m, s, n, x, r);
}

/// Vector round trip for arrays of doubles.
pub proof fn lemma_double_array_roundtrip(
    m: Map<(Seq<char>, Seq<char>), ValueView>,
    s: Seq<char>,
    n: Seq<char>,
    x: Vec<Double>,
    r: CosmosisResult<Vec<Double>>,
)
    requires
        read_post(
            m.insert((s, n), x.gettable_view()),
            s,
            n,
            <<Vec<Double> as CosmosisGettable>::InternalType as CosmosisDataType>::tag_spec(),
            match r {
                Ok(v) => Ok(v.gettable_view()),
                Err(e) => Err(e),
            },
        ),
    ensures
        r matches Ok(v) && v@ == x@,
{
    lemma_put_then_get::<Vec<Double>>(m, s, n, x, r);
}

/// Vector round trip for arrays of complex values.
pub proof fn lemma_complex_array_roundtrip(
    m: Map<(Seq<char>, Seq<char>), ValueView>,
    s: Seq<char>,
    n: Seq<char>,
    x: Vec<Complex>,
    r: CosmosisResult<Vec<Complex>>,
)
    requires
        read_post(
            m.insert((s, n), x.gettable_view()),
            s,
            n,
            <<Vec<Complex> as CosmosisGettable>::InternalType as CosmosisDataType>::tag_spec(),
            match r {
                Ok(v) => Ok(v.gettable_view()),
                Err(e) => Err(e),
            },
        ),
    ensures
        r matches Ok(v) && v@ == x@,
{
    lemma_put_then_get::<Vec<Complex>>(m, s, n, x, r);
}

/// Text round trip: writing a string and reading it back yields the exact
/// character sequence.
pub proof fn lemma_text_roundtrip(
    m: Map<(Seq<char>, Seq<char>), ValueView>,
    s: Seq<char>,
    n: Seq<char>,
    x: String,
    r: CosmosisResult<String>,
)
    requires
        read_post(
            m.insert((s, n), x.gettable_view()),
            s,
            n,
            <<String as CosmosisGettable>::InternalType as CosmosisDataType>::tag_spec(),
            match r {
                Ok(v) => Ok(v.gettable_view()),
                Err(e) => Err(e),
            },
        ),
    ensures
        r matches Ok(v) && v@ == x@,
{
    lemma_put_then_get::<String>(m, s, n, x, r);
}

} // verus!
