//! Positional decoding of a row into a tuple: element `i` comes from the
//! column at position `i`, read in order, and the first column that fails to
//! convert ends the decoding with its error.

use vstd::prelude::*;
use crate::sqlite;

verus! {

/// Reading the column at position `index` of `row` as an `A` can give
/// `result`: some read of that column through rusqlite gave it.
pub closed spec fn column_gives<A: rusqlite::types::FromSql>(
    row: &rusqlite::Row<'_>,
    index: usize,
    result: Result<A, rusqlite::Error>,
) -> bool {
    call_ensures(sqlite::column::<A>, (row, index), result)
}

/// Reading the column at position `index` of `row` as an `A` can succeed.
pub open spec fn column_converts<A: rusqlite::types::FromSql>(
    row: &rusqlite::Row<'_>,
    index: usize,
) -> bool {
    exists|value: A| #[trigger] column_gives(row, index, Ok::<A, rusqlite::Error>(value))
}

/// Decodes the first 1 column of `row` into a tuple: element `i`
/// from the column at position `i`, in order, stopping at the first column
/// that does not convert.
pub fn decode_tuple1<A: rusqlite::types::FromSql>(
    row: &rusqlite::Row<'_>,
) -> (res: Result<(A,), rusqlite::Error>)
    ensures
        match res {
            Ok((v0,)) => {
                &&& column_gives(row, 0, Ok::<A, rusqlite::Error>(v0))
            },
            Err(e) => {
                ||| column_gives(row, 0, Err::<A, rusqlite::Error>(e))
            },
        },
{
    let v0 = match sqlite::column::<A>(row, 0) {
        Ok(value) => value,
        Err(e) => {
            assert(column_gives(row, 0, Err::<A, rusqlite::Error>(e)));
            return Err(e);
        },
    };
    assert(column_gives(row, 0, Ok::<A, rusqlite::Error>(v0)));
    Ok((v0,))
}

/// Decodes the first 2 columns of `row` into a tuple: element `i`
/// from the column at position `i`, in order, stopping at the first column
/// that does not convert.
pub fn decode_tuple2<A: rusqlite::types::FromSql, B: rusqlite::types::FromSql>(
    row: &rusqlite::Row<'_>,
) -> (res: Result<(A, B), rusqlite::Error>)
    ensures
        match res {
            Ok((v0, v1)) => {
                &&& column_gives(row, 0, Ok::<A, rusqlite::Error>(v0))
                &&& column_gives(row, 1, Ok::<B, rusqlite::Error>(v1))
            },
            Err(e) => {
                ||| column_gives(row, 0, Err::<A, rusqlite::Error>(e))
                ||| column_converts::<A>(row, 0) && column_gives(row, 1, Err::<B, rusqlite::Error>(e))
            },
        },
{
    let v0 = match sqlite::column::<A>(row, 0) {
        Ok(value) => value,
        Err(e) => {
            assert(column_gives(row, 0, Err::<A, rusqlite::Error>(e)));
            return Err(e);
        },
    };
    assert(column_gives(row, 0, Ok::<A, rusqlite::Error>(v0)));
    let v1 = match sqlite::column::<B>(row, 1) {
        Ok(value) => value,
        Err(e) => {
            assert(column_gives(row, 1, Err::<B, rusqlite::Error>(e)));
            return Err(e);
        },
    };
    assert(column_gives(row, 1, Ok::<B, rusqlite::Error>(v1)));
    Ok((v0, v1))
}

/// Decodes the first 3 columns of `row` into a tuple: element `i`
/// from the column at position `i`, in order, stopping at the first column
/// that does not convert.
pub fn decode_tuple3<A: rusqlite::types::FromSql, B: rusqlite::types::FromSql, C: rusqlite::types::FromSql>(
    row: &rusqlite::Row<'_>,
) -> (res: Result<(A, B, C), rusqlite::Error>)
    ensures
        match res {
            Ok((v0, v1, v2)) => {
                &&& column_gives(row, 0, Ok::<A, rusqlite::Error>(v0))
                &&& column_gives(row, 1, Ok::<B, rusqlite::Error>(v1))
                &&& column_gives(row, 2, Ok::<C, rusqlite::Error>(v2))
            },
            Err(e) => {
                ||| column_gives(row, 0, Err::<A, rusqlite::Error>(e))
                ||| column_converts::<A>(row, 0) && column_gives(row, 1, Err::<B, rusqlite::Error>(e))
                ||| column_converts::<A>(row, 0) && column_converts::<B>(row, 1) && column_gives(row, 2, Err::<C, rusqlite::Error>(e))
            },
        },
{
    let v0 = match sqlite::column::<A>(row, 0) {
        Ok(value) => value,
        Err(e) => {
            assert(column_gives(row, 0, Err::<A, rusqlite::Error>(e)));
            return Err(e);
        },
    };
    assert(column_gives(row, 0, Ok::<A, rusqlite::Error>(v0)));
    let v1 = match sqlite::column::<B>(row, 1) {
        Ok(value) => value,
        Err(e) => {
            assert(column_gives(row, 1, Err::<B, rusqlite::Error>(e)));
            return Err(e);
        },
    };
    assert(column_gives(row, 1, Ok::<B, rusqlite::Error>(v1)));
    let v2 = match sqlite::column::<C>(row, 2) {
        Ok(value) => value,
        Err(e) => {
            assert(column_gives(row, 2, Err::<C, rusqlite::Error>(e)));
            return Err(e);
        },
    };
    assert(column_gives(row, 2, Ok::<C, rusqlite::Error>(v2)));
    Ok((v0, v1, v2))
}

/// Decodes the first 4 columns of `row` into a tuple: element `i`
/// from the column at position `i`, in order, stopping at the first column
/// that does not convert.
pub fn decode_tuple4<A: rusqlite::types::FromSql, B: rusqlite::types::FromSql, C: rusqlite::types::FromSql, D: rusqlite::types::FromSql>(
    row: &rusqlite::Row<'_>,
) -> (res: Result<(A, B, C, D), rusqlite::Error>)
    ensures
        match res {
            Ok((v0, v1, v2, v3)) => {
                &&& column_gives(row, 0, Ok::<A, rusqlite::Error>(v0))
                &&& column_gives(row, 1, Ok::<B, rusqlite::Error>(v1))
                &&& column_gives(row, 2, Ok::<C, rusqlite::Error>(v2))
                &&& column_gives(row, 3, Ok::<D, rusqlite::Error>(v3))
            },
            Err(e) => {
                ||| column_gives(row, 0, Err::<A, rusqlite::Error>(e))
                ||| column_converts::<A>(row, 0) && column_gives(row, 1, Err::<B, rusqlite::Error>(e))
                ||| column_converts::<A>(row, 0) && column_converts::<B>(row, 1) && column_gives(row, 2, Err::<C, rusqlite::Error>(e))
                ||| column_converts::<A>(row, 0) && column_converts::<B>(row, 1) && column_converts::<C>(row, 2) && column_gives(row, 3, Err::<D, rusqlite::Error>(e))
            },
        },
{
    let v0 = match sqlite::column::<A>(row, 0) {
        Ok(value) => value,
        Err(e) => {
            assert(column_gives(row, 0, Err::<A, rusqlite::Error>(e)));
            return Err(e);
        },
    };
    assert(column_gives(row, 0, Ok::<A, rusqlite::Error>(v0)));
    let v1 = match sqlite::column::<B>(row, 1) {
        Ok(value) => value,
        Err(e) => {
            assert(column_gives(row, 1, Err::<B, rusqlite::Error>(e)));
            return Err(e);
        },
    };
    assert(column_gives(row, 1, Ok::<B, rusqlite::Error>(v1)));
    let v2 = match sqlite::column::<C>(row, 2) {
        Ok(value) => value,
        Err(e) => {
            assert(column_gives(row, 2, Err::<C, rusqlite::Error>(e)));
            return Err(e);
        },
    };
    assert(column_gives(row, 2, Ok::<C, rusqlite::Error>(v2)));
    let v3 = match sqlite::column::<D>(row, 3) {
        Ok(value) => value,
        Err(e) => {
            assert(column_gives(row, 3, Err::<D, rusqlite::Error>(e)));
            return Err(e);
        },
    };
    assert(column_gives(row, 3, Ok::<D, rusqlite::Error>(v3)));
    Ok((v0, v1, v2, v3))
}

/// Decodes the first 5 columns of `row` into a tuple: element `i`
/// from the column at position `i`, in order, stopping at the first column
/// that does not convert.
pub fn decode_tuple5<A: rusqlite::types::FromSql, B: rusqlite::types::FromSql, C: rusqlite::types::FromSql, D: rusqlite::types::FromSql, E: rusqlite::types::FromSql>(
    row: &rusqlite::Row<'_>,
) -> (res: Result<(A, B, C, D, E), rusqlite::Error>)
    ensures
        match res {
            Ok((v0, v1, v2, v3, v4)) => {
                &&& column_gives(row, 0, Ok::<A, rusqlite::Error>(v0))
                &&& column_gives(row, 1, Ok::<B, rusqlite::Error>(v1))
                &&& column_gives(row, 2, Ok::<C, rusqlite::Error>(v2))
                &&& column_gives(row, 3, Ok::<D, rusqlite::Error>(v3))
                &&& column_gives(row, 4, Ok::<E, rusqlite::Error>(v4))
            },
            Err(e) => {
                ||| column_gives(row, 0, Err::<A, rusqlite::Error>(e))
                ||| column_converts::<A>(row, 0) && column_gives(row, 1, Err::<B, rusqlite::Error>(e))
                ||| column_converts::<A>(row, 0) && column_converts::<B>(row, 1) && column_gives(row, 2, Err::<C, rusqlite::Error>(e))
                ||| column_converts::<A>(row, 0) && column_converts::<B>(row, 1) && column_converts::<C>(row, 2) && column_gives(row, 3, Err::<D, rusqlite::Error>(e))
                ||| column_converts::<A>(row, 0) && column_converts::<B>(row, 1) && column_converts::<C>(row, 2) && column_converts::<D>(row, 3) && column_gives(row, 4, Err::<E, rusqlite::Error>(e))
            },
        },
{
    let v0 = match sqlite::column::<A>(row, 0) {
        Ok(value) => value,
        Err(e) => {
            assert(column_gives(row, 0, Err::<A, rusqlite::Error>(e)));
            return Err(e);
        },
    };
    assert(column_gives(row, 0, Ok::<A, rusqlite::Error>(v0)));
    let v1 = match sqlite::column::<B>(row, 1) {
        Ok(value) => value,
        Err(e) => {
            assert(column_gives(row, 1, Err::<B, rusqlite::Error>(e)));
            return Err(e);
        },
    };
    assert(column_gives(row, 1, Ok::<B, rusqlite::Error>(v1)));
    let v2 = match sqlite::column::<C>(row, 2) {
        Ok(value) => value,
        Err(e) => {
            assert(column_gives(row, 2, Err::<C, rusqlite::Error>(e)));
            return Err(e);
        },
    };
    assert(column_gives(row, 2, Ok::<C, rusqlite::Error>(v2)));
    let v3 = match sqlite::column::<D>(row, 3) {
        Ok(value) => value,
        Err(e) => {
            assert(column_gives(row, 3, Err::<D, rusqlite::Error>(e)));
            return Err(e);
        },
    };
    assert(column_gives(row, 3, Ok::<D, rusqlite::Error>(v3)));
    let v4 = match sqlite::column::<E>(row, 4) {
        Ok(value) => value,
        Err(e) => {
            assert(column_gives(row, 4, Err::<E, rusqlite::Error>(e)));
            return Err(e);
        },
    };
    assert(column_gives(row, 4, Ok::<E, rusqlite::Error>(v4)));
    Ok((v0, v1, v2, v3, v4))
}

/// Decodes the first 6 columns of `row` into a tuple: element `i`
/// from the column at position `i`, in order, stopping at the first column
/// that does not convert.
pub fn decode_tuple6<A: rusqlite::types::FromSql, B: rusqlite::types::FromSql, C: rusqlite::types::FromSql, D: rusqlite::types::FromSql, E: rusqlite::types::FromSql, F: rusqlite::types::FromSql>(
    row: &rusqlite::Row<'_>,
) -> (res: Result<(A, B, C, D, E, F), rusqlite::Error>)
    ensures
        match res {
            Ok((v0, v1, v2, v3, v4, v5)) => {
                &&& column_gives(row, 0, Ok::<A, rusqlite::Error>(v0))
                &&& column_gives(row, 1, Ok::<B, rusqlite::Error>(v1))
                &&& column_gives(row, 2, Ok::<C, rusqlite::Error>(v2))
                &&& column_gives(row, 3, Ok::<D, rusqlite::Error>(v3))
                &&& column_gives(row, 4, Ok::<E, rusqlite::Error>(v4))
                &&& column_gives(row, 5, Ok::<F, rusqlite::Error>(v5))
            },
            Err(e) => {
                ||| column_gives(row, 0, Err::<A, rusqlite::Error>(e))
                ||| column_converts::<A>(row, 0) && column_gives(row, 1, Err::<B, rusqlite::Error>(e))
                ||| column_converts::<A>(row, 0) && column_converts::<B>(row, 1) && column_gives(row, 2, Err::<C, rusqlite::Error>(e))
                ||| column_converts::<A>(row, 0) && column_converts::<B>(row, 1) && column_converts::<C>(row, 2) && column_gives(row, 3, Err::<D, rusqlite::Error>(e))
                ||| column_converts::<A>(row, 0) && column_converts::<B>(row, 1) && column_converts::<C>(row, 2) && column_converts::<D>(row, 3) && column_gives(row, 4, Err::<E, rusqlite::Error>(e))
                ||| column_converts::<A>(row, 0) && column_converts::<B>(row, 1) && column_converts::<C>(row, 2) && column_converts::<D>(row, 3) && column_converts::<E>(row, 4) && column_gives(row, 5, Err::<F, rusqlite::Error>(e))
            },
        },
{
    let v0 = match sqlite::column::<A>(row, 0) {
        Ok(value) => value,
        Err(e) => {
            assert(column_gives(row, 0, Err::<A, rusqlite::Error>(e)));
            return Err(e);
        },
    };
    assert(column_gives(row, 0, Ok::<A, rusqlite::Error>(v0)));
    let v1 = match sqlite::column::<B>(row, 1) {
        Ok(value) => value,
        Err(e) => {
            assert(column_gives(row, 1, Err::<B, rusqlite::Error>(e)));
            return Err(e);
        },
    };
    assert(column_gives(row, 1, Ok::<B, rusqlite::Error>(v1)));
    let v2 = match sqlite::column::<C>(row, 2) {
        Ok(value) => value,
        Err(e) => {
            assert(column_gives(row, 2, Err::<C, rusqlite::Error>(e)));
            return Err(e);
        },
    };
    assert(column_gives(row, 2, Ok::<C, rusqlite::Error>(v2)));
    let v3 = match sqlite::column::<D>(row, 3) {
        Ok(value) => value,
        Err(e) => {
            assert(column_gives(row, 3, Err::<D, rusqlite::Error>(e)));
            return Err(e);
        },
    };
    assert(column_gives(row, 3, Ok::<D, rusqlite::Error>(v3)));
    let v4 = match sqlite::column::<E>(row, 4) {
        Ok(value) => value,
        Err(e) => {
            assert(column_gives(row, 4, Err::<E, rusqlite::Error>(e)));
            return Err(e);
        },
    };
    assert(column_gives(row, 4, Ok::<E, rusqlite::Error>(v4)));
    let v5 = match sqlite::column::<F>(row, 5) {
        Ok(value) => value,
        Err(e) => {
            assert(column_gives(row, 5, Err::<F, rusqlite::Error>(e)));
            return Err(e);
        },
    };
    assert(column_gives(row, 5, Ok::<F, rusqlite::Error>(v5)));
    Ok((v0, v1, v2, v3, v4, v5))
}

/// Decodes the first 7 columns of `row` into a tuple: element `i`
/// from the column at position `i`, in order, stopping at the first column
/// that does not convert.
pub fn decode_tuple7<A: rusqlite::types::FromSql, B: rusqlite::types::FromSql, C: rusqlite::types::FromSql, D: rusqlite::types::FromSql, E: rusqlite::types::FromSql, F: rusqlite::types::FromSql, G: rusqlite::types::FromSql>(
    row: &rusqlite::Row<'_>,
) -> (res: Result<(A, B, C, D, E, F, G), rusqlite::Error>)
    ensures
        match res {
            Ok((v0, v1, v2, v3, v4, v5, v6)) => {
                &&& column_gives(row, 0, Ok::<A, rusqlite::Error>(v0))
                &&& column_gives(row, 1, Ok::<B, rusqlite::Error>(v1))
                &&& column_gives(row, 2, Ok::<C, rusqlite::Error>(v2))
                &&& column_gives(row, 3, Ok::<D, rusqlite::Error>(v3))
                &&& column_gives(row, 4, Ok::<E, rusqlite::Error>(v4))
                &&& column_gives(row, 5, Ok::<F, rusqlite::Error>(v5))
                &&& column_gives(row, 6, Ok::<G, rusqlite::Error>(v6))
            },
            Err(e) => {
                ||| column_gives(row, 0, Err::<A, rusqlite::Error>(e))
                ||| column_converts::<A>(row, 0) && column_gives(row, 1, Err::<B, rusqlite::Error>(e))
                ||| column_converts::<A>(row, 0) && column_converts::<B>(row, 1) && column_gives(row, 2, Err::<C, rusqlite::Error>(e))
                ||| column_converts::<A>(row, 0) && column_converts::<B>(row, 1) && column_converts::<C>(row, 2) && column_gives(row, 3, Err::<D, rusqlite::Error>(e))
                ||| column_converts::<A>(row, 0) && column_converts::<B>(row, 1) && column_converts::<C>(row, 2) && column_converts::<D>(row, 3) && column_gives(row, 4, Err::<E, rusqlite::Error>(e))
                ||| column_converts::<A>(row, 0) && column_converts::<B>(row, 1) && column_converts::<C>(row, 2) && column_converts::<D>(row, 3) && column_converts::<E>(row, 4) && column_gives(row, 5, Err::<F, rusqlite::Error>(e))
                ||| column_converts::<A>(row, 0) && column_converts::<B>(row, 1) && column_converts::<C>(row, 2) && column_converts::<D>(row, 3) && column_converts::<E>(row, 4) && column_converts::<F>(row, 5) && column_gives(row, 6, Err::<G, rusqlite::Error>(e))
            },
        },
{
    let v0 = match sqlite::column::<A>(row, 0) {
        Ok(value) => value,
        Err(e) => {
            assert(column_gives(row, 0, Err::<A, rusqlite::Error>(e)));
            return Err(e);
        },
    };
    assert(column_gives(row, 0, Ok::<A, rusqlite::Error>(v0)));
    let v1 = match sqlite::column::<B>(row, 1) {
        Ok(value) => value,
        Err(e) => {
            assert(column_gives(row, 1, Err::<B, rusqlite::Error>(e)));
            return Err(e);
        },
    };
    assert(column_gives(row, 1, Ok::<B, rusqlite::Error>(v1)));
    let v2 = match sqlite::column::<C>(row, 2) {
        Ok(value) => value,
        Err(e) => {
            assert(column_gives(row, 2, Err::<C, rusqlite::Error>(e)));
            return Err(e);
        },
    };
    assert(column_gives(row, 2, Ok::<C, rusqlite::Error>(v2)));
    let v3 = match sqlite::column::<D>(row, 3) {
        Ok(value) => value,
        Err(e) => {
            assert(column_gives(row, 3, Err::<D, rusqlite::Error>(e)));
            return Err(e);
        },
    };
    assert(column_gives(row, 3, Ok::<D, rusqlite::Error>(v3)));
    let v4 = match sqlite::column::<E>(row, 4) {
        Ok(value) => value,
        Err(e) => {
            assert(column_gives(row, 4, Err::<E, rusqlite::Error>(e)));
            return Err(e);
        },
    };
    assert(column_gives(row, 4, Ok::<E, rusqlite::Error>(v4)));
    let v5 = match sqlite::column::<F>(row, 5) {
        Ok(value) => value,
        Err(e) => {
            assert(column_gives(row, 5, Err::<F, rusqlite::Error>(e)));
            return Err(e);
        },
    };
    assert(column_gives(row, 5, Ok::<F, rusqlite::Error>(v5)));
    let v6 = match sqlite::column::<G>(row, 6) {
        Ok(value) => value,
        Err(e) => {
            assert(column_gives(row, 6, Err::<G, rusqlite::Error>(e)));
            return Err(e);
        },
    };
    assert(column_gives(row, 6, Ok::<G, rusqlite::Error>(v6)));
    Ok((v0, v1, v2, v3, v4, v5, v6))
}

/// Decodes the first 8 columns of `row` into a tuple: element `i`
/// from the column at position `i`, in order, stopping at the first column
/// that does not convert.
pub fn decode_tuple8<A: rusqlite::types::FromSql, B: rusqlite::types::FromSql, C: rusqlite::types::FromSql, D: rusqlite::types::FromSql, E: rusqlite::types::FromSql, F: rusqlite::types::FromSql, G: rusqlite::types::FromSql, H: rusqlite::types::FromSql>(
    row: &rusqlite::Row<'_>,
) -> (res: Result<(A, B, C, D, E, F, G, H), rusqlite::Error>)
    ensures
        match res {
            Ok((v0, v1, v2, v3, v4, v5, v6, v7)) => {
                &&& column_gives(row, 0, Ok::<A, rusqlite::Error>(v0))
                &&& column_gives(row, 1, Ok::<B, rusqlite::Error>(v1))
                &&& column_gives(row, 2, Ok::<C, rusqlite::Error>(v2))
                &&& column_gives(row, 3, Ok::<D, rusqlite::Error>(v3))
                &&& column_gives(row, 4, Ok::<E, rusqlite::Error>(v4))
                &&& column_gives(row, 5, Ok::<F, rusqlite::Error>(v5))
                &&& column_gives(row, 6, Ok::<G, rusqlite::Error>(v6))
                &&& column_gives(row, 7, Ok::<H, rusqlite::Error>(v7))
            },
            Err(e) => {
                ||| column_gives(row, 0, Err::<A, rusqlite::Error>(e))
                ||| column_converts::<A>(row, 0) && column_gives(row, 1, Err::<B, rusqlite::Error>(e))
                ||| column_converts::<A>(row, 0) && column_converts::<B>(row, 1) && column_gives(row, 2, Err::<C, rusqlite::Error>(e))
                ||| column_converts::<A>(row, 0) && column_converts::<B>(row, 1) && column_converts::<C>(row, 2) && column_gives(row, 3, Err::<D, rusqlite::Error>(e))
                ||| column_converts::<A>(row, 0) && column_converts::<B>(row, 1) && column_converts::<C>(row, 2) && column_converts::<D>(row, 3) && column_gives(row, 4, Err::<E, rusqlite::Error>(e))
                ||| column_converts::<A>(row, 0) && column_converts::<B>(row, 1) && column_converts::<C>(row, 2) && column_converts::<D>(row, 3) && column_converts::<E>(row, 4) && column_gives(row, 5, Err::<F, rusqlite::Error>(e))
                ||| column_converts::<A>(row, 0) && column_converts::<B>(row, 1) && column_converts::<C>(row, 2) && column_converts::<D>(row, 3) && column_converts::<E>(row, 4) && column_converts::<F>(row, 5) && column_gives(row, 6, Err::<G, rusqlite::Error>(e))
                ||| column_converts::<A>(row, 0) && column_converts::<B>(row, 1) && column_converts::<C>(row, 2) && column_converts::<D>(row, 3) && column_converts::<E>(row, 4) && column_converts::<F>(row, 5) && column_converts::<G>(row, 6) && column_gives(row, 7, Err::<H, rusqlite::Error>(e))
            },
        },
{
    let v0 = match sqlite::column::<A>(row, 0) {
        Ok(value) => value,
        Err(e) => {
            assert(column_gives(row, 0, Err::<A, rusqlite::Error>(e)));
            return Err(e);
        },
    };
    assert(column_gives(row, 0, Ok::<A, rusqlite::Error>(v0)));
    let v1 = match sqlite::column::<B>(row, 1) {
        Ok(value) => value,
        Err(e) => {
            assert(column_gives(row, 1, Err::<B, rusqlite::Error>(e)));
            return Err(e);
        },
    };
    assert(column_gives(row, 1, Ok::<B, rusqlite::Error>(v1)));
    let v2 = match sqlite::column::<C>(row, 2) {
        Ok(value) => value,
        Err(e) => {
            assert(column_gives(row, 2, Err::<C, rusqlite::Error>(e)));
            return Err(e);
        },
    };
    assert(column_gives(row, 2, Ok::<C, rusqlite::Error>(v2)));
    let v3 = match sqlite::column::<D>(row, 3) {
        Ok(value) => value,
        Err(e) => {
            assert(column_gives(row, 3, Err::<D, rusqlite::Error>(e)));
            return Err(e);
        },
    };
    assert(column_gives(row, 3, Ok::<D, rusqlite::Error>(v3)));
    let v4 = match sqlite::column::<E>(row, 4) {
        Ok(value) => value,
        Err(e) => {
            assert(column_gives(row, 4, Err::<E, rusqlite::Error>(e)));
            return Err(e);
        },
    };
    assert(column_gives(row, 4, Ok::<E, rusqlite::Error>(v4)));
    let v5 = match sqlite::column::<F>(row, 5) {
        Ok(value) => value,
        Err(e) => {
            assert(column_gives(row, 5, Err::<F, rusqlite::Error>(e)));
            return Err(e);
        },
    };
    assert(column_gives(row, 5, Ok::<F, rusqlite::Error>(v5)));
    let v6 = match sqlite::column::<G>(row, 6) {
        Ok(value) => value,
        Err(e) => {
            assert(column_gives(row, 6, Err::<G, rusqlite::Error>(e)));
            return Err(e);
        },
    };
    assert(column_gives(row, 6, Ok::<G, rusqlite::Error>(v6)));
    let v7 = match sqlite::column::<H>(row, 7) {
        Ok(value) => value,
        Err(e) => {
            assert(column_gives(row, 7, Err::<H, rusqlite::Error>(e)));
            return Err(e);
        },
    };
    assert(column_gives(row, 7, Ok::<H, rusqlite::Error>(v7)));
    Ok((v0, v1, v2, v3, v4, v5, v6, v7))
}

/// Decodes the first 9 columns of `row` into a tuple: element `i`
/// from the column at position `i`, in order, stopping at the first column
/// that does not convert.
pub fn decode_tuple9<A: rusqlite::types::FromSql, B: rusqlite::types::FromSql, C: rusqlite::types::FromSql, D: rusqlite::types::FromSql, E: rusqlite::types::FromSql, F: rusqlite::types::FromSql, G: rusqlite::types::FromSql, H: rusqlite::types::FromSql, I: rusqlite::types::FromSql>(
    row: &rusqlite::Row<'_>,
) -> (res: Result<(A, B, C, D, E, F, G, H, I), rusqlite::Error>)
    ensures
        match res {
            Ok((v0, v1, v2, v3, v4, v5, v6, v7, v8)) => {
                &&& column_gives(row, 0, Ok::<A, rusqlite::Error>(v0))
                &&& column_gives(row, 1, Ok::<B, rusqlite::Error>(v1))
                &&& column_gives(row, 2, Ok::<C, rusqlite::Error>(v2))
                &&& column_gives(row, 3, Ok::<D, rusqlite::Error>(v3))
                &&& column_gives(row, 4, Ok::<E, rusqlite::Error>(v4))
                &&& column_gives(row, 5, Ok::<F, rusqlite::Error>(v5))
                &&& column_gives(row, 6, Ok::<G, rusqlite::Error>(v6))
                &&& column_gives(row, 7, Ok::<H, rusqlite::Error>(v7))
                &&& column_gives(row, 8, Ok::<I, rusqlite::Error>(v8))
            },
            Err(e) => {
                ||| column_gives(row, 0, Err::<A, rusqlite::Error>(e))
                ||| column_converts::<A>(row, 0) && column_gives(row, 1, Err::<B, rusqlite::Error>(e))
                ||| column_converts::<A>(row, 0) && column_converts::<B>(row, 1) && column_gives(row, 2, Err::<C, rusqlite::Error>(e))
                ||| column_converts::<A>(row, 0) && column_converts::<B>(row, 1) && column_converts::<C>(row, 2) && column_gives(row, 3, Err::<D, rusqlite::Error>(e))
                ||| column_converts::<A>(row, 0) && column_converts::<B>(row, 1) && column_converts::<C>(row, 2) && column_converts::<D>(row, 3) && column_gives(row, 4, Err::<E, rusqlite::Error>(e))
                ||| column_converts::<A>(row, 0) && column_converts::<B>(row, 1) && column_converts::<C>(row, 2) && column_converts::<D>(row, 3) && column_converts::<E>(row, 4) && column_gives(row, 5, Err::<F, rusqlite::Error>(e))
                ||| column_converts::<A>(row, 0) && column_converts::<B>(row, 1) && column_converts::<C>(row, 2) && column_converts::<D>(row, 3) && column_converts::<E>(row, 4) && column_converts::<F>(row, 5) && column_gives(row, 6, Err::<G, rusqlite::Error>(e))
                ||| column_converts::<A>(row, 0) && column_converts::<B>(row, 1) && column_converts::<C>(row, 2) && column_converts::<D>(row, 3) && column_converts::<E>(row, 4) && column_converts::<F>(row, 5) && column_converts::<G>(row, 6) && column_gives(row, 7, Err::<H, rusqlite::Error>(e))
                ||| column_converts::<A>(row, 0) && column_converts::<B>(row, 1) && column_converts::<C>(row, 2) && column_converts::<D>(row, 3) && column_converts::<E>(row, 4) && column_converts::<F>(row, 5) && column_converts::<G>(row, 6) && column_converts::<H>(row, 7) && column_gives(row, 8, Err::<I, rusqlite::Error>(e))
            },
        },
{
    let v0 = match sqlite::column::<A>(row, 0) {
        Ok(value) => value,
        Err(e) => {
            assert(column_gives(row, 0, Err::<A, rusqlite::Error>(e)));
            return Err(e);
        },
    };
    assert(column_gives(row, 0, Ok::<A, rusqlite::Error>(v0)));
    let v1 = match sqlite::column::<B>(row, 1) {
        Ok(value) => value,
        Err(e) => {
            assert(column_gives(row, 1, Err::<B, rusqlite::Error>(e)));
            return Err(e);
        },
    };
    assert(column_gives(row, 1, Ok::<B, rusqlite::Error>(v1)));
    let v2 = match sqlite::column::<C>(row, 2) {
        Ok(value) => value,
        Err(e) => {
            assert(column_gives(row, 2, Err::<C, rusqlite::Error>(e)));
            return Err(e);
        },
    };
    assert(column_gives(row, 2, Ok::<C, rusqlite::Error>(v2)));
    let v3 = match sqlite::column::<D>(row, 3) {
        Ok(value) => value,
        Err(e) => {
            assert(column_gives(row, 3, Err::<D, rusqlite::Error>(e)));
            return Err(e);
        },
    };
    assert(column_gives(row, 3, Ok::<D, rusqlite::Error>(v3)));
    let v4 = match sqlite::column::<E>(row, 4) {
        Ok(value) => value,
        Err(e) => {
            assert(column_gives(row, 4, Err::<E, rusqlite::Error>(e)));
            return Err(e);
        },
    };
    assert(column_gives(row, 4, Ok::<E, rusqlite::Error>(v4)));
    let v5 = match sqlite::column::<F>(row, 5) {
        Ok(value) => value,
        Err(e) => {
            assert(column_gives(row, 5, Err::<F, rusqlite::Error>(e)));
            return Err(e);
        },
    };
    assert(column_gives(row, 5, Ok::<F, rusqlite::Error>(v5)));
    let v6 = match sqlite::column::<G>(row, 6) {
        Ok(value) => value,
        Err(e) => {
            assert(column_gives(row, 6, Err::<G, rusqlite::Error>(e)));
            return Err(e);
        },
    };
    assert(column_gives(row, 6, Ok::<G, rusqlite::Error>(v6)));
    let v7 = match sqlite::column::<H>(row, 7) {
        Ok(value) => value,
        Err(e) => {
            assert(column_gives(row, 7, Err::<H, rusqlite::Error>(e)));
            return Err(e);
        },
    };
    assert(column_gives(row, 7, Ok::<H, rusqlite::Error>(v7)));
    let v8 = match sqlite::column::<I>(row, 8) {
        Ok(value) => value,
        Err(e) => {
            assert(column_gives(row, 8, Err::<I, rusqlite::Error>(e)));
            return Err(e);
        },
    };
    assert(column_gives(row, 8, Ok::<I, rusqlite::Error>(v8)));
    Ok((v0, v1, v2, v3, v4, v5, v6, v7, v8))
}

/// Decodes the first 10 columns of `row` into a tuple: element `i`
/// from the column at position `i`, in order, stopping at the first column
/// that does not convert.
pub fn decode_tuple10<A: rusqlite::types::FromSql, B: rusqlite::types::FromSql, C: rusqlite::types::FromSql, D: rusqlite::types::FromSql, E: rusqlite::types::FromSql, F: rusqlite::types::FromSql, G: rusqlite::types::FromSql, H: rusqlite::types::FromSql, I: rusqlite::types::FromSql, J: rusqlite::types::FromSql>(
    row: &rusqlite::Row<'_>,
) -> (res: Result<(A, B, C, D, E, F, G, H, I, J), rusqlite::Error>)
    ensures
        match res {
            Ok((v0, v1, v2, v3, v4, v5, v6, v7, v8, v9)) => {
                &&& column_gives(row, 0, Ok::<A, rusqlite::Error>(v0))
                &&& column_gives(row, 1, Ok::<B, rusqlite::Error>(v1))
                &&& column_gives(row, 2, Ok::<C, rusqlite::Error>(v2))
                &&& column_gives(row, 3, Ok::<D, rusqlite::Error>(v3))
                &&& column_gives(row, 4, Ok::<E, rusqlite::Error>(v4))
                &&& column_gives(row, 5, Ok::<F, rusqlite::Error>(v5))
                &&& column_gives(row, 6, Ok::<G, rusqlite::Error>(v6))
                &&& column_gives(row, 7, Ok::<H, rusqlite::Error>(v7))
                &&& column_gives(row, 8, Ok::<I, rusqlite::Error>(v8))
                &&& column_gives(row, 9, Ok::<J, rusqlite::Error>(v9))
            },
            Err(e) => {
                ||| column_gives(row, 0, Err::<A, rusqlite::Error>(e))
                ||| column_converts::<A>(row, 0) && column_gives(row, 1, Err::<B, rusqlite::Error>(e))
                ||| column_converts::<A>(row, 0) && column_converts::<B>(row, 1) && column_gives(row, 2, Err::<C, rusqlite::Error>(e))
                ||| column_converts::<A>(row, 0) && column_converts::<B>(row, 1) && column_converts::<C>(row, 2) && column_gives(row, 3, Err::<D, rusqlite::Error>(e))
                ||| column_converts::<A>(row, 0) && column_converts::<B>(row, 1) && column_converts::<C>(row, 2) && column_converts::<D>(row, 3) && column_gives(row, 4, Err::<E, rusqlite::Error>(e))
                ||| column_converts::<A>(row, 0) && column_converts::<B>(row, 1) && column_converts::<C>(row, 2) && column_converts::<D>(row, 3) && column_converts::<E>(row, 4) && column_gives(row, 5, Err::<F, rusqlite::Error>(e))
                ||| column_converts::<A>(row, 0) && column_converts::<B>(row, 1) && column_converts::<C>(row, 2) && column_converts::<D>(row, 3) && column_converts::<E>(row, 4) && column_converts::<F>(row, 5) && column_gives(row, 6, Err::<G, rusqlite::Error>(e))
                ||| column_converts::<A>(row, 0) && column_converts::<B>(row, 1) && column_converts::<C>(row, 2) && column_converts::<D>(row, 3) && column_converts::<E>(row, 4) && column_converts::<F>(row, 5) && column_converts::<G>(row, 6) && column_gives(row, 7, Err::<H, rusqlite::Error>(e))
                ||| column_converts::<A>(row, 0) && column_converts::<B>(row, 1) && column_converts::<C>(row, 2) && column_converts::<D>(row, 3) && column_converts::<E>(row, 4) && column_converts::<F>(row, 5) && column_converts::<G>(row, 6) && column_converts::<H>(row, 7) && column_gives(row, 8, Err::<I, rusqlite::Error>(e))
                ||| column_converts::<A>(row, 0) && column_converts::<B>(row, 1) && column_converts::<C>(row, 2) && column_converts::<D>(row, 3) && column_converts::<E>(row, 4) && column_converts::<F>(row, 5) && column_converts::<G>(row, 6) && column_converts::<H>(row, 7) && column_converts::<I>(row, 8) && column_gives(row, 9, Err::<J, rusqlite::Error>(e))
            },
        },
{
    let v0 = match sqlite::column::<A>(row, 0) {
        Ok(value) => value,
        Err(e) => {
            assert(column_gives(row, 0, Err::<A, rusqlite::Error>(e)));
            return Err(e);
        },
    };
    assert(column_gives(row, 0, Ok::<A, rusqlite::Error>(v0)));
    let v1 = match sqlite::column::<B>(row, 1) {
        Ok(value) => value,
        Err(e) => {
            assert(column_gives(row, 1, Err::<B, rusqlite::Error>(e)));
            return Err(e);
        },
    };
    assert(column_gives(row, 1, Ok::<B, rusqlite::Error>(v1)));
    let v2 = match sqlite::column::<C>(row, 2) {
        Ok(value) => value,
        Err(e) => {
            assert(column_gives(row, 2, Err::<C, rusqlite::Error>(e)));
            return Err(e);
        },
    };
    assert(column_gives(row, 2, Ok::<C, rusqlite::Error>(v2)));
    let v3 = match sqlite::column::<D>(row, 3) {
        Ok(value) => value,
        Err(e) => {
            assert(column_gives(row, 3, Err::<D, rusqlite::Error>(e)));
            return Err(e);
        },
    };
    assert(column_gives(row, 3, Ok::<D, rusqlite::Error>(v3)));
    let v4 = match sqlite::column::<E>(row, 4) {
        Ok(value) => value,
        Err(e) => {
            assert(column_gives(row, 4, Err::<E, rusqlite::Error>(e)));
            return Err(e);
        },
    };
    assert(column_gives(row, 4, Ok::<E, rusqlite::Error>(v4)));
    let v5 = match sqlite::column::<F>(row, 5) {
        Ok(value) => value,
        Err(e) => {
            assert(column_gives(row, 5, Err::<F, rusqlite::Error>(e)));
            return Err(e);
        },
    };
    assert(column_gives(row, 5, Ok::<F, rusqlite::Error>(v5)));
    let v6 = match sqlite::column::<G>(row, 6) {
        Ok(value) => value,
        Err(e) => {
            assert(column_gives(row, 6, Err::<G, rusqlite::Error>(e)));
            return Err(e);
        },
    };
    assert(column_gives(row, 6, Ok::<G, rusqlite::Error>(v6)));
    let v7 = match sqlite::column::<H>(row, 7) {
        Ok(value) => value,
        Err(e) => {
            assert(column_gives(row, 7, Err::<H, rusqlite::Error>(e)));
            return Err(e);
        },
    };
    assert(column_gives(row, 7, Ok::<H, rusqlite::Error>(v7)));
    let v8 = match sqlite::column::<I>(row, 8) {
        Ok(value) => value,
        Err(e) => {
            assert(column_gives(row, 8, Err::<I, rusqlite::Error>(e)));
            return Err(e);
        },
    };
    assert(column_gives(row, 8, Ok::<I, rusqlite::Error>(v8)));
    let v9 = match sqlite::column::<J>(row, 9) {
        Ok(value) => value,
        Err(e) => {
            assert(column_gives(row, 9, Err::<J, rusqlite::Error>(e)));
            return Err(e);
        },
    };
    assert(column_gives(row, 9, Ok::<J, rusqlite::Error>(v9)));
    Ok((v0, v1, v2, v3, v4, v5, v6, v7, v8, v9))
}

/// Decodes the first 11 columns of `row` into a tuple: element `i`
/// from the column at position `i`, in order, stopping at the first column
/// that does not convert.
pub fn decode_tuple11<A: rusqlite::types::FromSql, B: rusqlite::types::FromSql, C: rusqlite::types::FromSql, D: rusqlite::types::FromSql, E: rusqlite::types::FromSql, F: rusqlite::types::FromSql, G: rusqlite::types::FromSql, H: rusqlite::types::FromSql, I: rusqlite::types::FromSql, J: rusqlite::types::FromSql, K: rusqlite::types::FromSql>(
    row: &rusqlite::Row<'_>,
) -> (res: Result<(A, B, C, D, E, F, G, H, I, J, K), rusqlite::Error>)
    ensures
        match res {
            Ok((v0, v1, v2, v3, v4, v5, v6, v7, v8, v9, v10)) => {
                &&& column_gives(row, 0, Ok::<A, rusqlite::Error>(v0))
                &&& column_gives(row, 1, Ok::<B, rusqlite::Error>(v1))
                &&& column_gives(row, 2, Ok::<C, rusqlite::Error>(v2))
                &&& column_gives(row, 3, Ok::<D, rusqlite::Error>(v3))
                &&& column_gives(row, 4, Ok::<E, rusqlite::Error>(v4))
                &&& column_gives(row, 5, Ok::<F, rusqlite::Error>(v5))
                &&& column_gives(row, 6, Ok::<G, rusqlite::Error>(v6))
                &&& column_gives(row, 7, Ok::<H, rusqlite::Error>(v7))
                &&& column_gives(row, 8, Ok::<I, rusqlite::Error>(v8))
                &&& column_gives(row, 9, Ok::<J, rusqlite::Error>(v9))
                &&& column_gives(row, 10, Ok::<K, rusqlite::Error>(v10))
            },
            Err(e) => {
                ||| column_gives(row, 0, Err::<A, rusqlite::Error>(e))
                ||| column_converts::<A>(row, 0) && column_gives(row, 1, Err::<B, rusqlite::Error>(e))
                ||| column_converts::<A>(row, 0) && column_converts::<B>(row, 1) && column_gives(row, 2, Err::<C, rusqlite::Error>(e))
                ||| column_converts::<A>(row, 0) && column_converts::<B>(row, 1) && column_converts::<C>(row, 2) && column_gives(row, 3, Err::<D, rusqlite::Error>(e))
                ||| column_converts::<A>(row, 0) && column_converts::<B>(row, 1) && column_converts::<C>(row, 2) && column_converts::<D>(row, 3) && column_gives(row, 4, Err::<E, rusqlite::Error>(e))
                ||| column_converts::<A>(row, 0) && column_converts::<B>(row, 1) && column_converts::<C>(row, 2) && column_converts::<D>(row, 3) && column_converts::<E>(row, 4) && column_gives(row, 5, Err::<F, rusqlite::Error>(e))
                ||| column_converts::<A>(row, 0) && column_converts::<B>(row, 1) && column_converts::<C>(row, 2) && column_converts::<D>(row, 3) && column_converts::<E>(row, 4) && column_converts::<F>(row, 5) && column_gives(row, 6, Err::<G, rusqlite::Error>(e))
                ||| column_converts::<A>(row, 0) && column_converts::<B>(row, 1) && column_converts::<C>(row, 2) && column_converts::<D>(row, 3) && column_converts::<E>(row, 4) && column_converts::<F>(row, 5) && column_converts::<G>(row, 6) && column_gives(row, 7, Err::<H, rusqlite::Error>(e))
                ||| column_converts::<A>(row, 0) && column_converts::<B>(row, 1) && column_converts::<C>(row, 2) && column_converts::<D>(row, 3) && column_converts::<E>(row, 4) && column_converts::<F>(row, 5) && column_converts::<G>(row, 6) && column_converts::<H>(row, 7) && column_gives(row, 8, Err::<I, rusqlite::Error>(e))
                ||| column_converts::<A>(row, 0) && column_converts::<B>(row, 1) && column_converts::<C>(row, 2) && column_converts::<D>(row, 3) && column_converts::<E>(row, 4) && column_converts::<F>(row, 5) && column_converts::<G>(row, 6) && column_converts::<H>(row, 7) && column_converts::<I>(row, 8) && column_gives(row, 9, Err::<J, rusqlite::Error>(e))
                ||| column_converts::<A>(row, 0) && column_converts::<B>(row, 1) && column_converts::<C>(row, 2) && column_converts::<D>(row, 3) && column_converts::<E>(row, 4) && column_converts::<F>(row, 5) && column_converts::<G>(row, 6) && column_converts::<H>(row, 7) && column_converts::<I>(row, 8) && column_converts::<J>(row, 9) && column_gives(row, 10, Err::<K, rusqlite::Error>(e))
            },
        },
{
    let v0 = match sqlite::column::<A>(row, 0) {
        Ok(value) => value,
        Err(e) => {
            assert(column_gives(row, 0, Err::<A, rusqlite::Error>(e)));
            return Err(e);
        },
    };
    assert(column_gives(row, 0, Ok::<A, rusqlite::Error>(v0)));
    let v1 = match sqlite::column::<B>(row, 1) {
        Ok(value) => value,
        Err(e) => {
            assert(column_gives(row, 1, Err::<B, rusqlite::Error>(e)));
            return Err(e);
        },
    };
    assert(column_gives(row, 1, Ok::<B, rusqlite::Error>(v1)));
    let v2 = match sqlite::column::<C>(row, 2) {
        Ok(value) => value,
        Err(e) => {
            assert(column_gives(row, 2, Err::<C, rusqlite::Error>(e)));
            return Err(e);
        },
    };
    assert(column_gives(row, 2, Ok::<C, rusqlite::Error>(v2)));
    let v3 = match sqlite::column::<D>(row, 3) {
        Ok(value) => value,
        Err(e) => {
            assert(column_gives(row, 3, Err::<D, rusqlite::Error>(e)));
            return Err(e);
        },
    };
    assert(column_gives(row, 3, Ok::<D, rusqlite::Error>(v3)));
    let v4 = match sqlite::column::<E>(row, 4) {
        Ok(value) => value,
        Err(e) => {
            assert(column_gives(row, 4, Err::<E, rusqlite::Error>(e)));
            return Err(e);
        },
    };
    assert(column_gives(row, 4, Ok::<E, rusqlite::Error>(v4)));
    let v5 = match sqlite::column::<F>(row, 5) {
        Ok(value) => value,
        Err(e) => {
            assert(column_gives(row, 5, Err::<F, rusqlite::Error>(e)));
            return Err(e);
        },
    };
    assert(column_gives(row, 5, Ok::<F, rusqlite::Error>(v5)));
    let v6 = match sqlite::column::<G>(row, 6) {
        Ok(value) => value,
        Err(e) => {
            assert(column_gives(row, 6, Err::<G, rusqlite::Error>(e)));
            return Err(e);
        },
    };
    assert(column_gives(row, 6, Ok::<G, rusqlite::Error>(v6)));
    let v7 = match sqlite::column::<H>(row, 7) {
        Ok(value) => value,
        Err(e) => {
            assert(column_gives(row, 7, Err::<H, rusqlite::Error>(e)));
            return Err(e);
        },
    };
    assert(column_gives(row, 7, Ok::<H, rusqlite::Error>(v7)));
    let v8 = match sqlite::column::<I>(row, 8) {
        Ok(value) => value,
        Err(e) => {
            assert(column_gives(row, 8, Err::<I, rusqlite::Error>(e)));
            return Err(e);
        },
    };
    assert(column_gives(row, 8, Ok::<I, rusqlite::Error>(v8)));
    let v9 = match sqlite::column::<J>(row, 9) {
        Ok(value) => value,
        Err(e) => {
            assert(column_gives(row, 9, Err::<J, rusqlite::Error>(e)));
            return Err(e);
        },
    };
    assert(column_gives(row, 9, Ok::<J, rusqlite::Error>(v9)));
    let v10 = match sqlite::column::<K>(row, 10) {
        Ok(value) => value,
        Err(e) => {
            assert(column_gives(row, 10, Err::<K, rusqlite::Error>(e)));
            return Err(e);
        },
    };
    assert(column_gives(row, 10, Ok::<K, rusqlite::Error>(v10)));
    Ok((v0, v1, v2, v3, v4, v5, v6, v7, v8, v9, v10))
}

/// Decodes the first 12 columns of `row` into a tuple: element `i`
/// from the column at position `i`, in order, stopping at the first column
/// that does not convert.
pub fn decode_tuple12<A: rusqlite::types::FromSql, B: rusqlite::types::FromSql, C: rusqlite::types::FromSql, D: rusqlite::types::FromSql, E: rusqlite::types::FromSql, F: rusqlite::types::FromSql, G: rusqlite::types::FromSql, H: rusqlite::types::FromSql, I: rusqlite::types::FromSql, J: rusqlite::types::FromSql, K: rusqlite::types::FromSql, L: rusqlite::types::FromSql>(
    row: &rusqlite::Row<'_>,
) -> (res: Result<(A, B, C, D, E, F, G, H, I, J, K, L), rusqlite::Error>)
    ensures
        match res {
            Ok((v0, v1, v2, v3, v4, v5, v6, v7, v8, v9, v10, v11)) => {
                &&& column_gives(row, 0, Ok::<A, rusqlite::Error>(v0))
                &&& column_gives(row, 1, Ok::<B, rusqlite::Error>(v1))
                &&& column_gives(row, 2, Ok::<C, rusqlite::Error>(v2))
                &&& column_gives(row, 3, Ok::<D, rusqlite::Error>(v3))
                &&& column_gives(row, 4, Ok::<E, rusqlite::Error>(v4))
                &&& column_gives(row, 5, Ok::<F, rusqlite::Error>(v5))
                &&& column_gives(row, 6, Ok::<G, rusqlite::Error>(v6))
                &&& column_gives(row, 7, Ok::<H, rusqlite::Error>(v7))
                &&& column_gives(row, 8, Ok::<I, rusqlite::Error>(v8))
                &&& column_gives(row, 9, Ok::<J, rusqlite::Error>(v9))
                &&& column_gives(row, 10, Ok::<K, rusqlite::Error>(v10))
                &&& column_gives(row, 11, Ok::<L, rusqlite::Error>(v11))
            },
            Err(e) => {
                ||| column_gives(row, 0, Err::<A, rusqlite::Error>(e))
                ||| column_converts::<A>(row, 0) && column_gives(row, 1, Err::<B, rusqlite::Error>(e))
                ||| column_converts::<A>(row, 0) && column_converts::<B>(row, 1) && column_gives(row, 2, Err::<C, rusqlite::Error>(e))
                ||| column_converts::<A>(row, 0) && column_converts::<B>(row, 1) && column_converts::<C>(row, 2) && column_gives(row, 3, Err::<D, rusqlite::Error>(e))
                ||| column_converts::<A>(row, 0) && column_converts::<B>(row, 1) && column_converts::<C>(row, 2) && column_converts::<D>(row, 3) && column_gives(row, 4, Err::<E, rusqlite::Error>(e))
                ||| column_converts::<A>(row, 0) && column_converts::<B>(row, 1) && column_converts::<C>(row, 2) && column_converts::<D>(row, 3) && column_converts::<E>(row, 4) && column_gives(row, 5, Err::<F, rusqlite::Error>(e))
                ||| column_converts::<A>(row, 0) && column_converts::<B>(row, 1) && column_converts::<C>(row, 2) && column_converts::<D>(row, 3) && column_converts::<E>(row, 4) && column_converts::<F>(row, 5) && column_gives(row, 6, Err::<G, rusqlite::Error>(e))
                ||| column_converts::<A>(row, 0) && column_converts::<B>(row, 1) && column_converts::<C>(row, 2) && column_converts::<D>(row, 3) && column_converts::<E>(row, 4) && column_converts::<F>(row, 5) && column_converts::<G>(row, 6) && column_gives(row, 7, Err::<H, rusqlite::Error>(e))
                ||| column_converts::<A>(row, 0) && column_converts::<B>(row, 1) && column_converts::<C>(row, 2) && column_converts::<D>(row, 3) && column_converts::<E>(row, 4) && column_converts::<F>(row, 5) && column_converts::<G>(row, 6) && column_converts::<H>(row, 7) && column_gives(row, 8, Err::<I, rusqlite::Error>(e))
                ||| column_converts::<A>(row, 0) && column_converts::<B>(row, 1) && column_converts::<C>(row, 2) && column_converts::<D>(row, 3) && column_converts::<E>(row, 4) && column_converts::<F>(row, 5) && column_converts::<G>(row, 6) && column_converts::<H>(row, 7) && column_converts::<I>(row, 8) && column_gives(row, 9, Err::<J, rusqlite::Error>(e))
                ||| column_converts::<A>(row, 0) && column_converts::<B>(row, 1) && column_converts::<C>(row, 2) && column_converts::<D>(row, 3) && column_converts::<E>(row, 4) && column_converts::<F>(row, 5) && column_converts::<G>(row, 6) && column_converts::<H>(row, 7) && column_converts::<I>(row, 8) && column_converts::<J>(row, 9) && column_gives(row, 10, Err::<K, rusqlite::Error>(e))
                ||| column_converts::<A>(row, 0) && column_converts::<B>(row, 1) && column_converts::<C>(row, 2) && column_converts::<D>(row, 3) && column_converts::<E>(row, 4) && column_converts::<F>(row, 5) && column_converts::<G>(row, 6) && column_converts::<H>(row, 7) && column_converts::<I>(row, 8) && column_converts::<J>(row, 9) && column_converts::<K>(row, 10) && column_gives(row, 11, Err::<L, rusqlite::Error>(e))
            },
        },
{
    let v0 = match sqlite::column::<A>(row, 0) {
        Ok(value) => value,
        Err(e) => {
            assert(column_gives(row, 0, Err::<A, rusqlite::Error>(e)));
            return Err(e);
        },
    };
    assert(column_gives(row, 0, Ok::<A, rusqlite::Error>(v0)));
    let v1 = match sqlite::column::<B>(row, 1) {
        Ok(value) => value,
        Err(e) => {
            assert(column_gives(row, 1, Err::<B, rusqlite::Error>(e)));
            return Err(e);
        },
    };
    assert(column_gives(row, 1, Ok::<B, rusqlite::Error>(v1)));
    let v2 = match sqlite::column::<C>(row, 2) {
        Ok(value) => value,
        Err(e) => {
            assert(column_gives(row, 2, Err::<C, rusqlite::Error>(e)));
            return Err(e);
        },
    };
    assert(column_gives(row, 2, Ok::<C, rusqlite::Error>(v2)));
    let v3 = match sqlite::column::<D>(row, 3) {
        Ok(value) => value,
        Err(e) => {
            assert(column_gives(row, 3, Err::<D, rusqlite::Error>(e)));
            return Err(e);
        },
    };
    assert(column_gives(row, 3, Ok::<D, rusqlite::Error>(v3)));
    let v4 = match sqlite::column::<E>(row, 4) {
        Ok(value) => value,
        Err(e) => {
            assert(column_gives(row, 4, Err::<E, rusqlite::Error>(e)));
            return Err(e);
        },
    };
    assert(column_gives(row, 4, Ok::<E, rusqlite::Error>(v4)));
    let v5 = match sqlite::column::<F>(row, 5) {
        Ok(value) => value,
        Err(e) => {
            assert(column_gives(row, 5, Err::<F, rusqlite::Error>(e)));
            return Err(e);
        },
    };
    assert(column_gives(row, 5, Ok::<F, rusqlite::Error>(v5)));
    let v6 = match sqlite::column::<G>(row, 6) {
        Ok(value) => value,
        Err(e) => {
            assert(column_gives(row, 6, Err::<G, rusqlite::Error>(e)));
            return Err(e);
        },
    };
    assert(column_gives(row, 6, Ok::<G, rusqlite::Error>(v6)));
    let v7 = match sqlite::column::<H>(row, 7) {
        Ok(value) => value,
        Err(e) => {
            assert(column_gives(row, 7, Err::<H, rusqlite::Error>(e)));
            return Err(e);
        },
    };
    assert(column_gives(row, 7, Ok::<H, rusqlite::Error>(v7)));
    let v8 = match sqlite::column::<I>(row, 8) {
        Ok(value) => value,
        Err(e) => {
            assert(column_gives(row, 8, Err::<I, rusqlite::Error>(e)));
            return Err(e);
        },
    };
    assert(column_gives(row, 8, Ok::<I, rusqlite::Error>(v8)));
    let v9 = match sqlite::column::<J>(row, 9) {
        Ok(value) => value,
        Err(e) => {
            assert(column_gives(row, 9, Err::<J, rusqlite::Error>(e)));
            return Err(e);
        },
    };
    assert(column_gives(row, 9, Ok::<J, rusqlite::Error>(v9)));
    let v10 = match sqlite::column::<K>(row, 10) {
        Ok(value) => value,
        Err(e) => {
            assert(column_gives(row, 10, Err::<K, rusqlite::Error>(e)));
            return Err(e);
        },
    };
    assert(column_gives(row, 10, Ok::<K, rusqlite::Error>(v10)));
    let v11 = match sqlite::column::<L>(row, 11) {
        Ok(value) => value,
        Err(e) => {
            assert(column_gives(row, 11, Err::<L, rusqlite::Error>(e)));
            return Err(e);
        },
    };
    assert(column_gives(row, 11, Ok::<L, rusqlite::Error>(v11)));
    Ok((v0, v1, v2, v3, v4, v5, v6, v7, v8, v9, v10, v11))
}

/// Decodes the first 13 columns of `row` into a tuple: element `i`
/// from the column at position `i`, in order, stopping at the first column
/// that does not convert.
pub fn decode_tuple13<A: rusqlite::types::FromSql, B: rusqlite::types::FromSql, C: rusqlite::types::FromSql, D: rusqlite::types::FromSql, E: rusqlite::types::FromSql, F: rusqlite::types::FromSql, G: rusqlite::types::FromSql, H: rusqlite::types::FromSql, I: rusqlite::types::FromSql, J: rusqlite::types::FromSql, K: rusqlite::types::FromSql, L: rusqlite::types::FromSql, M: rusqlite::types::FromSql>(
    row: &rusqlite::Row<'_>,
) -> (res: Result<(A, B, C, D, E, F, G, H, I, J, K, L, M), rusqlite::Error>)
    ensures
        match res {
            Ok((v0, v1, v2, v3, v4, v5, v6, v7, v8, v9, v10, v11, v12)) => {
                &&& column_gives(row, 0, Ok::<A, rusqlite::Error>(v0))
                &&& column_gives(row, 1, Ok::<B, rusqlite::Error>(v1))
                &&& column_gives(row, 2, Ok::<C, rusqlite::Error>(v2))
                &&& column_gives(row, 3, Ok::<D, rusqlite::Error>(v3))
                &&& column_gives(row, 4, Ok::<E, rusqlite::Error>(v4))
                &&& column_gives(row, 5, Ok::<F, rusqlite::Error>(v5))
                &&& column_gives(row, 6, Ok::<G, rusqlite::Error>(v6))
                &&& column_gives(row, 7, Ok::<H, rusqlite::Error>(v7))
                &&& column_gives(row, 8, Ok::<I, rusqlite::Error>(v8))
                &&& column_gives(row, 9, Ok::<J, rusqlite::Error>(v9))
                &&& column_gives(row, 10, Ok::<K, rusqlite::Error>(v10))
                &&& column_gives(row, 11, Ok::<L, rusqlite::Error>(v11))
                &&& column_gives(row, 12, Ok::<M, rusqlite::Error>(v12))
            },
            Err(e) => {
                ||| column_gives(row, 0, Err::<A, rusqlite::Error>(e))
                ||| column_converts::<A>(row, 0) && column_gives(row, 1, Err::<B, rusqlite::Error>(e))
                ||| column_converts::<A>(row, 0) && column_converts::<B>(row, 1) && column_gives(row, 2, Err::<C, rusqlite::Error>(e))
                ||| column_converts::<A>(row, 0) && column_converts::<B>(row, 1) && column_converts::<C>(row, 2) && column_gives(row, 3, Err::<D, rusqlite::Error>(e))
                ||| column_converts::<A>(row, 0) && column_converts::<B>(row, 1) && column_converts::<C>(row, 2) && column_converts::<D>(row, 3) && column_gives(row, 4, Err::<E, rusqlite::Error>(e))
                ||| column_converts::<A>(row, 0) && column_converts::<B>(row, 1) && column_converts::<C>(row, 2) && column_converts::<D>(row, 3) && column_converts::<E>(row, 4) && column_gives(row, 5, Err::<F, rusqlite::Error>(e))
                ||| column_converts::<A>(row, 0) && column_converts::<B>(row, 1) && column_converts::<C>(row, 2) && column_converts::<D>(row, 3) && column_converts::<E>(row, 4) && column_converts::<F>(row, 5) && column_gives(row, 6, Err::<G, rusqlite::Error>(e))
                ||| column_converts::<A>(row, 0) && column_converts::<B>(row, 1) && column_converts::<C>(row, 2) && column_converts::<D>(row, 3) && column_converts::<E>(row, 4) && column_converts::<F>(row, 5) && column_converts::<G>(row, 6) && column_gives(row, 7, Err::<H, rusqlite::Error>(e))
                ||| column_converts::<A>(row, 0) && column_converts::<B>(row, 1) && column_converts::<C>(row, 2) && column_converts::<D>(row, 3) && column_converts::<E>(row, 4) && column_converts::<F>(row, 5) && column_converts::<G>(row, 6) && column_converts::<H>(row, 7) && column_gives(row, 8, Err::<I, rusqlite::Error>(e))
                ||| column_converts::<A>(row, 0) && column_converts::<B>(row, 1) && column_converts::<C>(row, 2) && column_converts::<D>(row, 3) && column_converts::<E>(row, 4) && column_converts::<F>(row, 5) && column_converts::<G>(row, 6) && column_converts::<H>(row, 7) && column_converts::<I>(row, 8) && column_gives(row, 9, Err::<J, rusqlite::Error>(e))
                ||| column_converts::<A>(row, 0) && column_converts::<B>(row, 1) && column_converts::<C>(row, 2) && column_converts::<D>(row, 3) && column_converts::<E>(row, 4) && column_converts::<F>(row, 5) && column_converts::<G>(row, 6) && column_converts::<H>(row, 7) && column_converts::<I>(row, 8) && column_converts::<J>(row, 9) && column_gives(row, 10, Err::<K, rusqlite::Error>(e))
                ||| column_converts::<A>(row, 0) && column_converts::<B>(row, 1) && column_converts::<C>(row, 2) && column_converts::<D>(row, 3) && column_converts::<E>(row, 4) && column_converts::<F>(row, 5) && column_converts::<G>(row, 6) && column_converts::<H>(row, 7) && column_converts::<I>(row, 8) && column_converts::<J>(row, 9) && column_converts::<K>(row, 10) && column_gives(row, 11, Err::<L, rusqlite::Error>(e))
                ||| column_converts::<A>(row, 0) && column_converts::<B>(row, 1) && column_converts::<C>(row, 2) && column_converts::<D>(row, 3) && column_converts::<E>(row, 4) && column_converts::<F>(row, 5) && column_converts::<G>(row, 6) && column_converts::<H>(row, 7) && column_converts::<I>(row, 8) && column_converts::<J>(row, 9) && column_converts::<K>(row, 10) && column_converts::<L>(row, 11) && column_gives(row, 12, Err::<M, rusqlite::Error>(e))
            },
        },
{
    let v0 = match sqlite::column::<A>(row, 0) {
        Ok(value) => value,
        Err(e) => {
            assert(column_gives(row, 0, Err::<A, rusqlite::Error>(e)));
            return Err(e);
        },
    };
    assert(column_gives(row, 0, Ok::<A, rusqlite::Error>(v0)));
    let v1 = match sqlite::column::<B>(row, 1) {
        Ok(value) => value,
        Err(e) => {
            assert(column_gives(row, 1, Err::<B, rusqlite::Error>(e)));
            return Err(e);
        },
    };
    assert(column_gives(row, 1, Ok::<B, rusqlite::Error>(v1)));
    let v2 = match sqlite::column::<C>(row, 2) {
        Ok(value) => value,
        Err(e) => {
            assert(column_gives(row, 2, Err::<C, rusqlite::Error>(e)));
            return Err(e);
        },
    };
    assert(column_gives(row, 2, Ok::<C, rusqlite::Error>(v2)));
    let v3 = match sqlite::column::<D>(row, 3) {
        Ok(value) => value,
        Err(e) => {
            assert(column_gives(row, 3, Err::<D, rusqlite::Error>(e)));
            return Err(e);
        },
    };
    assert(column_gives(row, 3, Ok::<D, rusqlite::Error>(v3)));
    let v4 = match sqlite::column::<E>(row, 4) {
        Ok(value) => value,
        Err(e) => {
            assert(column_gives(row, 4, Err::<E, rusqlite::Error>(e)));
            return Err(e);
        },
    };
    assert(column_gives(row, 4, Ok::<E, rusqlite::Error>(v4)));
    let v5 = match sqlite::column::<F>(row, 5) {
        Ok(value) => value,
        Err(e) => {
            assert(column_gives(row, 5, Err::<F, rusqlite::Error>(e)));
            return Err(e);
        },
    };
    assert(column_gives(row, 5, Ok::<F, rusqlite::Error>(v5)));
    let v6 = match sqlite::column::<G>(row, 6) {
        Ok(value) => value,
        Err(e) => {
            assert(column_gives(row, 6, Err::<G, rusqlite::Error>(e)));
            return Err(e);
        },
    };
    assert(column_gives(row, 6, Ok::<G, rusqlite::Error>(v6)));
    let v7 = match sqlite::column::<H>(row, 7) {
        Ok(value) => value,
        Err(e) => {
            assert(column_gives(row, 7, Err::<H, rusqlite::Error>(e)));
            return Err(e);
        },
    };
    assert(column_gives(row, 7, Ok::<H, rusqlite::Error>(v7)));
    let v8 = match sqlite::column::<I>(row, 8) {
        Ok(value) => value,
        Err(e) => {
            assert(column_gives(row, 8, Err::<I, rusqlite::Error>(e)));
            return Err(e);
        },
    };
    assert(column_gives(row, 8, Ok::<I, rusqlite::Error>(v8)));
    let v9 = match sqlite::column::<J>(row, 9) {
        Ok(value) => value,
        Err(e) => {
            assert(column_gives(row, 9, Err::<J, rusqlite::Error>(e)));
            return Err(e);
        },
    };
    assert(column_gives(row, 9, Ok::<J, rusqlite::Error>(v9)));
    let v10 = match sqlite::column::<K>(row, 10) {
        Ok(value) => value,
        Err(e) => {
            assert(column_gives(row, 10, Err::<K, rusqlite::Error>(e)));
            return Err(e);
        },
    };
    assert(column_gives(row, 10, Ok::<K, rusqlite::Error>(v10)));
    let v11 = match sqlite::column::<L>(row, 11) {
        Ok(value) => value,
        Err(e) => {
            assert(column_gives(row, 11, Err::<L, rusqlite::Error>(e)));
            return Err(e);
        },
    };
    assert(column_gives(row, 11, Ok::<L, rusqlite::Error>(v11)));
    let v12 = match sqlite::column::<M>(row, 12) {
        Ok(value) => value,
        Err(e) => {
            assert(column_gives(row, 12, Err::<M, rusqlite::Error>(e)));
            return Err(e);
        },
    };
    assert(column_gives(row, 12, Ok::<M, rusqlite::Error>(v12)));
    Ok((v0, v1, v2, v3, v4, v5, v6, v7, v8, v9, v10, v11, v12))
}

/// Decodes the first 14 columns of `row` into a tuple: element `i`
/// from the column at position `i`, in order, stopping at the first column
/// that does not convert.
pub fn decode_tuple14<A: rusqlite::types::FromSql, B: rusqlite::types::FromSql, C: rusqlite::types::FromSql, D: rusqlite::types::FromSql, E: rusqlite::types::FromSql, F: rusqlite::types::FromSql, G: rusqlite::types::FromSql, H: rusqlite::types::FromSql, I: rusqlite::types::FromSql, J: rusqlite::types::FromSql, K: rusqlite::types::FromSql, L: rusqlite::types::FromSql, M: rusqlite::types::FromSql, N: rusqlite::types::FromSql>(
    row: &rusqlite::Row<'_>,
) -> (res: Result<(A, B, C, D, E, F, G, H, I, J, K, L, M, N), rusqlite::Error>)
    ensures
        match res {
            Ok((v0, v1, v2, v3, v4, v5, v6, v7, v8, v9, v10, v11, v12, v13)) => {
                &&& column_gives(row, 0, Ok::<A, rusqlite::Error>(v0))
                &&& column_gives(row, 1, Ok::<B, rusqlite::Error>(v1))
                &&& column_gives(row, 2, Ok::<C, rusqlite::Error>(v2))
                &&& column_gives(row, 3, Ok::<D, rusqlite::Error>(v3))
                &&& column_gives(row, 4, Ok::<E, rusqlite::Error>(v4))
                &&& column_gives(row, 5, Ok::<F, rusqlite::Error>(v5))
                &&& column_gives(row, 6, Ok::<G, rusqlite::Error>(v6))
                &&& column_gives(row, 7, Ok::<H, rusqlite::Error>(v7))
                &&& column_gives(row, 8, Ok::<I, rusqlite::Error>(v8))
                &&& column_gives(row, 9, Ok::<J, rusqlite::Error>(v9))
                &&& column_gives(row, 10, Ok::<K, rusqlite::Error>(v10))
                &&& column_gives(row, 11, Ok::<L, rusqlite::Error>(v11))
                &&& column_gives(row, 12, Ok::<M, rusqlite::Error>(v12))
                &&& column_gives(row, 13, Ok::<N, rusqlite::Error>(v13))
            },
            Err(e) => {
                ||| column_gives(row, 0, Err::<A, rusqlite::Error>(e))
                ||| column_converts::<A>(row, 0) && column_gives(row, 1, Err::<B, rusqlite::Error>(e))
                ||| column_converts::<A>(row, 0) && column_converts::<B>(row, 1) && column_gives(row, 2, Err::<C, rusqlite::Error>(e))
                ||| column_converts::<A>(row, 0) && column_converts::<B>(row, 1) && column_converts::<C>(row, 2) && column_gives(row, 3, Err::<D, rusqlite::Error>(e))
                ||| column_converts::<A>(row, 0) && column_converts::<B>(row, 1) && column_converts::<C>(row, 2) && column_converts::<D>(row, 3) && column_gives(row, 4, Err::<E, rusqlite::Error>(e))
                ||| column_converts::<A>(row, 0) && column_converts::<B>(row, 1) && column_converts::<C>(row, 2) && column_converts::<D>(row, 3) && column_converts::<E>(row, 4) && column_gives(row, 5, Err::<F, rusqlite::Error>(e))
                ||| column_converts::<A>(row, 0) && column_converts::<B>(row, 1) && column_converts::<C>(row, 2) && column_converts::<D>(row, 3) && column_converts::<E>(row, 4) && column_converts::<F>(row, 5) && column_gives(row, 6, Err::<G, rusqlite::Error>(e))
                ||| column_converts::<A>(row, 0) && column_converts::<B>(row, 1) && column_converts::<C>(row, 2) && column_converts::<D>(row, 3) && column_converts::<E>(row, 4) && column_converts::<F>(row, 5) && column_converts::<G>(row, 6) && column_gives(row, 7, Err::<H, rusqlite::Error>(e))
                ||| column_converts::<A>(row, 0) && column_converts::<B>(row, 1) && column_converts::<C>(row, 2) && column_converts::<D>(row, 3) && column_converts::<E>(row, 4) && column_converts::<F>(row, 5) && column_converts::<G>(row, 6) && column_converts::<H>(row, 7) && column_gives(row, 8, Err::<I, rusqlite::Error>(e))
                ||| column_converts::<A>(row, 0) && column_converts::<B>(row, 1) && column_converts::<C>(row, 2) && column_converts::<D>(row, 3) && column_converts::<E>(row, 4) && column_converts::<F>(row, 5) && column_converts::<G>(row, 6) && column_converts::<H>(row, 7) && column_converts::<I>(row, 8) && column_gives(row, 9, Err::<J, rusqlite::Error>(e))
                ||| column_converts::<A>(row, 0) && column_converts::<B>(row, 1) && column_converts::<C>(row, 2) && column_converts::<D>(row, 3) && column_converts::<E>(row, 4) && column_converts::<F>(row, 5) && column_converts::<G>(row, 6) && column_converts::<H>(row, 7) && column_converts::<I>(row, 8) && column_converts::<J>(row, 9) && column_gives(row, 10, Err::<K, rusqlite::Error>(e))
                ||| column_converts::<A>(row, 0) && column_converts::<B>(row, 1) && column_converts::<C>(row, 2) && column_converts::<D>(row, 3) && column_converts::<E>(row, 4) && column_converts::<F>(row, 5) && column_converts::<G>(row, 6) && column_converts::<H>(row, 7) && column_converts::<I>(row, 8) && column_converts::<J>(row, 9) && column_converts::<K>(row, 10) && column_gives(row, 11, Err::<L, rusqlite::Error>(e))
                ||| column_converts::<A>(row, 0) && column_converts::<B>(row, 1) && column_converts::<C>(row, 2) && column_converts::<D>(row, 3) && column_converts::<E>(row, 4) && column_converts::<F>(row, 5) && column_converts::<G>(row, 6) && column_converts::<H>(row, 7) && column_converts::<I>(row, 8) && column_converts::<J>(row, 9) && column_converts::<K>(row, 10) && column_converts::<L>(row, 11) && column_gives(row, 12, Err::<M, rusqlite::Error>(e))
                ||| column_converts::<A>(row, 0) && column_converts::<B>(row, 1) && column_converts::<C>(row, 2) && column_converts::<D>(row, 3) && column_converts::<E>(row, 4) && column_converts::<F>(row, 5) && column_converts::<G>(row, 6) && column_converts::<H>(row, 7) && column_converts::<I>(row, 8) && column_converts::<J>(row, 9) && column_converts::<K>(row, 10) && column_converts::<L>(row, 11) && column_converts::<M>(row, 12) && column_gives(row, 13, Err::<N, rusqlite::Error>(e))
            },
        },
{
    let v0 = match sqlite::column::<A>(row, 0) {
        Ok(value) => value,
        Err(e) => {
            assert(column_gives(row, 0, Err::<A, rusqlite::Error>(e)));
            return Err(e);
        },
    };
    assert(column_gives(row, 0, Ok::<A, rusqlite::Error>(v0)));
    let v1 = match sqlite::column::<B>(row, 1) {
        Ok(value) => value,
        Err(e) => {
            assert(column_gives(row, 1, Err::<B, rusqlite::Error>(e)));
            return Err(e);
        },
    };
    assert(column_gives(row, 1, Ok::<B, rusqlite::Error>(v1)));
    let v2 = match sqlite::column::<C>(row, 2) {
        Ok(value) => value,
        Err(e) => {
            assert(column_gives(row, 2, Err::<C, rusqlite::Error>(e)));
            return Err(e);
        },
    };
    assert(column_gives(row, 2, Ok::<C, rusqlite::Error>(v2)));
    let v3 = match sqlite::column::<D>(row, 3) {
        Ok(value) => value,
        Err(e) => {
            assert(column_gives(row, 3, Err::<D, rusqlite::Error>(e)));
            return Err(e);
        },
    };
    assert(column_gives(row, 3, Ok::<D, rusqlite::Error>(v3)));
    let v4 = match sqlite::column::<E>(row, 4) {
        Ok(value) => value,
        Err(e) => {
            assert(column_gives(row, 4, Err::<E, rusqlite::Error>(e)));
            return Err(e);
        },
    };
    assert(column_gives(row, 4, Ok::<E, rusqlite::Error>(v4)));
    let v5 = match sqlite::column::<F>(row, 5) {
        Ok(value) => value,
        Err(e) => {
            assert(column_gives(row, 5, Err::<F, rusqlite::Error>(e)));
            return Err(e);
        },
    };
    assert(column_gives(row, 5, Ok::<F, rusqlite::Error>(v5)));
    let v6 = match sqlite::column::<G>(row, 6) {
        Ok(value) => value,
        Err(e) => {
            assert(column_gives(row, 6, Err::<G, rusqlite::Error>(e)));
            return Err(e);
        },
    };
    assert(column_gives(row, 6, Ok::<G, rusqlite::Error>(v6)));
    let v7 = match sqlite::column::<H>(row, 7) {
        Ok(value) => value,
        Err(e) => {
            assert(column_gives(row, 7, Err::<H, rusqlite::Error>(e)));
            return Err(e);
        },
    };
    assert(column_gives(row, 7, Ok::<H, rusqlite::Error>(v7)));
    let v8 = match sqlite::column::<I>(row, 8) {
        Ok(value) => value,
        Err(e) => {
            assert(column_gives(row, 8, Err::<I, rusqlite::Error>(e)));
            return Err(e);
        },
    };
    assert(column_gives(row, 8, Ok::<I, rusqlite::Error>(v8)));
    let v9 = match sqlite::column::<J>(row, 9) {
        Ok(value) => value,
        Err(e) => {
            assert(column_gives(row, 9, Err::<J, rusqlite::Error>(e)));
            return Err(e);
        },
    };
    assert(column_gives(row, 9, Ok::<J, rusqlite::Error>(v9)));
    let v10 = match sqlite::column::<K>(row, 10) {
        Ok(value) => value,
        Err(e) => {
            assert(column_gives(row, 10, Err::<K, rusqlite::Error>(e)));
            return Err(e);
        },
    };
    assert(column_gives(row, 10, Ok::<K, rusqlite::Error>(v10)));
    let v11 = match sqlite::column::<L>(row, 11) {
        Ok(value) => value,
        Err(e) => {
            assert(column_gives(row, 11, Err::<L, rusqlite::Error>(e)));
            return Err(e);
        },
    };
    assert(column_gives(row, 11, Ok::<L, rusqlite::Error>(v11)));
    let v12 = match sqlite::column::<M>(row, 12) {
        Ok(value) => value,
        Err(e) => {
            assert(column_gives(row, 12, Err::<M, rusqlite::Error>(e)));
            return Err(e);
        },
    };
    assert(column_gives(row, 12, Ok::<M, rusqlite::Error>(v12)));
    let v13 = match sqlite::column::<N>(row, 13) {
        Ok(value) => value,
        Err(e) => {
            assert(column_gives(row, 13, Err::<N, rusqlite::Error>(e)));
            return Err(e);
        },
    };
    assert(column_gives(row, 13, Ok::<N, rusqlite::Error>(v13)));
    Ok((v0, v1, v2, v3, v4, v5, v6, v7, v8, v9, v10, v11, v12, v13))
}

/// Decodes the first 15 columns of `row` into a tuple: element `i`
/// from the column at position `i`, in order, stopping at the first column
/// that does not convert.
pub fn decode_tuple15<A: rusqlite::types::FromSql, B: rusqlite::types::FromSql, C: rusqlite::types::FromSql, D: rusqlite::types::FromSql, E: rusqlite::types::FromSql, F: rusqlite::types::FromSql, G: rusqlite::types::FromSql, H: rusqlite::types::FromSql, I: rusqlite::types::FromSql, J: rusqlite::types::FromSql, K: rusqlite::types::FromSql, L: rusqlite::types::FromSql, M: rusqlite::types::FromSql, N: rusqlite::types::FromSql, O: rusqlite::types::FromSql>(
    row: &rusqlite::Row<'_>,
) -> (res: Result<(A, B, C, D, E, F, G, H, I, J, K, L, M, N, O), rusqlite::Error>)
    ensures
        match res {
            Ok((v0, v1, v2, v3, v4, v5, v6, v7, v8, v9, v10, v11, v12, v13, v14)) => {
                &&& column_gives(row, 0, Ok::<A, rusqlite::Error>(v0))
                &&& column_gives(row, 1, Ok::<B, rusqlite::Error>(v1))
                &&& column_gives(row, 2, Ok::<C, rusqlite::Error>(v2))
                &&& column_gives(row, 3, Ok::<D, rusqlite::Error>(v3))
                &&& column_gives(row, 4, Ok::<E, rusqlite::Error>(v4))
                &&& column_gives(row, 5, Ok::<F, rusqlite::Error>(v5))
                &&& column_gives(row, 6, Ok::<G, rusqlite::Error>(v6))
                &&& column_gives(row, 7, Ok::<H, rusqlite::Error>(v7))
                &&& column_gives(row, 8, Ok::<I, rusqlite::Error>(v8))
                &&& column_gives(row, 9, Ok::<J, rusqlite::Error>(v9))
                &&& column_gives(row, 10, Ok::<K, rusqlite::Error>(v10))
                &&& column_gives(row, 11, Ok::<L, rusqlite::Error>(v11))
                &&& column_gives(row, 12, Ok::<M, rusqlite::Error>(v12))
                &&& column_gives(row, 13, Ok::<N, rusqlite::Error>(v13))
                &&& column_gives(row, 14, Ok::<O, rusqlite::Error>(v14))
            },
            Err(e) => {
                ||| column_gives(row, 0, Err::<A, rusqlite::Error>(e))
                ||| column_converts::<A>(row, 0) && column_gives(row, 1, Err::<B, rusqlite::Error>(e))
                ||| column_converts::<A>(row, 0) && column_converts::<B>(row, 1) && column_gives(row, 2, Err::<C, rusqlite::Error>(e))
                ||| column_converts::<A>(row, 0) && column_converts::<B>(row, 1) && column_converts::<C>(row, 2) && column_gives(row, 3, Err::<D, rusqlite::Error>(e))
                ||| column_converts::<A>(row, 0) && column_converts::<B>(row, 1) && column_converts::<C>(row, 2) && column_converts::<D>(row, 3) && column_gives(row, 4, Err::<E, rusqlite::Error>(e))
                ||| column_converts::<A>(row, 0) && column_converts::<B>(row, 1) && column_converts::<C>(row, 2) && column_converts::<D>(row, 3) && column_converts::<E>(row, 4) && column_gives(row, 5, Err::<F, rusqlite::Error>(e))
                ||| column_converts::<A>(row, 0) && column_converts::<B>(row, 1) && column_converts::<C>(row, 2) && column_converts::<D>(row, 3) && column_converts::<E>(row, 4) && column_converts::<F>(row, 5) && column_gives(row, 6, Err::<G, rusqlite::Error>(e))
                ||| column_converts::<A>(row, 0) && column_converts::<B>(row, 1) && column_converts::<C>(row, 2) && column_converts::<D>(row, 3) && column_converts::<E>(row, 4) && column_converts::<F>(row, 5) && column_converts::<G>(row, 6) && column_gives(row, 7, Err::<H, rusqlite::Error>(e))
                ||| column_converts::<A>(row, 0) && column_converts::<B>(row, 1) && column_converts::<C>(row, 2) && column_converts::<D>(row, 3) && column_converts::<E>(row, 4) && column_converts::<F>(row, 5) && column_converts::<G>(row, 6) && column_converts::<H>(row, 7) && column_gives(row, 8, Err::<I, rusqlite::Error>(e))
                ||| column_converts::<A>(row, 0) && column_converts::<B>(row, 1) && column_converts::<C>(row, 2) && column_converts::<D>(row, 3) && column_converts::<E>(row, 4) && column_converts::<F>(row, 5) && column_converts::<G>(row, 6) && column_converts::<H>(row, 7) && column_converts::<I>(row, 8) && column_gives(row, 9, Err::<J, rusqlite::Error>(e))
                ||| column_converts::<A>(row, 0) && column_converts::<B>(row, 1) && column_converts::<C>(row, 2) && column_converts::<D>(row, 3) && column_converts::<E>(row, 4) && column_converts::<F>(row, 5) && column_converts::<G>(row, 6) && column_converts::<H>(row, 7) && column_converts::<I>(row, 8) && column_converts::<J>(row, 9) && column_gives(row, 10, Err::<K, rusqlite::Error>(e))
                ||| column_converts::<A>(row, 0) && column_converts::<B>(row, 1) && column_converts::<C>(row, 2) && column_converts::<D>(row, 3) && column_converts::<E>(row, 4) && column_converts::<F>(row, 5) && column_converts::<G>(row, 6) && column_converts::<H>(row, 7) && column_converts::<I>(row, 8) && column_converts::<J>(row, 9) && column_converts::<K>(row, 10) && column_gives(row, 11, Err::<L, rusqlite::Error>(e))
                ||| column_converts::<A>(row, 0) && column_converts::<B>(row, 1) && column_converts::<C>(row, 2) && column_converts::<D>(row, 3) && column_converts::<E>(row, 4) && column_converts::<F>(row, 5) && column_converts::<G>(row, 6) && column_converts::<H>(row, 7) && column_converts::<I>(row, 8) && column_converts::<J>(row, 9) && column_converts::<K>(row, 10) && column_converts::<L>(row, 11) && column_gives(row, 12, Err::<M, rusqlite::Error>(e))
                ||| column_converts::<A>(row, 0) && column_converts::<B>(row, 1) && column_converts::<C>(row, 2) && column_converts::<D>(row, 3) && column_converts::<E>(row, 4) && column_converts::<F>(row, 5) && column_converts::<G>(row, 6) && column_converts::<H>(row, 7) && column_converts::<I>(row, 8) && column_converts::<J>(row, 9) && column_converts::<K>(row, 10) && column_converts::<L>(row, 11) && column_converts::<M>(row, 12) && column_gives(row, 13, Err::<N, rusqlite::Error>(e))
                ||| column_converts::<A>(row, 0) && column_converts::<B>(row, 1) && column_converts::<C>(row, 2) && column_converts::<D>(row, 3) && column_converts::<E>(row, 4) && column_converts::<F>(row, 5) && column_converts::<G>(row, 6) && column_converts::<H>(row, 7) && column_converts::<I>(row, 8) && column_converts::<J>(row, 9) && column_converts::<K>(row, 10) && column_converts::<L>(row, 11) && column_converts::<M>(row, 12) && column_converts::<N>(row, 13) && column_gives(row, 14, Err::<O, rusqlite::Error>(e))
            },
        },
{
    let v0 = match sqlite::column::<A>(row, 0) {
        Ok(value) => value,
        Err(e) => {
            assert(column_gives(row, 0, Err::<A, rusqlite::Error>(e)));
            return Err(e);
        },
    };
    assert(column_gives(row, 0, Ok::<A, rusqlite::Error>(v0)));
    let v1 = match sqlite::column::<B>(row, 1) {
        Ok(value) => value,
        Err(e) => {
            assert(column_gives(row, 1, Err::<B, rusqlite::Error>(e)));
            return Err(e);
        },
    };
    assert(column_gives(row, 1, Ok::<B, rusqlite::Error>(v1)));
    let v2 = match sqlite::column::<C>(row, 2) {
        Ok(value) => value,
        Err(e) => {
            assert(column_gives(row, 2, Err::<C, rusqlite::Error>(e)));
            return Err(e);
        },
    };
    assert(column_gives(row, 2, Ok::<C, rusqlite::Error>(v2)));
    let v3 = match sqlite::column::<D>(row, 3) {
        Ok(value) => value,
        Err(e) => {
            assert(column_gives(row, 3, Err::<D, rusqlite::Error>(e)));
            return Err(e);
        },
    };
    assert(column_gives(row, 3, Ok::<D, rusqlite::Error>(v3)));
    let v4 = match sqlite::column::<E>(row, 4) {
        Ok(value) => value,
        Err(e) => {
            assert(column_gives(row, 4, Err::<E, rusqlite::Error>(e)));
            return Err(e);
        },
    };
    assert(column_gives(row, 4, Ok::<E, rusqlite::Error>(v4)));
    let v5 = match sqlite::column::<F>(row, 5) {
        Ok(value) => value,
        Err(e) => {
            assert(column_gives(row, 5, Err::<F, rusqlite::Error>(e)));
            return Err(e);
        },
    };
    assert(column_gives(row, 5, Ok::<F, rusqlite::Error>(v5)));
    let v6 = match sqlite::column::<G>(row, 6) {
        Ok(value) => value,
        Err(e) => {
            assert(column_gives(row, 6, Err::<G, rusqlite::Error>(e)));
            return Err(e);
        },
    };
    assert(column_gives(row, 6, Ok::<G, rusqlite::Error>(v6)));
    let v7 = match sqlite::column::<H>(row, 7) {
        Ok(value) => value,
        Err(e) => {
            assert(column_gives(row, 7, Err::<H, rusqlite::Error>(e)));
            return Err(e);
        },
    };
    assert(column_gives(row, 7, Ok::<H, rusqlite::Error>(v7)));
    let v8 = match sqlite::column::<I>(row, 8) {
        Ok(value) => value,
        Err(e) => {
            assert(column_gives(row, 8, Err::<I, rusqlite::Error>(e)));
            return Err(e);
        },
    };
    assert(column_gives(row, 8, Ok::<I, rusqlite::Error>(v8)));
    let v9 = match sqlite::column::<J>(row, 9) {
        Ok(value) => value,
        Err(e) => {
            assert(column_gives(row, 9, Err::<J, rusqlite::Error>(e)));
            return Err(e);
        },
    };
    assert(column_gives(row, 9, Ok::<J, rusqlite::Error>(v9)));
    let v10 = match sqlite::column::<K>(row, 10) {
        Ok(value) => value,
        Err(e) => {
            assert(column_gives(row, 10, Err::<K, rusqlite::Error>(e)));
            return Err(e);
        },
    };
    assert(column_gives(row, 10, Ok::<K, rusqlite::Error>(v10)));
    let v11 = match sqlite::column::<L>(row, 11) {
        Ok(value) => value,
        Err(e) => {
            assert(column_gives(row, 11, Err::<L, rusqlite::Error>(e)));
            return Err(e);
        },
    };
    assert(column_gives(row, 11, Ok::<L, rusqlite::Error>(v11)));
    let v12 = match sqlite::column::<M>(row, 12) {
        Ok(value) => value,
        Err(e) => {
            assert(column_gives(row, 12, Err::<M, rusqlite::Error>(e)));
            return Err(e);
        },
    };
    assert(column_gives(row, 12, Ok::<M, rusqlite::Error>(v12)));
    let v13 = match sqlite::column::<N>(row, 13) {
        Ok(value) => value,
        Err(e) => {
            assert(column_gives(row, 13, Err::<N, rusqlite::Error>(e)));
            return Err(e);
        },
    };
    assert(column_gives(row, 13, Ok::<N, rusqlite::Error>(v13)));
    let v14 = match sqlite::column::<O>(row, 14) {
        Ok(value) => value,
        Err(e) => {
            assert(column_gives(row, 14, Err::<O, rusqlite::Error>(e)));
            return Err(e);
        },
    };
    assert(column_gives(row, 14, Ok::<O, rusqlite::Error>(v14)));
    Ok((v0, v1, v2, v3, v4, v5, v6, v7, v8, v9, v10, v11, v12, v13, v14))
}

/// Decodes the first 16 columns of `row` into a tuple: element `i`
/// from the column at position `i`, in order, stopping at the first column
/// that does not convert.
pub fn decode_tuple16<A: rusqlite::types::FromSql, B: rusqlite::types::FromSql, C: rusqlite::types::FromSql, D: rusqlite::types::FromSql, E: rusqlite::types::FromSql, F: rusqlite::types::FromSql, G: rusqlite::types::FromSql, H: rusqlite::types::FromSql, I: rusqlite::types::FromSql, J: rusqlite::types::FromSql, K: rusqlite::types::FromSql, L: rusqlite::types::FromSql, M: rusqlite::types::FromSql, N: rusqlite::types::FromSql, O: rusqlite::types::FromSql, P: rusqlite::types::FromSql>(
    row: &rusqlite::Row<'_>,
) -> (res: Result<(A, B, C, D, E, F, G, H, I, J, K, L, M, N, O, P), rusqlite::Error>)
    ensures
        match res {
            Ok((v0, v1, v2, v3, v4, v5, v6, v7, v8, v9, v10, v11, v12, v13, v14, v15)) => {
                &&& column_gives(row, 0, Ok::<A, rusqlite::Error>(v0))
                &&& column_gives(row, 1, Ok::<B, rusqlite::Error>(v1))
                &&& column_gives(row, 2, Ok::<C, rusqlite::Error>(v2))
                &&& column_gives(row, 3, Ok::<D, rusqlite::Error>(v3))
                &&& column_gives(row, 4, Ok::<E, rusqlite::Error>(v4))
                &&& column_gives(row, 5, Ok::<F, rusqlite::Error>(v5))
                &&& column_gives(row, 6, Ok::<G, rusqlite::Error>(v6))
                &&& column_gives(row, 7, Ok::<H, rusqlite::Error>(v7))
                &&& column_gives(row, 8, Ok::<I, rusqlite::Error>(v8))
                &&& column_gives(row, 9, Ok::<J, rusqlite::Error>(v9))
                &&& column_gives(row, 10, Ok::<K, rusqlite::Error>(v10))
                &&& column_gives(row, 11, Ok::<L, rusqlite::Error>(v11))
                &&& column_gives(row, 12, Ok::<M, rusqlite::Error>(v12))
                &&& column_gives(row, 13, Ok::<N, rusqlite::Error>(v13))
                &&& column_gives(row, 14, Ok::<O, rusqlite::Error>(v14))
                &&& column_gives(row, 15, Ok::<P, rusqlite::Error>(v15))
            },
            Err(e) => {
                ||| column_gives(row, 0, Err::<A, rusqlite::Error>(e))
                ||| column_converts::<A>(row, 0) && column_gives(row, 1, Err::<B, rusqlite::Error>(e))
                ||| column_converts::<A>(row, 0) && column_converts::<B>(row, 1) && column_gives(row, 2, Err::<C, rusqlite::Error>(e))
                ||| column_converts::<A>(row, 0) && column_converts::<B>(row, 1) && column_converts::<C>(row, 2) && column_gives(row, 3, Err::<D, rusqlite::Error>(e))
                ||| column_converts::<A>(row, 0) && column_converts::<B>(row, 1) && column_converts::<C>(row, 2) && column_converts::<D>(row, 3) && column_gives(row, 4, Err::<E, rusqlite::Error>(e))
                ||| column_converts::<A>(row, 0) && column_converts::<B>(row, 1) && column_converts::<C>(row, 2) && column_converts::<D>(row, 3) && column_converts::<E>(row, 4) && column_gives(row, 5, Err::<F, rusqlite::Error>(e))
                ||| column_converts::<A>(row, 0) && column_converts::<B>(row, 1) && column_converts::<C>(row, 2) && column_converts::<D>(row, 3) && column_converts::<E>(row, 4) && column_converts::<F>(row, 5) && column_gives(row, 6, Err::<G, rusqlite::Error>(e))
                ||| column_converts::<A>(row, 0) && column_converts::<B>(row, 1) && column_converts::<C>(row, 2) && column_converts::<D>(row, 3) && column_converts::<E>(row, 4) && column_converts::<F>(row, 5) && column_converts::<G>(row, 6) && column_gives(row, 7, Err::<H, rusqlite::Error>(e))
                ||| column_converts::<A>(row, 0) && column_converts::<B>(row, 1) && column_converts::<C>(row, 2) && column_converts::<D>(row, 3) && column_converts::<E>(row, 4) && column_converts::<F>(row, 5) && column_converts::<G>(row, 6) && column_converts::<H>(row, 7) && column_gives(row, 8, Err::<I, rusqlite::Error>(e))
                ||| column_converts::<A>(row, 0) && column_converts::<B>(row, 1) && column_converts::<C>(row, 2) && column_converts::<D>(row, 3) && column_converts::<E>(row, 4) && column_converts::<F>(row, 5) && column_converts::<G>(row, 6) && column_converts::<H>(row, 7) && column_converts::<I>(row, 8) && column_gives(row, 9, Err::<J, rusqlite::Error>(e))
                ||| column_converts::<A>(row, 0) && column_converts::<B>(row, 1) && column_converts::<C>(row, 2) && column_converts::<D>(row, 3) && column_converts::<E>(row, 4) && column_converts::<F>(row, 5) && column_converts::<G>(row, 6) && column_converts::<H>(row, 7) && column_converts::<I>(row, 8) && column_converts::<J>(row, 9) && column_gives(row, 10, Err::<K, rusqlite::Error>(e))
                ||| column_converts::<A>(row, 0) && column_converts::<B>(row, 1) && column_converts::<C>(row, 2) && column_converts::<D>(row, 3) && column_converts::<E>(row, 4) && column_converts::<F>(row, 5) && column_converts::<G>(row, 6) && column_converts::<H>(row, 7) && column_converts::<I>(row, 8) && column_converts::<J>(row, 9) && column_converts::<K>(row, 10) && column_gives(row, 11, Err::<L, rusqlite::Error>(e))
                ||| column_converts::<A>(row, 0) && column_converts::<B>(row, 1) && column_converts::<C>(row, 2) && column_converts::<D>(row, 3) && column_converts::<E>(row, 4) && column_converts::<F>(row, 5) && column_converts::<G>(row, 6) && column_converts::<H>(row, 7) && column_converts::<I>(row, 8) && column_converts::<J>(row, 9) && column_converts::<K>(row, 10) && column_converts::<L>(row, 11) && column_gives(row, 12, Err::<M, rusqlite::Error>(e))
                ||| column_converts::<A>(row, 0) && column_converts::<B>(row, 1) && column_converts::<C>(row, 2) && column_converts::<D>(row, 3) && column_converts::<E>(row, 4) && column_converts::<F>(row, 5) && column_converts::<G>(row, 6) && column_converts::<H>(row, 7) && column_converts::<I>(row, 8) && column_converts::<J>(row, 9) && column_converts::<K>(row, 10) && column_converts::<L>(row, 11) && column_converts::<M>(row, 12) && column_gives(row, 13, Err::<N, rusqlite::Error>(e))
                ||| column_converts::<A>(row, 0) && column_converts::<B>(row, 1) && column_converts::<C>(row, 2) && column_converts::<D>(row, 3) && column_converts::<E>(row, 4) && column_converts::<F>(row, 5) && column_converts::<G>(row, 6) && column_converts::<H>(row, 7) && column_converts::<I>(row, 8) && column_converts::<J>(row, 9) && column_converts::<K>(row, 10) && column_converts::<L>(row, 11) && column_converts::<M>(row, 12) && column_converts::<N>(row, 13) && column_gives(row, 14, Err::<O, rusqlite::Error>(e))
                ||| column_converts::<A>(row, 0) && column_converts::<B>(row, 1) && column_converts::<C>(row, 2) && column_converts::<D>(row, 3) && column_converts::<E>(row, 4) && column_converts::<F>(row, 5) && column_converts::<G>(row, 6) && column_converts::<H>(row, 7) && column_converts::<I>(row, 8) && column_converts::<J>(row, 9) && column_converts::<K>(row, 10) && column_converts::<L>(row, 11) && column_converts::<M>(row, 12) && column_converts::<N>(row, 13) && column_converts::<O>(row, 14) && column_gives(row, 15, Err::<P, rusqlite::Error>(e))
            },
        },
{
    let v0 = match sqlite::column::<A>(row, 0) {
        Ok(value) => value,
        Err(e) => {
            assert(column_gives(row, 0, Err::<A, rusqlite::Error>(e)));
            return Err(e);
        },
    };
    assert(column_gives(row, 0, Ok::<A, rusqlite::Error>(v0)));
    let v1 = match sqlite::column::<B>(row, 1) {
        Ok(value) => value,
        Err(e) => {
            assert(column_gives(row, 1, Err::<B, rusqlite::Error>(e)));
            return Err(e);
        },
    };
    assert(column_gives(row, 1, Ok::<B, rusqlite::Error>(v1)));
    let v2 = match sqlite::column::<C>(row, 2) {
        Ok(value) => value,
        Err(e) => {
            assert(column_gives(row, 2, Err::<C, rusqlite::Error>(e)));
            return Err(e);
        },
    };
    assert(column_gives(row, 2, Ok::<C, rusqlite::Error>(v2)));
    let v3 = match sqlite::column::<D>(row, 3) {
        Ok(value) => value,
        Err(e) => {
            assert(column_gives(row, 3, Err::<D, rusqlite::Error>(e)));
            return Err(e);
        },
    };
    assert(column_gives(row, 3, Ok::<D, rusqlite::Error>(v3)));
    let v4 = match sqlite::column::<E>(row, 4) {
        Ok(value) => value,
        Err(e) => {
            assert(column_gives(row, 4, Err::<E, rusqlite::Error>(e)));
            return Err(e);
        },
    };
    assert(column_gives(row, 4, Ok::<E, rusqlite::Error>(v4)));
    let v5 = match sqlite::column::<F>(row, 5) {
        Ok(value) => value,
        Err(e) => {
            assert(column_gives(row, 5, Err::<F, rusqlite::Error>(e)));
            return Err(e);
        },
    };
    assert(column_gives(row, 5, Ok::<F, rusqlite::Error>(v5)));
    let v6 = match sqlite::column::<G>(row, 6) {
        Ok(value) => value,
        Err(e) => {
            assert(column_gives(row, 6, Err::<G, rusqlite::Error>(e)));
            return Err(e);
        },
    };
    assert(column_gives(row, 6, Ok::<G, rusqlite::Error>(v6)));
    let v7 = match sqlite::column::<H>(row, 7) {
        Ok(value) => value,
        Err(e) => {
            assert(column_gives(row, 7, Err::<H, rusqlite::Error>(e)));
            return Err(e);
        },
    };
    assert(column_gives(row, 7, Ok::<H, rusqlite::Error>(v7)));
    let v8 = match sqlite::column::<I>(row, 8) {
        Ok(value) => value,
        Err(e) => {
            assert(column_gives(row, 8, Err::<I, rusqlite::Error>(e)));
            return Err(e);
        },
    };
    assert(column_gives(row, 8, Ok::<I, rusqlite::Error>(v8)));
    let v9 = match sqlite::column::<J>(row, 9) {
        Ok(value) => value,
        Err(e) => {
            assert(column_gives(row, 9, Err::<J, rusqlite::Error>(e)));
            return Err(e);
        },
    };
    assert(column_gives(row, 9, Ok::<J, rusqlite::Error>(v9)));
    let v10 = match sqlite::column::<K>(row, 10) {
        Ok(value) => value,
        Err(e) => {
            assert(column_gives(row, 10, Err::<K, rusqlite::Error>(e)));
            return Err(e);
        },
    };
    assert(column_gives(row, 10, Ok::<K, rusqlite::Error>(v10)));
    let v11 = match sqlite::column::<L>(row, 11) {
        Ok(value) => value,
        Err(e) => {
            assert(column_gives(row, 11, Err::<L, rusqlite::Error>(e)));
            return Err(e);
        },
    };
    assert(column_gives(row, 11, Ok::<L, rusqlite::Error>(v11)));
    let v12 = match sqlite::column::<M>(row, 12) {
        Ok(value) => value,
        Err(e) => {
            assert(column_gives(row, 12, Err::<M, rusqlite::Error>(e)));
            return Err(e);
        },
    };
    assert(column_gives(row, 12, Ok::<M, rusqlite::Error>(v12)));
    let v13 = match sqlite::column::<N>(row, 13) {
        Ok(value) => value,
        Err(e) => {
            assert(column_gives(row, 13, Err::<N, rusqlite::Error>(e)));
            return Err(e);
        },
    };
    assert(column_gives(row, 13, Ok::<N, rusqlite::Error>(v13)));
    let v14 = match sqlite::column::<O>(row, 14) {
        Ok(value) => value,
        Err(e) => {
            assert(column_gives(row, 14, Err::<O, rusqlite::Error>(e)));
            return Err(e);
        },
    };
    assert(column_gives(row, 14, Ok::<O, rusqlite::Error>(v14)));
    let v15 = match sqlite::column::<P>(row, 15) {
        Ok(value) => value,
        Err(e) => {
            assert(column_gives(row, 15, Err::<P, rusqlite::Error>(e)));
            return Err(e);
        },
    };
    assert(column_gives(row, 15, Ok::<P, rusqlite::Error>(v15)));
    Ok((v0, v1, v2, v3, v4, v5, v6, v7, v8, v9, v10, v11, v12, v13, v14, v15))
}

} // verus!
