//! How the rows of a statement become the result a query method declares:
//! exactly one row, at most one row, or every row.
//!
//! Each reader takes a cursor and reports, through the cursor's record, the
//! steps it took; its contract gives the result as a function of those steps.

use vstd::prelude::*;
use crate::cursor::{decoder_returned, RowCursor, RowEvent};
use crate::error::QueryError;

verus! {

/// `after` is `before` followed by further steps.
pub open spec fn extends<T>(before: Seq<RowEvent<T>>, after: Seq<RowEvent<T>>) -> bool {
    &&& before.len() <= after.len()
    &&& after.take(before.len() as int) == before
}

/// The steps of `after` that came after those of `before`.
pub open spec fn taken<T>(before: Seq<RowEvent<T>>, after: Seq<RowEvent<T>>) -> Seq<RowEvent<T>> {
    after.skip(before.len() as int)
}

/// The value of a successfully decoded row.
pub open spec fn decoded_value<T>(event: RowEvent<T>) -> T {
    match event {
        RowEvent::Decoded(Ok(v)) => v,
        _ => arbitrary(),
    }
}

/// Every step of `steps` found a row that decoded successfully.
pub open spec fn all_decoded<T>(steps: Seq<RowEvent<T>>) -> bool {
    forall|i: int| 0 <= i < steps.len() ==> #[trigger] steps[i] matches RowEvent::Decoded(Ok(_))
}

/// The error that ended a read, for a failed step or a failed decoding.
pub open spec fn failure<T>(event: RowEvent<T>) -> QueryError {
    match event {
        RowEvent::Decoded(Err(e)) => QueryError::Sqlite(e),
        RowEvent::Failed(e) => QueryError::Sqlite(e),
        _ => arbitrary(),
    }
}

// ---------------------------------------------------------------------------
// Exactly one row

/// The steps that a read of exactly one row takes: one step, and a second
/// one only after a first row that decoded; the second is not decoded.
pub open spec fn single_steps<T>(steps: Seq<RowEvent<T>>) -> bool {
    &&& steps.len() >= 1
    &&& !(steps[0] is Skipped)
    &&& if steps[0] matches RowEvent::Decoded(Ok(_)) {
        steps.len() == 2 && !(steps[1] is Decoded)
    } else {
        steps.len() == 1
    }
}

/// The result of a read of exactly one row, from its steps: the row's value
/// if exactly one row came and decoded; `QueryReturnedNoRows` if none came;
/// `QueryReturnedMoreThanOneRow` if a second came after one that decoded;
/// otherwise the first error met.
pub open spec fn single_result<T>(steps: Seq<RowEvent<T>>) -> Result<T, QueryError> {
    match steps[0] {
        RowEvent::Finished => Err(QueryError::QueryReturnedNoRows),
        RowEvent::Decoded(Ok(v)) => match steps[1] {
            RowEvent::Finished => Ok(v),
            RowEvent::Failed(e) => Err(QueryError::Sqlite(e)),
            _ => Err(QueryError::QueryReturnedMoreThanOneRow),
        },
        first => Err(failure(first)),
    }
}

/// Reads exactly one row through `cursor`: decodes the first row, then
/// checks that no second row follows.
pub fn read_single<'stmt, T, F: Fn(&rusqlite::Row<'_>) -> Result<T, rusqlite::Error>>(
    cursor: &mut RowCursor<'stmt, T, F>,
    decode: &F,
) -> (res: Result<T, QueryError>)
    requires
        old(cursor).traced(),
        forall|row: &rusqlite::Row<'_>| decode.requires((row,)),
    ensures
        final(cursor).traced(),
        final(cursor).origin() == old(cursor).origin(),
        extends(old(cursor).events(), final(cursor).events()),
        single_steps(taken(old(cursor).events(), final(cursor).events())),
        res == single_result(taken(old(cursor).events(), final(cursor).events())),
        res matches Ok(v) ==> decoder_returned(*decode, Ok(v)),
{
    let ghost before = cursor.events();
    let first = cursor.fetch(decode);
    let ghost mid = cursor.events();
    assert(taken(before, mid) =~= seq![mid.last()]);
    assert(mid.take(before.len() as int) =~= before);
    match first {
        None => Err(QueryError::QueryReturnedNoRows),
        Some(Err(e)) => Err(e),
        Some(Ok(v)) => {
            let more = cursor.skip();
            proof {
                let after = cursor.events();
                assert(taken(before, after) =~= seq![mid.last(), after.last()]);
                assert(after.take(before.len() as int) =~= before);
            }
            match more {
                Ok(false) => Ok(v),
                Ok(true) => Err(QueryError::QueryReturnedMoreThanOneRow),
                Err(e) => Err(e),
            }
        },
    }
}

// ---------------------------------------------------------------------------
// At most one row

/// The steps that a read of at most one row takes: one step, and a second,
/// undecoded one after any first row, whether or not that row decoded.
pub open spec fn optional_steps<T>(steps: Seq<RowEvent<T>>) -> bool {
    &&& steps.len() >= 1
    &&& !(steps[0] is Skipped)
    &&& if steps[0] is Decoded {
        steps.len() == 2 && !(steps[1] is Decoded)
    } else {
        steps.len() == 1
    }
}

/// The result of a read of at most one row, from its steps: `None` if no row
/// came; `QueryReturnedMoreThanOneRow` if a second row came; the error of a
/// failed step; otherwise what decoding the one row gave, its error
/// included.
pub open spec fn optional_result<T>(steps: Seq<RowEvent<T>>) -> Result<Option<T>, QueryError> {
    match steps[0] {
        RowEvent::Finished => Ok(None),
        RowEvent::Decoded(d) => match steps[1] {
            RowEvent::Finished => match d {
                Ok(v) => Ok(Some(v)),
                Err(e) => Err(QueryError::Sqlite(e)),
            },
            RowEvent::Failed(e) => Err(QueryError::Sqlite(e)),
            _ => Err(QueryError::QueryReturnedMoreThanOneRow),
        },
        first => Err(failure(first)),
    }
}

/// Reads at most one row through `cursor`: decodes the first row, keeps
/// the decoding's outcome aside, and checks that no second row follows
/// before reporting it.
pub fn read_optional<'stmt, T, F: Fn(&rusqlite::Row<'_>) -> Result<T, rusqlite::Error>>(
    cursor: &mut RowCursor<'stmt, T, F>,
    decode: &F,
) -> (res: Result<Option<T>, QueryError>)
    requires
        old(cursor).traced(),
        forall|row: &rusqlite::Row<'_>| decode.requires((row,)),
    ensures
        final(cursor).traced(),
        final(cursor).origin() == old(cursor).origin(),
        extends(old(cursor).events(), final(cursor).events()),
        optional_steps(taken(old(cursor).events(), final(cursor).events())),
        res == optional_result(taken(old(cursor).events(), final(cursor).events())),
        res matches Ok(Some(v)) ==> decoder_returned(*decode, Ok(v)),
{
    let ghost before = cursor.events();
    let first = cursor.step_decoded(decode);
    let ghost mid = cursor.events();
    assert(taken(before, mid) =~= seq![mid.last()]);
    assert(mid.take(before.len() as int) =~= before);
    let decoded = match first {
        Ok(None) => {
            return Ok(None);
        },
        Err(e) => {
            return Err(e);
        },
        Ok(Some(d)) => d,
    };
    let more = cursor.skip();
    proof {
        let after = cursor.events();
        assert(taken(before, after) =~= seq![mid.last(), after.last()]);
        assert(after.take(before.len() as int) =~= before);
    }
    match more {
        Ok(true) => Err(QueryError::QueryReturnedMoreThanOneRow),
        Err(e) => Err(e),
        Ok(false) => match decoded {
            Ok(v) => Ok(Some(v)),
            Err(e) => Err(QueryError::Sqlite(e)),
        },
    }
}

// ---------------------------------------------------------------------------
// Every row

/// The steps that a read of every row takes: rows that all decoded, then one
/// step that ends the read: the finish, a failed step or a failed decoding.
pub open spec fn all_steps<T>(steps: Seq<RowEvent<T>>) -> bool {
    &&& steps.len() >= 1
    &&& all_decoded(steps.drop_last())
    &&& !(steps.last() is Skipped)
    &&& !(steps.last() matches RowEvent::Decoded(Ok(_)))
}

/// The result of a read of every row, from its steps: the decoded values in
/// the order the rows came if the statement finished, otherwise the first
/// error met.
pub open spec fn all_result<T>(steps: Seq<RowEvent<T>>) -> Result<Seq<T>, QueryError> {
    if steps.last() is Finished {
        Ok(steps.drop_last().map_values(|event: RowEvent<T>| decoded_value(event)))
    } else {
        Err(failure(steps.last()))
    }
}

/// Reads every row through `cursor`, decoding each, and stops at the first
/// failed step or failed decoding.
pub fn read_all<'stmt, T, F: Fn(&rusqlite::Row<'_>) -> Result<T, rusqlite::Error>>(
    cursor: &mut RowCursor<'stmt, T, F>,
    decode: &F,
) -> (res: Result<Vec<T>, QueryError>)
    requires
        old(cursor).traced(),
        forall|row: &rusqlite::Row<'_>| decode.requires((row,)),
    ensures
        final(cursor).traced(),
        final(cursor).origin() == old(cursor).origin(),
        extends(old(cursor).events(), final(cursor).events()),
        all_steps(taken(old(cursor).events(), final(cursor).events())),
        match res {
            Ok(values) => all_result(taken(old(cursor).events(), final(cursor).events()))
                == Ok::<Seq<T>, QueryError>(values@),
            Err(e) => all_result(taken(old(cursor).events(), final(cursor).events()))
                == Err::<Seq<T>, QueryError>(e),
        },
        res matches Ok(values) ==> forall|i: int|
            0 <= i < values.len() ==> decoder_returned(*decode, Ok(#[trigger] values@[i])),
{
    let ghost before = cursor.events();
    let mut values: Vec<T> = Vec::new();
    assert(taken(before, cursor.events()) =~= Seq::<RowEvent<T>>::empty());
    assert(cursor.events().take(before.len() as int) =~= before);
    loop
        invariant
            forall|row: &rusqlite::Row<'_>| decode.requires((row,)),
            before == old(cursor).events(),
            cursor.traced(),
            cursor.origin() == old(cursor).origin(),
            extends(before, cursor.events()),
            all_decoded(taken(before, cursor.events())),
            values@ == taken(before, cursor.events()).map_values(
                |event: RowEvent<T>| decoded_value(event),
            ),
            forall|i: int|
                0 <= i < values.len() ==> decoder_returned(*decode, Ok(#[trigger] values@[i])),
        decreases usize::MAX - values.len(),
    {
        let ghost prior = cursor.events();
        let item = cursor.fetch(decode);
        let ghost now = cursor.events();
        assert(now.take(before.len() as int) =~= before) by {
            assert(now.drop_last() == prior);
            assert(prior.take(before.len() as int) == before);
        }
        assert(taken(before, now).drop_last() =~= taken(before, prior));
        assert(taken(before, now) =~= taken(before, prior).push(now.last()));
        match item {
            Some(Ok(v)) => {
                values.push(v);
                assert(values@ =~= taken(before, now).map_values(
                    |event: RowEvent<T>| decoded_value(event),
                ));
            },
            Some(Err(e)) => {
                assert(taken(before, now).drop_last() =~= taken(before, prior));
                return Err(e);
            },
            None => {
                assert(values@ =~= taken(before, now).drop_last().map_values(
                    |event: RowEvent<T>| decoded_value(event),
                ));
                return Ok(values);
            },
        }
    }
}

} // verus!
