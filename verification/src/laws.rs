//! What the readers promise of every sequence of steps that a
//! read takes.

use vstd::prelude::*;
use crate::cursor::RowEvent;
use crate::dispatch::{FromRows, FromRowsCategory};
use crate::error::QueryError;
use crate::query::Query;
use crate::dispatch::{one_row_outcome, opened_by};
use crate::read::{all_result, all_steps, decoded_value, optional_result, optional_steps, single_result, single_steps};

verus! {

/// A single row is required: the read succeeds exactly when one row came,
/// decoded, and was followed by the end; no row is `QueryReturnedNoRows`,
/// and a second row after a decoded one is `QueryReturnedMoreThanOneRow`.
pub proof fn single_requires_exactly_one_row<T>(steps: Seq<RowEvent<T>>)
    requires
        single_steps(steps),
    ensures
        single_result(steps) matches Ok(v) ==> steps =~= seq![
            RowEvent::Decoded(Ok::<T, rusqlite::Error>(v)),
            RowEvent::<T>::Finished,
        ],
        steps[0] is Finished <==> single_result(steps) == Err::<T, QueryError>(
            QueryError::QueryReturnedNoRows,
        ),
        (steps.len() == 2 && steps[1] is Skipped) <==> single_result(steps) == Err::<T, QueryError>(
            QueryError::QueryReturnedMoreThanOneRow,
        ),
{
}

/// An optional row is `None` exactly when no row came, a second row is
/// `QueryReturnedMoreThanOneRow`, and the read never reports
/// `QueryReturnedNoRows` itself.
pub proof fn optional_is_none_exactly_without_rows<T>(steps: Seq<RowEvent<T>>)
    requires
        optional_steps(steps),
    ensures
        optional_result(steps) == Ok::<Option<T>, QueryError>(None) <==> steps[0] is Finished,
        (steps.len() == 2 && steps[1] is Skipped) <==> optional_result(steps) == Err::<Option<T>, QueryError>(
            QueryError::QueryReturnedMoreThanOneRow,
        ),
        !(optional_result(steps) matches Err(QueryError::QueryReturnedNoRows)),
{
}

/// An error that the decoder returns for the only row is reported as that
/// error, never taken for a missing row.
pub proof fn optional_keeps_decoder_errors<T>(steps: Seq<RowEvent<T>>, e: rusqlite::Error)
    requires
        optional_steps(steps),
        steps[0] == RowEvent::<T>::Decoded(Err(e)),
        steps[1] is Finished,
    ensures
        optional_result(steps) == Err::<Option<T>, QueryError>(QueryError::Sqlite(e)),
{
}

/// Where a read of one row and a read of at most one row take the same
/// steps, they agree: the one row is `Some` of it, and `None` stands exactly
/// for `QueryReturnedNoRows`; every other error is the same.
pub proof fn optional_agrees_with_single<T>(steps: Seq<RowEvent<T>>)
    requires
        single_steps(steps),
        optional_steps(steps),
    ensures
        optional_result(steps) == match single_result(steps) {
            Ok(v) => Ok(Some(v)),
            Err(QueryError::QueryReturnedNoRows) => Ok(None),
            Err(e) => Err(e),
        },
{
}

/// Reading every row succeeds exactly when the statement finished after
/// rows that all decoded, and gives their values in order; otherwise it
/// reports the error that stopped it, and every row before that decoded.
pub proof fn all_rows_until_first_error<T>(steps: Seq<RowEvent<T>>)
    requires
        all_steps(steps),
    ensures
        all_result(steps) is Ok <==> steps.last() is Finished,
        all_result(steps) matches Ok(values) ==> {
            &&& values.len() == steps.len() - 1
            &&& forall|i: int| 0 <= i < values.len() ==>
                #[trigger] steps[i] == RowEvent::<T>::Decoded(Ok(values[i]))
        },
        all_result(steps) matches Err(e) ==> {
            &&& e is Sqlite
            &&& steps.last().item() == Some(Err::<T, QueryError>(e))
        },
        forall|i: int| 0 <= i < steps.len() - 1 ==> #[trigger] steps[i] matches RowEvent::Decoded(Ok(_)),
{
    if steps.last() is Finished {
        let values = steps.drop_last().map_values(|event: RowEvent<T>| decoded_value(event));
        assert forall|i: int| 0 <= i < values.len() implies
            #[trigger] steps[i] == RowEvent::<T>::Decoded(Ok(values[i])) by {
            assert(steps.drop_last()[i] == steps[i]);
        }
    }
    assert forall|i: int| 0 <= i < steps.len() - 1 implies
        #[trigger] steps[i] matches RowEvent::Decoded(Ok(_)) by {
        assert(steps.drop_last()[i] == steps[i]);
    }
}

/// Reading every row gives what the lazy iteration of the same statement
/// yields, collected: the values of its `Ok` items when it ends without an
/// error item, otherwise its first error item.
pub proof fn all_rows_are_the_collected_items<T>(steps: Seq<RowEvent<T>>)
    requires
        all_steps(steps),
    ensures
        forall|i: int| 0 <= i < steps.len() - 1 ==>
            #[trigger] steps[i].item() == Some(Ok::<T, QueryError>(decoded_value(steps[i]))),
        steps.last().item() is None ==> all_result(steps) == Ok::<Seq<T>, QueryError>(
            steps.drop_last().map_values(|event: RowEvent<T>| event.item().unwrap().unwrap()),
        ),
        steps.last().item() matches Some(Err(e)) ==> all_result(steps) == Err::<Seq<T>, QueryError>(e),
{
    assert forall|i: int| 0 <= i < steps.len() - 1 implies
        #[trigger] steps[i].item() == Some(Ok::<T, QueryError>(decoded_value(steps[i]))) by {
        assert(steps.drop_last()[i] == steps[i]);
    }
    if steps.last().item() is None {
        let by_value = steps.drop_last().map_values(|event: RowEvent<T>| decoded_value(event));
        let by_item = steps.drop_last().map_values(|event: RowEvent<T>| event.item().unwrap().unwrap());
        assert forall|i: int| 0 <= i < by_value.len() implies by_value[i] == by_item[i] by {
            assert(steps.drop_last()[i] == steps[i]);
        }
        assert(by_value =~= by_item);
    }
}

/// The declared return type selects its reader: `Option<T>` reads at most
/// one row, `Vec<T>` every row, `Query<'_, T>` prepares a query, `()` runs a
/// statement without rows.
pub proof fn categories_select_readers<'conn, T>()
    ensures
        FromRowsCategory::<Option<T>>::VALUE == 1,
        FromRowsCategory::<Vec<T>>::VALUE == 2,
        FromRowsCategory::<Query<'conn, T>>::VALUE == 3,
        FromRowsCategory::<()>::VALUE == 4,
{
}

/// Reading a declared single row (category `0`) succeeds only with the value
/// of the one row that the statement, prepared from the SQL and bound with
/// the parameters, produced before it finished; no row is
/// `QueryReturnedNoRows`; a second row after a decoded one is
/// `QueryReturnedMoreThanOneRow`; every other error is rusqlite's, from
/// preparing, binding, the first step, decoding the first row, or the step
/// after it.
pub proof fn single_row_reads_exactly_one_row<'conn, T>(
    prepared: spec_fn(Result<rusqlite::Statement<'conn>, rusqlite::Error>) -> bool,
    bound: spec_fn(rusqlite::Statement<'conn>, Result<rusqlite::Rows<'conn>, rusqlite::Error>) -> bool,
    stepping: spec_fn(rusqlite::Rows<'conn>, Seq<RowEvent<T>>) -> bool,
    decoded: spec_fn(T) -> bool,
    executed: spec_fn(Result<usize, rusqlite::Error>) -> bool,
    res: Result<T, QueryError>,
)
    requires
        <T as FromRows<'conn, 0>>::delivers(prepared, bound, stepping, decoded, executed, res),
    ensures
        res matches Ok(v) ==> {
            &&& decoded(v)
            &&& exists|statement: rusqlite::Statement<'conn>, rows: rusqlite::Rows<'conn>|
                #![trigger bound(statement, Ok(rows))]
                prepared(Ok(statement)) && bound(statement, Ok(rows))
                    && stepping(rows, seq![RowEvent::Decoded(Ok(v)), RowEvent::Finished])
        },
        res matches Err(QueryError::QueryReturnedNoRows) ==>
            exists|statement: rusqlite::Statement<'conn>, rows: rusqlite::Rows<'conn>|
                #![trigger bound(statement, Ok(rows))]
                prepared(Ok(statement)) && bound(statement, Ok(rows))
                    && stepping(rows, seq![RowEvent::Finished]),
        res matches Err(QueryError::QueryReturnedMoreThanOneRow) ==>
            exists|statement: rusqlite::Statement<'conn>, rows: rusqlite::Rows<'conn>, v: T|
                #![trigger bound(statement, Ok(rows)), stepping(rows, Seq::empty().push(RowEvent::Decoded(Ok(v))).push(RowEvent::Skipped))]
                prepared(Ok(statement)) && bound(statement, Ok(rows))
                    && stepping(rows, Seq::empty().push(RowEvent::Decoded(Ok(v))).push(RowEvent::Skipped)),
        res matches Err(QueryError::Sqlite(e)) ==> {
            ||| prepared(Err(e))
            ||| exists|statement: rusqlite::Statement<'conn>|
                #![trigger prepared(Ok(statement))]
                prepared(Ok(statement)) && bound(statement, Err(e))
            ||| exists|statement: rusqlite::Statement<'conn>, rows: rusqlite::Rows<'conn>|
                #![trigger bound(statement, Ok(rows))]
                prepared(Ok(statement)) && bound(statement, Ok(rows)) && {
                    ||| stepping(rows, seq![RowEvent::Failed(e)])
                    ||| stepping(rows, seq![RowEvent::Decoded(Err(e))])
                    ||| exists|v: T| #[trigger] stepping(rows, Seq::empty().push(RowEvent::Decoded(Ok(v))).push(RowEvent::Failed(e)))
                }
        },
{
    let opened = choose|opened: Result<rusqlite::Rows<'conn>, rusqlite::Error>|
        #[trigger] opened_by(prepared, bound, opened) && match opened {
            Err(e) => res == Err::<T, QueryError>(QueryError::Sqlite(e)),
            Ok(rows) => exists|steps: Seq<RowEvent<T>>|
                #[trigger] stepping(rows, steps) && single_steps(steps) && res == single_result(steps),
        };
    if let Ok(rows) = opened {
        let statement = choose|statement: rusqlite::Statement<'conn>|
            #[trigger] prepared(Ok::<rusqlite::Statement<'conn>, rusqlite::Error>(statement))
                && bound(statement, opened);
        let steps = choose|steps: Seq<RowEvent<T>>|
            #[trigger] stepping(rows, steps) && single_steps(steps) && res == single_result(steps);
        if steps.len() == 1 {
            assert(steps =~= seq![steps[0]]);
        } else {
            assert(steps =~= seq![steps[0], steps[1]]);
        }
        match steps[0] {
            RowEvent::Decoded(Ok(v)) => {
                assert(steps =~= Seq::empty().push(RowEvent::Decoded(Ok(v))).push(steps[1]));
                assert(stepping(rows, Seq::empty().push(RowEvent::Decoded(Ok(v))).push(steps[1])));
            },
            _ => {},
        }
    }
}

/// Reading a declared optional row (category `1`) never reports
/// `QueryReturnedNoRows`: it is `None` only when the statement, prepared
/// from the SQL and bound with the parameters, finished at once; `Some` of
/// the one row's value only when that row decoded and the statement then
/// finished; `QueryReturnedMoreThanOneRow` only when a second row came; and
/// every other error is rusqlite's, a decoder's error included.
pub proof fn optional_row_reads_at_most_one_row<'conn, T>(
    prepared: spec_fn(Result<rusqlite::Statement<'conn>, rusqlite::Error>) -> bool,
    bound: spec_fn(rusqlite::Statement<'conn>, Result<rusqlite::Rows<'conn>, rusqlite::Error>) -> bool,
    stepping: spec_fn(rusqlite::Rows<'conn>, Seq<RowEvent<T>>) -> bool,
    decoded: spec_fn(T) -> bool,
    executed: spec_fn(Result<usize, rusqlite::Error>) -> bool,
    res: Result<Option<T>, QueryError>,
)
    requires
        <Option<T> as FromRows<'conn, 1>>::delivers(prepared, bound, stepping, decoded, executed, res),
    ensures
        !(res matches Err(QueryError::QueryReturnedNoRows)),
        res matches Ok(None) ==>
            exists|statement: rusqlite::Statement<'conn>, rows: rusqlite::Rows<'conn>|
                #![trigger bound(statement, Ok(rows))]
                prepared(Ok(statement)) && bound(statement, Ok(rows))
                    && stepping(rows, seq![RowEvent::Finished]),
        res matches Ok(Some(v)) ==> {
            &&& decoded(v)
            &&& exists|statement: rusqlite::Statement<'conn>, rows: rusqlite::Rows<'conn>|
                #![trigger bound(statement, Ok(rows))]
                prepared(Ok(statement)) && bound(statement, Ok(rows))
                    && stepping(rows, seq![RowEvent::Decoded(Ok(v)), RowEvent::Finished])
        },
        res matches Err(QueryError::QueryReturnedMoreThanOneRow) ==>
            exists|statement: rusqlite::Statement<'conn>, rows: rusqlite::Rows<'conn>, d: Result<T, rusqlite::Error>|
                #![trigger bound(statement, Ok(rows)), stepping(rows, Seq::empty().push(RowEvent::Decoded(d)).push(RowEvent::Skipped))]
                prepared(Ok(statement)) && bound(statement, Ok(rows))
                    && stepping(rows, Seq::empty().push(RowEvent::Decoded(d)).push(RowEvent::Skipped)),
        res matches Err(QueryError::Sqlite(e)) ==> {
            ||| prepared(Err(e))
            ||| exists|statement: rusqlite::Statement<'conn>|
                #![trigger prepared(Ok(statement))]
                prepared(Ok(statement)) && bound(statement, Err(e))
            ||| exists|statement: rusqlite::Statement<'conn>, rows: rusqlite::Rows<'conn>|
                #![trigger bound(statement, Ok(rows))]
                prepared(Ok(statement)) && bound(statement, Ok(rows)) && {
                    ||| stepping(rows, seq![RowEvent::Failed(e)])
                    ||| stepping(rows, seq![RowEvent::Decoded(Err(e)), RowEvent::Finished])
                    ||| exists|d: Result<T, rusqlite::Error>|
                        #[trigger] stepping(rows, Seq::empty().push(RowEvent::Decoded(d)).push(RowEvent::Failed(e)))
                }
        },
{
    let opened = choose|opened: Result<rusqlite::Rows<'conn>, rusqlite::Error>|
        #[trigger] opened_by(prepared, bound, opened) && match opened {
            Err(e) => res == Err::<Option<T>, QueryError>(QueryError::Sqlite(e)),
            Ok(rows) => exists|steps: Seq<RowEvent<T>>|
                #[trigger] stepping(rows, steps) && optional_steps(steps) && res == optional_result(steps),
        };
    if let Ok(rows) = opened {
        let statement = choose|statement: rusqlite::Statement<'conn>|
            #[trigger] prepared(Ok::<rusqlite::Statement<'conn>, rusqlite::Error>(statement))
                && bound(statement, opened);
        let steps = choose|steps: Seq<RowEvent<T>>|
            #[trigger] stepping(rows, steps) && optional_steps(steps) && res == optional_result(steps);
        if steps.len() == 1 {
            assert(steps =~= seq![steps[0]]);
        } else {
            assert(steps =~= seq![steps[0], steps[1]]);
            match steps[0] {
                RowEvent::Decoded(d) => {
                    assert(steps =~= Seq::empty().push(RowEvent::Decoded(d)).push(steps[1]));
                    assert(stepping(rows, Seq::empty().push(RowEvent::Decoded(d)).push(steps[1])));
                },
                _ => {},
            }
        }
    }
}

/// Reading every declared row (category `2`) never reports a count of rows
/// as an error. On success the values are those of all the rows that the
/// statement, prepared from the SQL and bound with the parameters, produced
/// before it finished, in their order (none, if it finished at once).
/// Otherwise the error is rusqlite's, from preparing, binding, or the first
/// step that failed or whose row failed to decode, every earlier row having
/// decoded.
pub proof fn all_rows_reads_every_row<'conn, T>(
    prepared: spec_fn(Result<rusqlite::Statement<'conn>, rusqlite::Error>) -> bool,
    bound: spec_fn(rusqlite::Statement<'conn>, Result<rusqlite::Rows<'conn>, rusqlite::Error>) -> bool,
    stepping: spec_fn(rusqlite::Rows<'conn>, Seq<RowEvent<T>>) -> bool,
    decoded: spec_fn(T) -> bool,
    executed: spec_fn(Result<usize, rusqlite::Error>) -> bool,
    res: Result<Vec<T>, QueryError>,
)
    requires
        <Vec<T> as FromRows<'conn, 2>>::delivers(prepared, bound, stepping, decoded, executed, res),
    ensures
        res matches Ok(values) ==> {
            &&& forall|i: int| 0 <= i < values.len() ==> decoded(#[trigger] values@[i])
            &&& exists|statement: rusqlite::Statement<'conn>, rows: rusqlite::Rows<'conn>|
                #![trigger bound(statement, Ok(rows))]
                prepared(Ok(statement)) && bound(statement, Ok(rows)) && stepping(
                    rows,
                    Seq::new(values.len() as nat, |i: int| RowEvent::Decoded(Ok(values@[i]))).push(RowEvent::Finished),
                )
        },
        res matches Err(e) ==> e matches QueryError::Sqlite(x) && {
            ||| prepared(Err(x))
            ||| exists|statement: rusqlite::Statement<'conn>|
                #![trigger prepared(Ok(statement))]
                prepared(Ok(statement)) && bound(statement, Err(x))
            ||| exists|statement: rusqlite::Statement<'conn>, rows: rusqlite::Rows<'conn>, earlier: Seq<T>|
                #![trigger bound(statement, Ok(rows)), earlier.len()]
                prepared(Ok(statement)) && bound(statement, Ok(rows)) && {
                    let decoded_rows = Seq::new(earlier.len(), |i: int| RowEvent::Decoded(Ok(earlier[i])));
                    ||| stepping(rows, decoded_rows.push(RowEvent::Failed(x)))
                    ||| stepping(rows, decoded_rows.push(RowEvent::Decoded(Err(x))))
                }
        },
{
    let opened = choose|opened: Result<rusqlite::Rows<'conn>, rusqlite::Error>|
        #[trigger] opened_by(prepared, bound, opened) && match opened {
            Err(e) => res matches Err(f) && f == QueryError::Sqlite(e),
            Ok(rows) => exists|steps: Seq<RowEvent<T>>|
                #[trigger] stepping(rows, steps) && all_steps(steps) && match res {
                    Ok(values) => all_result(steps) == Ok::<Seq<T>, QueryError>(values@),
                    Err(e) => all_result(steps) == Err::<Seq<T>, QueryError>(e),
                },
        };
    if let Ok(rows) = opened {
        let statement = choose|statement: rusqlite::Statement<'conn>|
            #[trigger] prepared(Ok::<rusqlite::Statement<'conn>, rusqlite::Error>(statement))
                && bound(statement, opened);
        let steps = choose|steps: Seq<RowEvent<T>>|
            #[trigger] stepping(rows, steps) && all_steps(steps) && match res {
                Ok(values) => all_result(steps) == Ok::<Seq<T>, QueryError>(values@),
                Err(e) => all_result(steps) == Err::<Seq<T>, QueryError>(e),
            };
        let earlier = steps.drop_last().map_values(|event: RowEvent<T>| decoded_value(event));
        let decoded_rows = Seq::new(earlier.len(), |i: int| RowEvent::Decoded(Ok::<T, rusqlite::Error>(earlier[i])));
        assert(decoded_rows =~= steps.drop_last()) by {
            assert forall|i: int| 0 <= i < decoded_rows.len() implies decoded_rows[i] == steps.drop_last()[i] by {
                assert(steps.drop_last()[i] matches RowEvent::Decoded(Ok(_)));
            }
        }
        assert(steps =~= decoded_rows.push(steps.last()));
        if let Ok(values) = res {
            assert(values@ =~= earlier);
            assert(Seq::new(values.len() as nat, |i: int| RowEvent::Decoded(Ok::<T, rusqlite::Error>(values@[i])))
                =~= decoded_rows);
        } else {
            assert(earlier.len() == earlier.len());
        }
    }
}

/// Preparing a declared lazy query (category `3`) succeeds only with a
/// query that holds the very statement that preparing the SQL gave, after
/// the parameters bound to it successfully; otherwise it gives rusqlite's
/// error from preparing or, after the SQL prepared, from binding.
pub proof fn lazy_query_is_prepared_and_bound<'conn, T>(
    prepared: spec_fn(Result<rusqlite::Statement<'conn>, rusqlite::Error>) -> bool,
    bound: spec_fn(rusqlite::Statement<'conn>, Result<rusqlite::Rows<'conn>, rusqlite::Error>) -> bool,
    stepping: spec_fn(rusqlite::Rows<'conn>, Seq<RowEvent<T>>) -> bool,
    decoded: spec_fn(T) -> bool,
    executed: spec_fn(Result<usize, rusqlite::Error>) -> bool,
    res: Result<Query<'conn, T>, QueryError>,
)
    requires
        <Query<'conn, T> as FromRows<'conn, 3>>::delivers(prepared, bound, stepping, decoded, executed, res),
    ensures
        res matches Ok(query) ==> {
            &&& query.statement() == query.prepared()
            &&& prepared(Ok(query.prepared()))
            &&& exists|rows: rusqlite::Rows<'conn>| #[trigger] bound(query.prepared(), Ok(rows))
        },
        res matches Err(e) ==> e matches QueryError::Sqlite(x) && {
            ||| prepared(Err(x))
            ||| exists|statement: rusqlite::Statement<'conn>|
                #![trigger prepared(Ok(statement))]
                prepared(Ok(statement)) && bound(statement, Err(x))
        },
{
}

/// Running a declared statement without rows (category `4`) succeeds
/// exactly as rusqlite's `execute` of the SQL with the parameters did,
/// whatever count of changed rows it gave, and fails with exactly the error
/// it gave.
pub proof fn no_rows_reports_what_execute_gave<'conn>(
    prepared: spec_fn(Result<rusqlite::Statement<'conn>, rusqlite::Error>) -> bool,
    bound: spec_fn(rusqlite::Statement<'conn>, Result<rusqlite::Rows<'conn>, rusqlite::Error>) -> bool,
    stepping: spec_fn(rusqlite::Rows<'conn>, Seq<RowEvent<()>>) -> bool,
    decoded: spec_fn(()) -> bool,
    executed: spec_fn(Result<usize, rusqlite::Error>) -> bool,
    res: Result<(), QueryError>,
)
    requires
        <() as FromRows<'conn, 4>>::delivers(prepared, bound, stepping, decoded, executed, res),
    ensures
        res is Ok ==> exists|changed: usize| #[trigger] executed(Ok(changed)),
        res matches Err(e) ==> e matches QueryError::Sqlite(x) && executed(Err(x)),
{
}

} // verus!
