//! A cursor over the rows of an executing statement that keeps a record of
//! everything each step observed.

use vstd::prelude::*;
use crate::error::QueryError;
use crate::sqlite;
use std::marker::PhantomData;

verus! {

/// What one step of a statement observed.
pub enum RowEvent<T> {
    /// A row came and was handed to the decoder, which returned this.
    Decoded(Result<T, rusqlite::Error>),
    /// A row came and was not decoded.
    Skipped,
    /// The statement finished: there was no further row.
    Finished,
    /// Stepping the statement failed with this error.
    Failed(rusqlite::Error),
}

impl<T> RowEvent<T> {
    /// The item that a row iterator yields for this step: the decoded value
    /// or its error for a decoded row, the error of a failed step, nothing
    /// at the end.
    pub open spec fn item(self) -> Option<Result<T, QueryError>> {
        match self {
            RowEvent::Decoded(Ok(v)) => Some(Ok(v)),
            RowEvent::Decoded(Err(e)) => Some(Err(QueryError::Sqlite(e))),
            RowEvent::Skipped => None,
            RowEvent::Finished => None,
            RowEvent::Failed(e) => Some(Err(QueryError::Sqlite(e))),
        }
    }
}

/// `decode` can return `result` for some row.
pub open spec fn decoder_returned<T, F: Fn(&rusqlite::Row<'_>) -> Result<T, rusqlite::Error>>(
    decode: F,
    result: Result<T, rusqlite::Error>,
) -> bool {
    exists|row: &rusqlite::Row<'_>| #[trigger] decode.ensures((row,), result)
}

/// Stepping the row handle `before` once through the library's stepping
/// calls can leave it as `after` having observed `event`: a decoded row, a
/// skipped row, the finish or a failed step.
pub closed spec fn step_gives<'stmt, T, F: Fn(&rusqlite::Row<'_>) -> Result<T, rusqlite::Error>>(
    before: rusqlite::Rows<'stmt>,
    after: rusqlite::Rows<'stmt>,
    event: RowEvent<T>,
) -> bool {
    match event {
        RowEvent::Decoded(d) => exists|decode: &F| #[trigger] call_ensures(
            sqlite::step_decoded::<T, F>,
            (before, decode),
            (after, Ok::<Option<Result<T, rusqlite::Error>>, rusqlite::Error>(Some(d))),
        ),
        RowEvent::Skipped => call_ensures(
            sqlite::step_skipped,
            (before,),
            (after, Ok::<bool, rusqlite::Error>(true)),
        ),
        RowEvent::Finished => {
            ||| exists|decode: &F| #[trigger] call_ensures(
                sqlite::step_decoded::<T, F>,
                (before, decode),
                (after, Ok::<Option<Result<T, rusqlite::Error>>, rusqlite::Error>(None)),
            )
            ||| call_ensures(sqlite::step_skipped, (before,), (after, Ok::<bool, rusqlite::Error>(false)))
        },
        RowEvent::Failed(e) => {
            ||| exists|decode: &F| #[trigger] call_ensures(
                sqlite::step_decoded::<T, F>,
                (before, decode),
                (after, Err::<Option<Result<T, rusqlite::Error>>, rusqlite::Error>(e)),
            )
            ||| call_ensures(sqlite::step_skipped, (before,), (after, Err::<bool, rusqlite::Error>(e)))
        },
    }
}

/// The event that a decoding step observed.
pub open spec fn decoded_event<T>(outcome: Result<Option<Result<T, rusqlite::Error>>, rusqlite::Error>) -> RowEvent<T> {
    match outcome {
        Ok(Some(d)) => RowEvent::Decoded(d),
        Ok(None) => RowEvent::Finished,
        Err(e) => RowEvent::Failed(e),
    }
}

/// The event that a step without decoding observed.
pub open spec fn skipped_event<T>(outcome: Result<bool, rusqlite::Error>) -> RowEvent<T> {
    match outcome {
        Ok(true) => RowEvent::Skipped,
        Ok(false) => RowEvent::Finished,
        Err(e) => RowEvent::Failed(e),
    }
}

/// `trail` lists the states of a row handle that started as `rows`, one
/// more than `events`, each step leading from one state to the next with
/// its event.
pub open spec fn trail_fits<'stmt, T, F: Fn(&rusqlite::Row<'_>) -> Result<T, rusqlite::Error>>(
    rows: rusqlite::Rows<'stmt>,
    trail: Seq<rusqlite::Rows<'stmt>>,
    events: Seq<RowEvent<T>>,
) -> bool {
    &&& trail.len() == events.len() + 1
    &&& trail[0] == rows
    &&& forall|i: int| 0 <= i < events.len() ==> #[trigger] step_gives::<T, F>(trail[i], trail[i + 1], events[i])
}

/// A trail that fits, followed by one more step from its last handle,
/// still fits.
proof fn lemma_trail_extends<'stmt, T, F: Fn(&rusqlite::Row<'_>) -> Result<T, rusqlite::Error>>(
    rows: rusqlite::Rows<'stmt>,
    trail: Seq<rusqlite::Rows<'stmt>>,
    events: Seq<RowEvent<T>>,
    after: rusqlite::Rows<'stmt>,
    event: RowEvent<T>,
)
    requires
        trail_fits::<T, F>(rows, trail, events),
        step_gives::<T, F>(trail.last(), after, event),
    ensures
        trail_fits::<T, F>(rows, trail.push(after), events.push(event)),
{
    let longer = trail.push(after);
    let more = events.push(event);
    assert forall|i: int| 0 <= i < more.len() implies
        #[trigger] step_gives::<T, F>(longer[i], longer[i + 1], more[i]) by {
        if i < events.len() {
            assert(longer[i] == trail[i]);
            assert(longer[i + 1] == trail[i + 1]);
            assert(more[i] == events[i]);
        }
    }
}

/// Stepping the row handle `rows` one step after another can observe
/// `events`, in that order.
pub open spec fn rows_give<'stmt, T, F: Fn(&rusqlite::Row<'_>) -> Result<T, rusqlite::Error>>(
    rows: rusqlite::Rows<'stmt>,
    events: Seq<RowEvent<T>>,
) -> bool {
    exists|trail: Seq<rusqlite::Rows<'stmt>>| #[trigger] trail_fits::<T, F>(rows, trail, events)
}

/// The rows of a statement that has started (or will start) executing,
/// decoded with decoders of type `F`, together with the record of every step
/// taken through this cursor and the handle it started from.
pub struct RowCursor<'stmt, T, F> {
    rows: Option<rusqlite::Rows<'stmt>>,
    origin: Ghost<rusqlite::Rows<'stmt>>,
    trail: Ghost<Seq<rusqlite::Rows<'stmt>>>,
    record: Ghost<Seq<RowEvent<T>>>,
    decoder: PhantomData<F>,
}

impl<'stmt, T, F: Fn(&rusqlite::Row<'_>) -> Result<T, rusqlite::Error>> RowCursor<'stmt, T, F> {
    /// Every step taken through this cursor so far, oldest first.
    pub closed spec fn events(&self) -> Seq<RowEvent<T>> {
        self.record@
    }

    /// The row handle that the cursor started from.
    pub closed spec fn origin(&self) -> rusqlite::Rows<'stmt> {
        self.origin@
    }

    /// The cursor's record is what stepping its handle gave: the steps lead
    /// from the handle it started from to the handle it holds now.
    pub closed spec fn traced(&self) -> bool {
        &&& trail_fits::<T, F>(self.origin@, self.trail@, self.record@)
        &&& self.rows == Some(self.trail@.last())
    }

    /// The record of a traced cursor is what stepping its first handle, one
    /// step after another, can give.
    pub proof fn traced_rows_give(&self)
        requires
            self.traced(),
        ensures
            rows_give::<T, F>(self.origin(), self.events()),
    {
        assert(trail_fits::<T, F>(self.origin@, self.trail@, self.record@));
    }

    /// A cursor over `rows` that has taken no step yet.
    pub fn new(rows: rusqlite::Rows<'stmt>) -> (cursor: Self)
        ensures
            cursor.events() == Seq::<RowEvent<T>>::empty(),
            cursor.origin() == rows,
            cursor.traced(),
    {
        let ghost start = rows;
        let ghost trail = seq![start];
        let cursor = RowCursor {
            rows: Some(rows),
            origin: Ghost(start),
            trail: Ghost(trail),
            record: Ghost(Seq::empty()),
            decoder: PhantomData,
        };
        cursor
    }

    /// Steps once and, if a row comes, decodes it: `Ok(Some(d))` carries what
    /// `decode` returned for the row, `Ok(None)` means the statement
    /// finished, `Err` is the error of a failed step.
    pub fn step_decoded(&mut self, decode: &F) -> (res: Result<Option<Result<T, rusqlite::Error>>, QueryError>)
        requires
            old(self).traced(),
            forall|row: &rusqlite::Row<'_>| decode.requires((row,)),
        ensures
            final(self).traced(),
            final(self).origin() == old(self).origin(),
            final(self).events().len() == old(self).events().len() + 1,
            final(self).events().drop_last() == old(self).events(),
            res == match final(self).events().last() {
                RowEvent::Decoded(d) => Ok(Some(d)),
                RowEvent::Failed(e) => Err(QueryError::Sqlite(e)),
                _ => Ok(None),
            },
            !(final(self).events().last() is Skipped),
            final(self).events().last() matches RowEvent::Decoded(d)
                ==> decoder_returned(*decode, d),
    {
        let ghost before_events = self.record@;
        let ghost before_trail = self.trail@;
        let current = self.rows.take().unwrap();
        let stepped = sqlite::step_decoded(current, decode);
        let (next, outcome) = stepped;
        let ghost after = next;
        self.rows = Some(next);
        let ghost event = decoded_event(outcome);
        proof {
            self.record@ = before_events.push(event);
            self.trail@ = before_trail.push(after);
            assert(self.record@.drop_last() =~= before_events);
            assert(step_gives::<T, F>(before_trail.last(), after, event));
            lemma_trail_extends::<T, F>(self.origin@, before_trail, before_events, after, event);
        }
        match outcome {
            Ok(found) => Ok(found),
            Err(e) => Err(QueryError::Sqlite(e)),
        }
    }

    /// The next item of the rows mapped through `decode`: the decoded value,
    /// or an error item for a failed step or a failed decoding; `None` once
    /// the statement has finished.
    pub fn fetch(&mut self, decode: &F) -> (item: Option<Result<T, QueryError>>)
        requires
            old(self).traced(),
            forall|row: &rusqlite::Row<'_>| decode.requires((row,)),
        ensures
            final(self).traced(),
            final(self).origin() == old(self).origin(),
            final(self).events().len() == old(self).events().len() + 1,
            final(self).events().drop_last() == old(self).events(),
            !(final(self).events().last() is Skipped),
            item == final(self).events().last().item(),
            final(self).events().last() matches RowEvent::Decoded(d)
                ==> decoder_returned(*decode, d),
    {
        match self.step_decoded(decode) {
            Ok(Some(Ok(v))) => Some(Ok(v)),
            Ok(Some(Err(e))) => Some(Err(QueryError::Sqlite(e))),
            Ok(None) => None,
            Err(e) => Some(Err(e)),
        }
    }

    /// Steps once without decoding: `Ok(true)` if a row came, `Ok(false)` at
    /// the end, the step's error if it failed.
    pub fn skip(&mut self) -> (res: Result<bool, QueryError>)
        requires
            old(self).traced(),
        ensures
            final(self).traced(),
            final(self).origin() == old(self).origin(),
            final(self).events().len() == old(self).events().len() + 1,
            final(self).events().drop_last() == old(self).events(),
            !(final(self).events().last() is Decoded),
            res == match final(self).events().last() {
                RowEvent::Failed(e) => Err(QueryError::Sqlite(e)),
                RowEvent::Skipped => Ok(true),
                _ => Ok(false),
            },
    {
        let ghost before_events = self.record@;
        let ghost before_trail = self.trail@;
        let current = self.rows.take().unwrap();
        let stepped = sqlite::step_skipped(current);
        let (next, outcome) = stepped;
        let ghost after = next;
        self.rows = Some(next);
        let ghost event = skipped_event::<T>(outcome);
        proof {
            self.record@ = before_events.push(event);
            self.trail@ = before_trail.push(after);
            assert(self.record@.drop_last() =~= before_events);
            assert(step_gives::<T, F>(before_trail.last(), after, event));
            lemma_trail_extends::<T, F>(self.origin@, before_trail, before_events, after, event);
        }
        match outcome {
            Ok(found) => Ok(found),
            Err(e) => Err(QueryError::Sqlite(e)),
        }
    }
}

} // verus!
