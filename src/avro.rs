use vstd::prelude::*;
use vstd::string::*;

use crate::counts::{published, record, CountsModel};

verus! {

/// Logical time attached to every emitted tuple.
pub type Timestamp = u64;

/// Signed multiplicity of an emitted tuple.
pub type Diff = isize;

/// The decode result for one payload: the record's value before and after
/// the change, each of which may be absent.
#[derive(Debug, Clone, PartialEq, Eq)]
pub struct DiffPair<R> {
    pub before: Option<R>,
    pub after: Option<R>,
}

/// Why a decode entry point did not produce its value.
#[derive(Debug, Clone, PartialEq, Eq)]
pub enum DecodeError<R> {
    /// The engine could not decode the payload; holds the engine's message.
    Deserialization(String),
    /// A key payload decoded to no row.
    NoKey,
    /// A source that carries only inserts produced an update or a delete.
    /// The host treats this as fatal: the source was misconfigured.
    NonInsertOnInsertOnlySource(DiffPair<R>),
}

impl<R> DecodeError<R> {
    /// The message that describes this error.
    pub fn message(&self) -> (r: String)
        ensures
            match self {
                DecodeError::Deserialization(cause) =>
                    r@ == "avro deserialization error: "@ + cause@,
                DecodeError::NoKey => r@ == "no avro key found for record"@,
                DecodeError::NonInsertOnInsertOnlySource(_) =>
                    r@ == "Updates and deletes are not allowed for this source! This probably means it was started with `start_offset`."@,
            },
    {
        match self {
            DecodeError::Deserialization(cause) => {
                let head = String::from_str("avro deserialization error: ");
                head.concat(cause.as_str())
            },
            DecodeError::NoKey => String::from_str("no avro key found for record"),
            DecodeError::NonInsertOnInsertOnlySource(_) => String::from_str(
                "Updates and deletes are not allowed for this source! This probably means it was started with `start_offset`.",
            ),
        }
    }
}

/// Whether the entry point that sees `res` counts it as a success: the
/// engine decoded the payload.
pub open spec fn decoded<R>(res: Result<DiffPair<R>, String>) -> bool {
    res is Ok
}

/// Whether `decode_key` counts `res` as a success: the engine decoded the
/// payload to a row.
pub open spec fn decoded_key<R>(res: Result<DiffPair<R>, String>) -> bool {
    match res {
        Ok(pair) => pair.after is Some,
        Err(_) => false,
    }
}

/// The counts that publishing adds to the global metrics, one entry per
/// counter; an entry is absent where its count is zero.
#[derive(Debug, Clone, PartialEq, Eq)]
pub struct CounterIncrements {
    pub success: Option<i64>,
    pub error: Option<i64>,
}

/// An optional machine count as an optional integer.
pub open spec fn opt_int(o: Option<i64>) -> Option<int> {
    match o {
        Some(n) => Some(n as int),
        None => None,
    }
}

/// The tuples that a decoded value payload emits, in order: the `before`
/// row, then the `after` row, each with multiplicity `+1`. A `before` row
/// already encodes its own retraction, which a later stage turns into a
/// negative multiplicity.
pub open spec fn value_tuples<R>(pair: DiffPair<R>, time: Timestamp) -> Seq<(R, Timestamp, Diff)> {
    let b = match pair.before {
        Some(row) => seq![(row, time, 1 as Diff)],
        None => Seq::empty(),
    };
    let a = match pair.after {
        Some(row) => seq![(row, time, 1 as Diff)],
        None => Seq::empty(),
    };
    b + a
}

/// The decoder adapter: owns the decode engine, the per-batch counters of
/// decode outcomes, and the insert-only policy fixed at construction.
pub struct AvroDecoderState<D> {
    decoder: D,
    events_success: i64,
    events_error: i64,
    reject_non_inserts: bool,
}

impl<D> AvroDecoderState<D> {
    /// The counters as `(success, error)`.
    pub closed spec fn counts(&self) -> CountsModel {
        (self.events_success as int, self.events_error as int)
    }

    /// The insert-only policy.
    pub closed spec fn rejects_non_inserts(&self) -> bool {
        self.reject_non_inserts
    }

    /// The decode engine.
    pub closed spec fn engine(&self) -> D {
        self.decoder
    }

    /// Counters never go below zero.
    pub open spec fn wf(&self) -> bool {
        self.counts().0 >= 0 && self.counts().1 >= 0
    }

    /// Both counters can take one more decode attempt.
    pub open spec fn has_room(&self) -> bool {
        self.counts().0 < i64::MAX && self.counts().1 < i64::MAX
    }

    /// Wraps a constructed decode engine, with both counters at zero.
    pub fn new(decoder: D, reject_non_inserts: bool) -> (r: Self)
        ensures
            r.wf(),
            r.counts() == (0int, 0int),
            r.rejects_non_inserts() == reject_non_inserts,
            r.engine() == decoder,
    {
        AvroDecoderState { decoder, events_success: 0, events_error: 0, reject_non_inserts }
    }

    /// The decode engine, for making the next decode call.
    pub fn decoder(&mut self) -> (r: &mut D)
        ensures
            *final(r) == final(self).engine(),
            final(self).counts() == old(self).counts(),
            final(self).rejects_non_inserts() == old(self).rejects_non_inserts(),
    {
        &mut self.decoder
    }

    /// Whether both counters can take one more decode attempt.
    pub fn has_room_for_attempt(&self) -> (r: bool)
        ensures
            r == self.has_room(),
    {
        self.events_success < i64::MAX && self.events_error < i64::MAX
    }

    /// Counts one decode attempt.
    fn count(&mut self, ok: bool)
        requires
            old(self).has_room(),
        ensures
            final(self).counts() == record(old(self).counts(), ok),
            final(self).rejects_non_inserts() == old(self).rejects_non_inserts(),
            final(self).engine() == old(self).engine(),
    {
        if ok {
            self.events_success = self.events_success + 1;
        } else {
            self.events_error = self.events_error + 1;
        }
    }

    /// Sets both counters to zero, at a batch boundary.
    pub fn reset_event_count(&mut self)
        ensures
            final(self).wf(),
            final(self).counts() == (0int, 0int),
            final(self).rejects_non_inserts() == old(self).rejects_non_inserts(),
            final(self).engine() == old(self).engine(),
    {
        self.events_success = 0;
        self.events_error = 0;
    }
}

impl<D> AvroDecoderState<D> {
    /// Decodes a key payload, given the engine's result for it (decoded with
    /// no coordinate). A key is the decoded `after` row; a payload that
    /// decodes to no row, or does not decode, is an error.
    pub fn decode_key<R>(&mut self, res: Result<DiffPair<R>, String>) -> (r: Result<R, DecodeError<R>>)
        requires
            old(self).wf(),
            old(self).has_room(),
        ensures
            final(self).wf(),
            final(self).counts() == record(old(self).counts(), decoded_key(res)),
            final(self).rejects_non_inserts() == old(self).rejects_non_inserts(),
            final(self).engine() == old(self).engine(),
            match res {
                Ok(pair) => match pair.after {
                    Some(row) => r == Ok::<R, DecodeError<R>>(row),
                    None => r == Err::<R, DecodeError<R>>(DecodeError::NoKey),
                },
                Err(cause) => r == Err::<R, DecodeError<R>>(DecodeError::Deserialization(cause)),
            },
    {
        match res {
            Ok(pair) => match pair.after {
                Some(row) => {
                    self.count(true);
                    Ok(row)
                },
                None => {
                    self.count(false);
                    Err(DecodeError::NoKey)
                },
            },
            Err(cause) => {
                self.count(false);
                Err(DecodeError::Deserialization(cause))
            },
        }
    }

    /// Emits a key with its decoded value, given the engine's result for the
    /// value payload. A decoded payload emits exactly one tuple
    /// `(key, after, time)`; an absent `after` marks the key as deleted. A
    /// payload that does not decode emits nothing and is returned as the
    /// error to log.
    pub fn give_key_value<R>(
        &mut self,
        key: R,
        res: Result<DiffPair<R>, String>,
        session: &mut Vec<(R, Option<R>, Timestamp)>,
        time: Timestamp,
    ) -> (r: Result<(), DecodeError<R>>)
        requires
            old(self).wf(),
            old(self).has_room(),
        ensures
            final(self).wf(),
            final(self).counts() == record(old(self).counts(), decoded(res)),
            final(self).rejects_non_inserts() == old(self).rejects_non_inserts(),
            final(self).engine() == old(self).engine(),
            match res {
                Ok(pair) => r is Ok && final(session)@ == old(session)@.push((key, pair.after, time)),
                Err(cause) => r == Err::<(), DecodeError<R>>(DecodeError::Deserialization(cause))
                    && final(session)@ == old(session)@,
            },
    {
        match res {
            Ok(pair) => {
                self.count(true);
                session.push((key, pair.after, time));
                Ok(())
            },
            Err(cause) => {
                self.count(false);
                Err(DecodeError::Deserialization(cause))
            },
        }
    }

    /// Emits a standalone value, given the engine's result for its payload.
    /// A decoded payload emits its `before` row, then its `after` row, each
    /// present one with multiplicity `+1`. Under the insert-only policy a
    /// `before` row is a misconfigured source: nothing is emitted and the
    /// pair is returned in an error that the host treats as fatal. A
    /// payload that does not decode emits nothing and is returned as the
    /// error to log.
    pub fn give_value<R>(
        &mut self,
        res: Result<DiffPair<R>, String>,
        session: &mut Vec<(R, Timestamp, Diff)>,
        time: Timestamp,
    ) -> (r: Result<(), DecodeError<R>>)
        requires
            old(self).wf(),
            old(self).has_room(),
        ensures
            final(self).wf(),
            final(self).counts() == record(old(self).counts(), decoded(res)),
            final(self).rejects_non_inserts() == old(self).rejects_non_inserts(),
            final(self).engine() == old(self).engine(),
            match res {
                Ok(pair) => if old(self).rejects_non_inserts() && pair.before is Some {
                    r == Err::<(), DecodeError<R>>(DecodeError::NonInsertOnInsertOnlySource(pair))
                        && final(session)@ == old(session)@
                } else {
                    r is Ok && final(session)@ == old(session)@ + value_tuples(pair, time)
                },
                Err(cause) => r == Err::<(), DecodeError<R>>(DecodeError::Deserialization(cause))
                    && final(session)@ == old(session)@,
            },
    {
        match res {
            Ok(pair) => {
                self.count(true);
                if self.reject_non_inserts && pair.before.is_some() {
                    return Err(DecodeError::NonInsertOnInsertOnlySource(pair));
                }
                let ghost start = session@;
                match pair.before {
                    Some(row) => session.push((row, time, 1)),
                    None => {},
                }
                match pair.after {
                    Some(row) => session.push((row, time, 1)),
                    None => {},
                }
                proof {
                    assert(session@ == start + value_tuples(pair, time));
                }
                Ok(())
            },
            Err(cause) => {
                self.count(false);
                Err(DecodeError::Deserialization(cause))
            },
        }
    }

    /// The counts to add to the global metrics at the end of a batch: each
    /// counter, where it is positive. The counters stay as they are.
    pub fn log_error_count(&self) -> (r: CounterIncrements)
        ensures
            (opt_int(r.success), opt_int(r.error)) == published(self.counts()),
    {
        let success = if self.events_success > 0 { Some(self.events_success) } else { None };
        let error = if self.events_error > 0 { Some(self.events_error) } else { None };
        CounterIncrements { success, error }
    }
}

/// A decoded insert (an `after` row and no `before` row) emits exactly one
/// tuple, the `after` row with multiplicity `+1`, and counts as one success
/// and no error.
pub proof fn lemma_insert_emits_one_tuple<R>(c: CountsModel, row: R, time: Timestamp)
    ensures
        value_tuples(DiffPair { before: None, after: Some(row) }, time) == seq![(row, time, 1 as Diff)],
        record(c, decoded(Ok::<DiffPair<R>, String>(DiffPair { before: None, after: Some(row) })))
            == (c.0 + 1, c.1),
{
    assert(value_tuples(DiffPair { before: None, after: Some(row) }, time) =~= seq![(row, time, 1 as Diff)]);
}

/// A payload that does not decode counts as one error and no success, on
/// every entry point.
pub proof fn lemma_failure_counts_one_error<R>(c: CountsModel, cause: String)
    ensures
        record(c, decoded(Err::<DiffPair<R>, String>(cause))) == (c.0, c.1 + 1),
        record(c, decoded_key(Err::<DiffPair<R>, String>(cause))) == (c.0, c.1 + 1),
{
}

/// A decoded update (both rows present) emits two tuples, the `before` row
/// and then the `after` row, each with multiplicity `+1`.
pub proof fn lemma_update_emits_before_then_after<R>(before: R, after: R, time: Timestamp)
    ensures
        value_tuples(DiffPair { before: Some(before), after: Some(after) }, time)
            == seq![(before, time, 1 as Diff), (after, time, 1 as Diff)],
{
    assert(value_tuples(DiffPair { before: Some(before), after: Some(after) }, time)
        =~= seq![(before, time, 1 as Diff), (after, time, 1 as Diff)]);
}

} // verus!
