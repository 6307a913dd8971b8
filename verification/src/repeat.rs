//! Runs of items that follow one another in the buffer.

use crate::cursor::{spec_u1, spec_u2, ClassParser};
use crate::error::{DecodeError, DecodeErrorView};
use crate::outcome::{views, Decoded, viewed};
use vstd::prelude::*;

verus! {

/// `count` items, each decoded by `item` from where the one before it ended,
/// the first from `pos`. The first item that fails, fails the run.
pub open spec fn spec_repeat<T>(item: spec_fn(int) -> Decoded<T>, pos: int, count: nat) -> Decoded<
    Seq<T>,
>
    decreases count,
{
    if count == 0 {
        Ok((Seq::empty(), pos))
    } else {
        match item(pos) {
            Err(e) => Err(e),
            Ok((first, next)) => match spec_repeat(item, next, (count - 1) as nat) {
                Err(e) => Err(e),
                Ok((rest, end)) => Ok((seq![first] + rest, end)),
            },
        }
    }
}

/// A run that starts with a 16-bit count of its items.
pub open spec fn spec_counted<T>(
    bytes: Seq<u8>,
    pos: int,
    item: spec_fn(int) -> Decoded<T>,
) -> Decoded<
    Seq<T>,
> {
    match spec_u2(bytes, pos) {
        Err(e) => Err(e),
        Ok((count, first)) => spec_repeat(item, first, count as nat),
    }
}

/// The decoder of one byte, as a function of the position.
pub open spec fn u1_at(bytes: Seq<u8>) -> spec_fn(int) -> Decoded<u8> {
    |pos: int| spec_u1(bytes, pos)
}

/// The decoder of one 16-bit value, as a function of the position.
pub open spec fn u2_at(bytes: Seq<u8>) -> spec_fn(int) -> Decoded<u16> {
    |pos: int| spec_u2(bytes, pos)
}

/// `count` 16-bit values in a row.
pub open spec fn spec_u2_run(bytes: Seq<u8>, pos: int, count: nat) -> Decoded<Seq<u16>> {
    spec_repeat(u2_at(bytes), pos, count)
}

/// A 16-bit count and that many 16-bit values.
pub open spec fn spec_u2_list(bytes: Seq<u8>, pos: int) -> Decoded<Seq<u16>> {
    spec_counted(bytes, pos, u2_at(bytes))
}

/// The run `rest` with `done` put in front of its items.
pub open spec fn prepend<T>(done: Seq<T>, rest: Decoded<Seq<T>>) -> Decoded<Seq<T>> {
    match rest {
        Ok((items, end)) => Ok((done + items, end)),
        Err(e) => Err(e),
    }
}

/// One step of a run: with `done` decoded so far and `count` items to go, the
/// run is the next item followed by a run of one item fewer, and fails where
/// the next item fails.
pub proof fn lemma_repeat_step<T>(
    item: spec_fn(int) -> Decoded<T>,
    done: Seq<T>,
    pos: int,
    count: nat,
)
    requires
        count > 0,
    ensures
        match item(pos) {
            Ok((next, after)) => prepend(done, spec_repeat(item, pos, count)) == prepend(
                done.push(next),
                spec_repeat(item, after, (count - 1) as nat),
            ),
            Err(e) => prepend(done, spec_repeat(item, pos, count)) == Err::<
                (Seq<T>, int),
                DecodeErrorView,
            >(e),
        },
{
    match item(pos) {
        Ok((next, after)) => {
            match spec_repeat(item, after, (count - 1) as nat) {
                Ok((rest, end)) => {
                    assert(done + (seq![next] + rest) =~= done.push(next) + rest);
                },
                Err(e) => {},
            }
        },
        Err(e) => {},
    }
}

/// A run with nothing to go is what was decoded so far.
pub proof fn lemma_repeat_done<T>(item: spec_fn(int) -> Decoded<T>, done: Seq<T>, pos: int)
    ensures
        prepend(done, spec_repeat(item, pos, 0)) == Ok::<(Seq<T>, int), DecodeErrorView>(
            (done, pos),
        ),
{
    assert(done + Seq::<T>::empty() =~= done);
}

/// A run is a run with nothing put in front.
pub proof fn lemma_repeat_start<T>(item: spec_fn(int) -> Decoded<T>, pos: int, count: nat)
    ensures
        spec_repeat(item, pos, count) == prepend(Seq::<T>::empty(), spec_repeat(item, pos, count)),
{
    match spec_repeat(item, pos, count) {
        Ok((items, end)) => {
            assert(Seq::<T>::empty() + items =~= items);
        },
        Err(e) => {},
    }
}

/// The views of a sequence with one more item.
pub proof fn lemma_views_push<T: View>(s: Seq<T>, last: T)
    ensures
        views(s.push(last)) == views(s).push(last@),
{
    assert(views(s.push(last)) =~= views(s).push(last@));
}

/// Reads `count` 16-bit values in a row.
#[verifier::loop_isolation(false)]
pub fn u2_run_from_bytes(parser: &mut ClassParser<'_>, count: u16) -> (r: Result<
    Vec<u16>,
    DecodeError,
>)
    ensures
        final(parser)@.bytes == old(parser)@.bytes,
        final(parser)@.position >= old(parser)@.position,
        viewed(r, final(parser)@.position) == spec_u2_run(
            old(parser)@.bytes,
            old(parser)@.position,
            count as nat,
        ),
{
    let ghost item = u2_at(parser@.bytes);
    let ghost first = parser@.position;
    let mut values: Vec<u16> = Vec::new();
    let mut i: u16 = 0;
    proof {
        lemma_repeat_start(item, first, count as nat);
    }
    while i < count
        invariant
            parser@.bytes == old(parser)@.bytes,
            parser@.position >= first,
            i <= count,
            spec_repeat(item, first, count as nat) == prepend(
                values@,
                spec_repeat(item, parser@.position, (count - i) as nat),
            ),
        decreases count - i,
    {
        proof {
            lemma_repeat_step(item, values@, parser@.position, (count - i) as nat);
        }
        let value: u16 = parser.u2()?;
        values.push(value);
        i = i + 1;
    }
    proof {
        lemma_repeat_done(item, values@, parser@.position);
    }
    Ok(values)
}

/// Reads a 16-bit count and that many 16-bit values.
pub fn u2_list_from_bytes(parser: &mut ClassParser<'_>) -> (r: Result<Vec<u16>, DecodeError>)
    ensures
        final(parser)@.bytes == old(parser)@.bytes,
        final(parser)@.position >= old(parser)@.position,
        viewed(r, final(parser)@.position) == spec_u2_list(
            old(parser)@.bytes,
            old(parser)@.position,
        ),
{
    let count: u16 = parser.u2()?;
    u2_run_from_bytes(parser, count)
}

} // verus!
