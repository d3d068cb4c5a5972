//! The data of a stream of events is what was sent, and does not depend on how the stream is cut
//! into pieces.

use crate::sse::{
    boundary, data_after, data_mark, event_data, feed_pair, find_mark, is_break, left,
    lemma_boundary, lemma_find_mark, line_data, ready, return_pair, without_breaks,
    without_returns,
};
use crate::text::bytes::utf8_lossy;
use crate::text::space::trim;
use vstd::prelude::*;

verus! {

/// Whether no carriage return stands directly before `data:`. Such a return hides the data,
/// unless it follows an event and arrives together with it.
pub open spec fn hides_nothing(bytes: Seq<u8>) -> bool {
    forall|i: int|
        0 <= i && i + 6 <= bytes.len() && #[trigger] bytes[i] == 13 ==> bytes.subrange(i + 1, i + 6)
            != data_mark()
}

/// A stream, cut into pieces, put together.
pub open spec fn whole(pieces: Seq<Seq<u8>>) -> Seq<u8>
    decreases pieces.len(),
{
    if pieces.len() == 0 {
        Seq::empty()
    } else {
        whole(pieces.drop_last()) + pieces.last()
    }
}

/// What stays when the pieces have been pushed one by one.
pub open spec fn left_of_pieces(pieces: Seq<Seq<u8>>) -> Seq<u8>
    decreases pieces.len(),
{
    if pieces.len() == 0 {
        Seq::empty()
    } else {
        left(left_of_pieces(pieces.drop_last()) + pieces.last())
    }
}

/// The data that pushing the pieces one by one gives.
pub open spec fn data_of_pieces(pieces: Seq<Seq<u8>>) -> Seq<Seq<char>>
    decreases pieces.len(),
{
    if pieces.len() == 0 {
        Seq::empty()
    } else {
        data_of_pieces(pieces.drop_last()) + ready(
            left_of_pieces(pieces.drop_last()) + pieces.last(),
        )
    }
}

proof fn lemma_data_split(current: Seq<u8>, bytes: Seq<u8>, at: int)
    requires
        0 <= at < bytes.len(),
        bytes[at] == 10,
    ensures
        data_after(current, bytes) == data_after(current, bytes.take(at)) + event_data(
            bytes.skip(at + 1),
        ),
    decreases bytes.len(),
{
    let rest = bytes.drop_first();
    if at == 0 {
        assert(bytes.take(0).len() == 0);
        assert(bytes.skip(1) =~= rest);
    } else {
        lemma_data_split(
            if bytes[0] == 10 {
                Seq::empty()
            } else {
                current.push(bytes[0])
            },
            rest,
            at - 1,
        );
        assert(bytes.take(at).drop_first() =~= rest.take(at - 1));
        assert(rest.skip(at) =~= bytes.skip(at + 1));
        assert(bytes.take(at)[0] == bytes[0]);
        if bytes[0] == 10 {
            let first = line_data(current);
            let middle = data_after(Seq::empty(), rest.take(at - 1));
            let last = event_data(bytes.skip(at + 1));
            assert(first + (middle + last) =~= (first + middle) + last);
        }
    }
}

proof fn lemma_line_with_return(line: Seq<u8>)
    ensures
        line_data(line.push(13)) == line_data(line),
{
    let longer = line.push(13);
    if line.len() >= 5 {
        assert(longer.take(5) =~= line.take(5));
        assert(longer.skip(5) =~= line.skip(5).push(13));
        assert(longer.skip(5).drop_last() =~= line.skip(5));
    } else if line.len() == 4 {
        assert(longer.take(5)[4] == 13);
        assert(data_mark()[4] == 58);
    }
}

proof fn lemma_data_with_return(current: Seq<u8>, bytes: Seq<u8>)
    ensures
        data_after(current, bytes.push(13)) == data_after(current, bytes),
    decreases bytes.len(),
{
    if bytes.len() == 0 {
        lemma_line_with_return(current);
        assert(bytes.push(13).drop_first() =~= Seq::<u8>::empty());
        assert(data_after(current.push(13), bytes.push(13).drop_first()) == line_data(
            current.push(13),
        ));
    } else {
        assert(bytes.push(13).drop_first() =~= bytes.drop_first().push(13));
        if bytes[0] == 10 {
            lemma_data_with_return(Seq::empty(), bytes.drop_first());
        } else {
            lemma_data_with_return(current.push(bytes[0]), bytes.drop_first());
        }
    }
}

proof fn lemma_hides_nothing_suffix(bytes: Seq<u8>, start: int)
    requires
        hides_nothing(bytes),
        0 <= start <= bytes.len(),
    ensures
        hides_nothing(bytes.skip(start)),
{
    let rest = bytes.skip(start);
    assert forall|i: int|
        0 <= i && i + 6 <= rest.len() && #[trigger] rest[i] == 13 implies rest.subrange(
        i + 1,
        i + 6,
    ) != data_mark() by {
        assert(bytes[i + start] == 13);
        assert(rest.subrange(i + 1, i + 6) =~= bytes.subrange(i + start + 1, i + start + 6));
    }
}

/// A line that begins with a carriage return carries no data, and neither does the line without
/// it, where it hides nothing.
proof fn lemma_data_after_return(line: Seq<u8>, bytes: Seq<u8>)
    requires
        hides_nothing(seq![13u8] + line + bytes),
    ensures
        data_after(seq![13u8] + line, bytes) == data_after(line, bytes),
    decreases bytes.len(),
{
    let all = seq![13u8] + line + bytes;
    if bytes.len() == 0 || bytes[0] == 10 {
        assert(line_data(seq![13u8] + line) == Seq::<Seq<char>>::empty()) by {
            if 1 + line.len() >= 5 {
                assert((seq![13u8] + line).take(5)[0] == 13);
                assert(data_mark()[0] == 100);
            }
        }
        assert(line_data(line) == Seq::<Seq<char>>::empty()) by {
            if line.len() >= 5 {
                assert(all[0] == 13);
                assert(all.subrange(1, 6) =~= line.take(5));
            }
        }
    } else {
        assert((seq![13u8] + line).push(bytes[0]) =~= seq![13u8] + line.push(bytes[0]));
        assert(seq![13u8] + line.push(bytes[0]) + bytes.drop_first() =~= all);
        lemma_data_after_return(line.push(bytes[0]), bytes.drop_first());
    }
}

proof fn lemma_one_break(bytes: Seq<u8>)
    requires
        hides_nothing(bytes),
        bytes.len() > 0,
        is_break(bytes[0]),
    ensures
        event_data(bytes) == event_data(bytes.drop_first()),
{
    let rest = bytes.drop_first();
    if bytes[0] == 10 {
        assert(line_data(Seq::empty()) == Seq::<Seq<char>>::empty());
        assert(Seq::<Seq<char>>::empty() + event_data(rest) =~= event_data(rest));
    } else {
        assert(Seq::<u8>::empty().push(13) =~= seq![13u8] + Seq::<u8>::empty());
        assert(seq![13u8] + Seq::<u8>::empty() + rest =~= bytes);
        lemma_data_after_return(Seq::empty(), rest);
    }
}

/// Line ends at the start carry no data.
proof fn lemma_leading_breaks(bytes: Seq<u8>, count: int)
    requires
        hides_nothing(bytes),
        0 <= count <= bytes.len(),
        forall|i: int| 0 <= i < count ==> is_break(#[trigger] bytes[i]),
    ensures
        event_data(bytes) == event_data(bytes.skip(count)),
    decreases count,
{
    if count == 0 {
        assert(bytes.skip(0) =~= bytes);
    } else {
        let rest = bytes.drop_first();
        assert(is_break(bytes[0]));
        lemma_one_break(bytes);
        assert(rest =~= bytes.skip(1));
        lemma_hides_nothing_suffix(bytes, 1);
        assert forall|i: int| 0 <= i < count - 1 implies is_break(#[trigger] rest[i]) by {
            assert(is_break(bytes[i + 1]));
        }
        lemma_leading_breaks(rest, count - 1);
        assert(rest.skip(count - 1) =~= bytes.skip(count));
    }
}

proof fn lemma_count_breaks(bytes: Seq<u8>) -> (count: int)
    ensures
        0 <= count <= bytes.len(),
        without_breaks(bytes) == bytes.skip(count),
        forall|i: int| 0 <= i < count ==> is_break(#[trigger] bytes[i]),
        count < bytes.len() ==> !is_break(bytes[count]),
    decreases bytes.len(),
{
    if bytes.len() > 0 && is_break(bytes[0]) {
        let rest = bytes.drop_first();
        let count = lemma_count_breaks(rest);
        assert(rest.skip(count) =~= bytes.skip(count + 1));
        assert forall|i: int| 0 <= i < count + 1 implies is_break(#[trigger] bytes[i]) by {
            if i > 0 {
                assert(is_break(rest[i - 1]));
            }
        }
        if count < rest.len() {
            assert(bytes[count + 1] == rest[count]);
        }
        count + 1
    } else {
        assert(bytes.skip(0) =~= bytes);
        0
    }
}

/// Whether two line ends stand at `at`.
spec fn ends_event_at(bytes: Seq<u8>, at: int) -> bool {
    ||| 0 <= at && at + 2 <= bytes.len() && bytes.subrange(at, at + 2) == feed_pair()
    ||| 0 <= at && at + 4 <= bytes.len() && bytes.subrange(at, at + 4) == return_pair()
}

proof fn lemma_mark_found(bytes: Seq<u8>, mark: Seq<u8>, at: int)
    requires
        mark.len() > 0,
        0 <= at,
        at + mark.len() <= bytes.len(),
        bytes.subrange(at, at + mark.len()) == mark,
    ensures
        find_mark(bytes, mark) is Some,
    decreases bytes.len(),
{
    if bytes.take(mark.len() as int) == mark {
    } else if at == 0 {
        assert(bytes.subrange(0, mark.len() as int) =~= bytes.take(mark.len() as int));
    } else {
        let rest = bytes.drop_first();
        assert(rest.subrange(at - 1, at - 1 + mark.len()) =~= bytes.subrange(at, at + mark.len()));
        lemma_mark_found(rest, mark, at - 1);
    }
}

proof fn lemma_boundary_ends_event(bytes: Seq<u8>)
    ensures
        boundary(bytes) matches Some(at) ==> ends_event_at(bytes, at),
        boundary(bytes) is None ==> forall|at: int| !#[trigger] ends_event_at(bytes, at),
{
    lemma_find_mark(bytes, feed_pair());
    lemma_find_mark(bytes, return_pair());
    assert forall|at: int| boundary(bytes) is None implies !#[trigger] ends_event_at(
        bytes,
        at,
    ) by {
        if ends_event_at(bytes, at) {
            if 0 <= at && at + 2 <= bytes.len() && bytes.subrange(at, at + 2) == feed_pair() {
                lemma_mark_found(bytes, feed_pair(), at);
            } else {
                lemma_mark_found(bytes, return_pair(), at);
            }
        }
    }
}

/// The data of a stream is the data of its first event followed by that of the rest.
proof fn lemma_data_at_boundary(bytes: Seq<u8>, at: int)
    requires
        hides_nothing(bytes),
        ends_event_at(bytes, at),
    ensures
        event_data(bytes) == event_data(bytes.take(at)) + event_data(bytes.skip(at)),
{
    let rest = bytes.skip(at);
    lemma_hides_nothing_suffix(bytes, at);
    if 0 <= at && at + 2 <= bytes.len() && bytes.subrange(at, at + 2) == feed_pair() {
        assert(bytes.subrange(at, at + 2)[0] == 10);
        lemma_data_split(Seq::empty(), bytes, at);
        lemma_one_break(rest);
        assert(rest.drop_first() =~= bytes.skip(at + 1));
    } else {
        assert(bytes.subrange(at, at + 4)[0] == 13);
        assert(bytes.subrange(at, at + 4)[1] == 10);
        lemma_data_split(Seq::empty(), bytes, at + 1);
        assert(bytes.take(at + 1) =~= bytes.take(at).push(13));
        lemma_data_with_return(Seq::empty(), bytes.take(at));
        assert forall|i: int| 0 <= i < 2 implies is_break(#[trigger] rest[i]) by {
            assert(rest[i] == bytes.subrange(at, at + 4)[i]);
        }
        lemma_leading_breaks(rest, 2);
        assert(rest.skip(2) =~= bytes.skip(at + 2));
    }
}

/// Taking the complete events out of a stream leaves the data of the rest to come.
proof fn lemma_ready_then_left(bytes: Seq<u8>, more: Seq<u8>)
    requires
        hides_nothing(bytes + more),
    ensures
        event_data(bytes + more) == ready(bytes) + event_data(left(bytes) + more),
    decreases bytes.len(),
{
    lemma_boundary(bytes);
    lemma_boundary_ends_event(bytes);
    match boundary(bytes) {
        None => {
            assert(Seq::<Seq<char>>::empty() + event_data(bytes + more) =~= event_data(
                bytes + more,
            ));
        },
        Some(at) => {
            let all = bytes + more;
            assert(ends_event_at(all, at)) by {
                if at + 2 <= bytes.len() && bytes.subrange(at, at + 2) == feed_pair() {
                    assert(all.subrange(at, at + 2) =~= bytes.subrange(at, at + 2));
                } else {
                    assert(all.subrange(at, at + 4) =~= bytes.subrange(at, at + 4));
                }
            }
            lemma_data_at_boundary(all, at);
            assert(all.take(at) =~= bytes.take(at));
            let rest = bytes.skip(at);
            let count = lemma_count_breaks(rest);
            let after = without_breaks(rest);
            let tail = all.skip(at);
            lemma_hides_nothing_suffix(all, at);
            assert forall|i: int| 0 <= i < count implies is_break(#[trigger] tail[i]) by {
                assert(tail[i] == rest[i]);
            }
            lemma_leading_breaks(tail, count);
            assert(tail.skip(count) =~= after + more);
            lemma_hides_nothing_suffix(tail, count);
            lemma_ready_then_left(after, more);
            let head = event_data(bytes.take(at));
            assert(head + (ready(after) + event_data(left(after) + more)) =~= (head + ready(after))
                + event_data(left(after) + more));
        },
    }
}

/// Whether nothing stands before `start`, or an event end with line ends up to there.
spec fn follows_event(bytes: Seq<u8>, start: int) -> bool {
    ||| start == 0
    ||| exists|at: int| ends_before(bytes, at, start)
}

/// Whether an event ends at `at`, and only line ends stand between it and `start`.
spec fn ends_before(bytes: Seq<u8>, at: int, start: int) -> bool {
    &&& ends_event_at(bytes, at)
    &&& at <= start
    &&& forall|i: int| at <= i < start ==> is_break(#[trigger] bytes[i])
}

proof fn lemma_left_is_suffix(bytes: Seq<u8>) -> (start: int)
    ensures
        0 <= start <= bytes.len(),
        left(bytes) == bytes.skip(start),
        boundary(left(bytes)) is None,
        follows_event(bytes, start),
    decreases bytes.len(),
{
    lemma_boundary(bytes);
    lemma_boundary_ends_event(bytes);
    match boundary(bytes) {
        None => {
            assert(bytes.skip(0) =~= bytes);
            0
        },
        Some(at) => {
            let rest = bytes.skip(at);
            let count = lemma_count_breaks(rest);
            let after = without_breaks(rest);
            let first = at + count;
            assert(after =~= bytes.skip(first));
            let inner = lemma_left_is_suffix(after);
            assert(after.skip(inner) =~= bytes.skip(first + inner));
            if inner == 0 {
                assert forall|i: int| at <= i < first implies is_break(#[trigger] bytes[i]) by {
                    assert(is_break(rest[i - at]));
                }
                assert(ends_before(bytes, at, first));
            } else {
                let place = choose|place: int| ends_before(after, place, inner);
                lemma_ends_before_shift(bytes, first, place, inner);
            }
            first + inner
        },
    }
}

proof fn lemma_ends_before_shift(bytes: Seq<u8>, start: int, at: int, end: int)
    requires
        0 <= start <= bytes.len(),
        ends_before(bytes.skip(start), at, end),
        end <= bytes.len() - start,
    ensures
        ends_before(bytes, start + at, start + end),
{
    let rest = bytes.skip(start);
    if at + 2 <= rest.len() && rest.subrange(at, at + 2) == feed_pair() {
        assert(rest.subrange(at, at + 2) =~= bytes.subrange(start + at, start + at + 2));
    } else {
        assert(rest.subrange(at, at + 4) =~= bytes.subrange(start + at, start + at + 4));
    }
    assert forall|i: int| start + at <= i < start + end implies is_break(#[trigger] bytes[i]) by {
        assert(is_break(rest[i - start]));
    }
}

proof fn lemma_follows_event_longer(bytes: Seq<u8>, more: Seq<u8>, start: int)
    requires
        0 <= start <= bytes.len(),
        follows_event(bytes, start),
    ensures
        follows_event(bytes + more, start),
{
    if start != 0 {
        let all = bytes + more;
        let at = choose|at: int| ends_before(bytes, at, start);
        if at + 2 <= bytes.len() && bytes.subrange(at, at + 2) == feed_pair() {
            assert(all.subrange(at, at + 2) =~= bytes.subrange(at, at + 2));
        } else {
            assert(all.subrange(at, at + 4) =~= bytes.subrange(at, at + 4));
        }
        assert forall|i: int| at <= i < start implies is_break(#[trigger] all[i]) by {
            assert(is_break(bytes[i]));
        }
        assert(ends_before(all, at, start));
    }
}

/// Two rests of one stream, both free of complete events, differ in line ends only.
proof fn lemma_rests_agree(bytes: Seq<u8>, first: int, second: int)
    requires
        hides_nothing(bytes),
        0 <= first <= second <= bytes.len(),
        boundary(bytes.skip(first)) is None,
        follows_event(bytes, second),
    ensures
        event_data(bytes.skip(first)) == event_data(bytes.skip(second)),
{
    if first < second {
        let at = choose|at: int| ends_before(bytes, at, second);
        let rest = bytes.skip(first);
        lemma_boundary_ends_event(rest);
        if at >= first {
            if at + 2 <= bytes.len() && bytes.subrange(at, at + 2) == feed_pair() {
                assert(rest.subrange(at - first, at - first + 2) =~= bytes.subrange(at, at + 2));
            } else {
                assert(rest.subrange(at - first, at - first + 4) =~= bytes.subrange(at, at + 4));
            }
            assert(ends_event_at(rest, at - first));
        }
        assert forall|i: int| 0 <= i < second - first implies is_break(#[trigger] rest[i]) by {
            assert(is_break(bytes[first + i]));
        }
        lemma_hides_nothing_suffix(bytes, first);
        lemma_leading_breaks(rest, second - first);
        assert(rest.skip(second - first) =~= bytes.skip(second));
    }
}

/// What holds when the pieces have been pushed: the rest is a suffix of the stream that follows
/// an event, and the data so far, followed by that of the rest, is the data of the stream,
/// whatever comes next.
proof fn lemma_pieces(pieces: Seq<Seq<u8>>, more: Seq<u8>) -> (start: int)
    requires
        hides_nothing(whole(pieces) + more),
    ensures
        0 <= start <= whole(pieces).len(),
        left_of_pieces(pieces) == whole(pieces).skip(start),
        boundary(left_of_pieces(pieces)) is None,
        follows_event(whole(pieces), start),
        event_data(whole(pieces) + more) == data_of_pieces(pieces) + event_data(
            left_of_pieces(pieces) + more,
        ),
    decreases pieces.len(),
{
    if pieces.len() == 0 {
        assert(whole(pieces).skip(0) =~= Seq::<u8>::empty());
        assert(Seq::<u8>::empty() + more =~= more);
        assert(Seq::<Seq<char>>::empty() + event_data(more) =~= event_data(more));
        0
    } else {
        let front = pieces.drop_last();
        let piece = pieces.last();
        assert(whole(pieces) + more =~= whole(front) + (piece + more));
        let before = lemma_pieces(front, piece + more);
        let pushed = left_of_pieces(front) + piece;
        assert(left_of_pieces(front) + (piece + more) =~= pushed + more);
        assert(pushed =~= whole(pieces).skip(before));
        assert(pushed + more =~= (whole(pieces) + more).skip(before));
        lemma_hides_nothing_suffix(whole(pieces) + more, before);
        lemma_ready_then_left(pushed, more);
        let inner = lemma_left_is_suffix(pushed);
        let start = before + inner;
        assert(pushed.skip(inner) =~= whole(pieces).skip(start));
        if inner == 0 {
            lemma_follows_event_longer(whole(front), piece, before);
        } else {
            let at = choose|at: int| ends_before(pushed, at, inner);
            lemma_ends_before_shift(whole(pieces), before, at, inner);
        }
        let earlier = data_of_pieces(front);
        let last = event_data(left(pushed) + more);
        assert(earlier + (ready(pushed) + last) =~= (earlier + ready(pushed)) + last);
        start
    }
}

/// However a stream is cut into pieces, pushing them gives the same data, in the same order, as
/// pushing the stream at once.
pub proof fn law_pieces_do_not_matter(pieces: Seq<Seq<u8>>)
    requires
        hides_nothing(whole(pieces)),
    ensures
        data_of_pieces(pieces) == ready(whole(pieces)),
{
    let stream = whole(pieces);
    let nothing = Seq::<u8>::empty();
    assert(stream + nothing =~= stream);
    let first = lemma_pieces(pieces, nothing);
    let second = lemma_left_is_suffix(stream);
    lemma_ready_then_left(stream, nothing);
    assert(left(stream) + nothing =~= left(stream));
    assert(left_of_pieces(pieces) + nothing =~= left_of_pieces(pieces));
    if first <= second {
        lemma_rests_agree(stream, first, second);
    } else {
        lemma_rests_agree(stream, second, first);
    }
    let tail = event_data(left(stream));
    let one = data_of_pieces(pieces);
    let other = ready(stream);
    assert(one + tail == other + tail);
    assert(one.len() == other.len());
    assert(one =~= (one + tail).take(one.len() as int));
    assert(other =~= (other + tail).take(one.len() as int));
}

/// An event that carries bytes as its data.
pub open spec fn data_event(payload: Seq<u8>) -> Seq<u8> {
    seq![100u8, 97u8, 116u8, 97u8, 58u8] + payload + seq![10u8, 10u8]
}

proof fn lemma_first_feeds(bytes: Seq<u8>, at: int)
    requires
        0 <= at,
        at + 1 < bytes.len(),
        bytes[at] == 10,
        bytes[at + 1] == 10,
        forall|j: int| 0 <= j < at ==> #[trigger] bytes[j] != 10,
    ensures
        find_mark(bytes, feed_pair()) == Some(at),
    decreases bytes.len(),
{
    if at == 0 {
        assert(bytes.take(2) =~= feed_pair());
    } else {
        assert(bytes.take(2)[0] == bytes[0]);
        assert(feed_pair()[0] == 10u8);
        let rest = bytes.drop_first();
        assert forall|j: int| 0 <= j < at - 1 implies #[trigger] rest[j] != 10 by {
            assert(rest[j] == bytes[j + 1]);
        }
        lemma_first_feeds(rest, at - 1);
    }
}

proof fn lemma_one_line(current: Seq<u8>, bytes: Seq<u8>)
    requires
        forall|j: int| 0 <= j < bytes.len() ==> #[trigger] bytes[j] != 10,
    ensures
        data_after(current, bytes) == line_data(current + bytes),
    decreases bytes.len(),
{
    if bytes.len() == 0 {
        assert(current + bytes =~= current);
    } else {
        let rest = bytes.drop_first();
        assert forall|j: int| 0 <= j < rest.len() implies #[trigger] rest[j] != 10 by {
            assert(rest[j] == bytes[j + 1]);
        }
        assert(bytes[0] != 10);
        lemma_one_line(current.push(bytes[0]), rest);
        assert(current.push(bytes[0]) + rest =~= current + bytes);
    }
}

/// What is sent as the data of an event is read back, without white space at either end, and what
/// follows the event is read as if it stood alone.
pub proof fn law_sent_data_is_read_back(payload: Seq<u8>, rest: Seq<u8>)
    requires
        forall|j: int| 0 <= j < payload.len() ==> #[trigger] payload[j] != 10 && payload[j] != 13,
        rest.len() > 0 ==> rest[0] != 10 && rest[0] != 13,
    ensures
        ready(data_event(payload) + rest) == seq![trim(utf8_lossy(payload))] + ready(rest),
        left(data_event(payload) + rest) == left(rest),
{
    let bytes = data_event(payload) + rest;
    let line = seq![100u8, 97u8, 116u8, 97u8, 58u8] + payload;
    let at = line.len() as int;
    assert forall|j: int| 0 <= j < at implies #[trigger] bytes[j] != 10 by {
        if j >= 5 {
            assert(bytes[j] == payload[j - 5]);
        }
    }
    lemma_first_feeds(bytes, at);
    assert(bytes.take(at) =~= line);
    assert forall|j: int| 0 <= j < line.len() implies #[trigger] line[j] != 10 by {
        assert(line[j] == bytes[j]);
    }
    lemma_one_line(Seq::empty(), line);
    assert(Seq::<u8>::empty() + line =~= line);
    assert(line.take(5) =~= data_mark());
    assert(line.skip(5) =~= payload);
    assert(without_returns(payload) == payload) by {
        if payload.len() > 0 {
            assert(payload[payload.len() - 1] != 13);
        }
    }
    assert(event_data(line) == seq![trim(utf8_lossy(payload))]);
    let tail = bytes.skip(at);
    assert(tail =~= seq![10u8, 10u8] + rest);
    assert(tail.drop_first() =~= seq![10u8] + rest);
    assert(tail.drop_first().drop_first() =~= rest);
    reveal_with_fuel(without_breaks, 3);
    assert(without_breaks(tail) == rest);
    assert(boundary(bytes) == Some(at));
    assert(ready(bytes) == event_data(bytes.take(at)) + ready(without_breaks(bytes.skip(at))));
    assert(left(bytes) == left(without_breaks(bytes.skip(at))));
}

} // verus!
