//! The reading order of chapters: a stable ascending sort by volume and
//! chapter number with volume-less chapters lowest, handed out newest first.

use vstd::prelude::*;
use crate::model::{Chapter, ChapterView};

verus! {

/// Whether `a` may stand before `b` in ascending order.
///
/// Within one volume the chapter number decides. Between volumes the
/// volume number decides, except that volume zero, which marks chapters
/// outside any volume, stands below every other volume.
pub open spec fn precedes(a: ChapterView, b: ChapterView) -> bool {
    if a.volume == b.volume {
        a.chapter <= b.chapter
    } else if a.volume == 0 {
        true
    } else if b.volume == 0 {
        false
    } else {
        a.volume < b.volume
    }
}

/// `sorted` with `x` put behind the last element that may stand before it.
pub open spec fn insert_ordered(sorted: Seq<ChapterView>, x: ChapterView) -> Seq<ChapterView>
    decreases sorted.len(),
{
    if sorted.len() == 0 || precedes(sorted.last(), x) {
        sorted.push(x)
    } else {
        insert_ordered(sorted.drop_last(), x).push(sorted.last())
    }
}

/// The chapters in ascending order; chapters that tie keep their order.
pub open spec fn ascending(chapters: Seq<ChapterView>) -> Seq<ChapterView>
    decreases chapters.len(),
{
    if chapters.len() == 0 {
        Seq::empty()
    } else {
        insert_ordered(ascending(chapters.drop_last()), chapters.last())
    }
}

/// The chapters as a reader is shown them: ascending order, back to front.
pub open spec fn reading_order(chapters: Seq<ChapterView>) -> Seq<ChapterView> {
    ascending(chapters).reverse()
}

/// Whether every element may stand before every later one.
pub open spec fn is_ascending(chapters: Seq<ChapterView>) -> bool {
    forall|i: int, j: int|
        0 <= i < j < chapters.len() ==> precedes(#[trigger] chapters[i], #[trigger] chapters[j])
}

/// Of any two chapters one may stand before the other.
pub proof fn lemma_precedes_total(a: ChapterView, b: ChapterView)
    ensures
        precedes(a, b) || precedes(b, a),
{
}

/// The order has no cycles: what holds from `a` to `b` and from `b` to `c`
/// holds from `a` to `c`.
pub proof fn lemma_precedes_transitive(a: ChapterView, b: ChapterView, c: ChapterView)
    requires
        precedes(a, b),
        precedes(b, c),
    ensures
        precedes(a, c),
{
}

/// Where `insert_ordered` puts `x`: at `at`, when nothing from `at` on may
/// stand before `x` and the element just before `at` may.
proof fn lemma_insert_position(sorted: Seq<ChapterView>, x: ChapterView, at: int)
    requires
        0 <= at <= sorted.len(),
        forall|k: int| at <= k < sorted.len() ==> !precedes(#[trigger] sorted[k], x),
        at == 0 || precedes(sorted[at - 1], x),
    ensures
        insert_ordered(sorted, x) == sorted.insert(at, x),
    decreases sorted.len(),
{
    if at == sorted.len() {
        assert(sorted.insert(at, x) =~= sorted.push(x));
    } else {
        lemma_insert_position(sorted.drop_last(), x, at);
        assert(sorted.insert(at, x) =~= sorted.drop_last().insert(at, x).push(sorted.last()));
    }
}

proof fn lemma_insert_keeps_order(sorted: Seq<ChapterView>, x: ChapterView)
    requires
        is_ascending(sorted),
    ensures
        is_ascending(insert_ordered(sorted, x)),
        insert_ordered(sorted, x).len() == sorted.len() + 1,
        insert_ordered(sorted, x).to_multiset() == sorted.to_multiset().insert(x),
    decreases sorted.len(),
{
    broadcast use vstd::seq_lib::group_to_multiset_ensures;

    let out = insert_ordered(sorted, x);
    if sorted.len() == 0 || precedes(sorted.last(), x) {
        assert forall|i: int, j: int| 0 <= i < j < out.len() implies precedes(
            #[trigger] out[i],
            #[trigger] out[j],
        ) by {
            if j == sorted.len() && i < sorted.len() - 1 {
                lemma_precedes_transitive(sorted[i], sorted.last(), x);
            }
        }
    } else {
        let front = sorted.drop_last();
        let inner = insert_ordered(front, x);
        assert(is_ascending(front));
        lemma_insert_keeps_order(front, x);
        lemma_precedes_total(sorted.last(), x);
        assert(front.push(sorted.last()) =~= sorted);
        assert forall|i: int, j: int| 0 <= i < j < out.len() implies precedes(
            #[trigger] out[i],
            #[trigger] out[j],
        ) by {
            if j == inner.len() {
                // Every element of `inner` is `x` or an element of `front`.
                assert(inner.to_multiset().count(inner[i]) > 0);
                if inner[i] != x {
                    assert(front.to_multiset().count(inner[i]) > 0);
                    let k = choose|k: int| 0 <= k < front.len() && front[k] == inner[i];
                    assert(precedes(sorted[k], sorted[sorted.len() - 1]));
                }
            }
        }
    }
}

/// The ascending order is ordered, and holds each chapter as often as the
/// input does.
pub proof fn lemma_ascending_sorts(chapters: Seq<ChapterView>)
    ensures
        is_ascending(ascending(chapters)),
        ascending(chapters).len() == chapters.len(),
        ascending(chapters).to_multiset() == chapters.to_multiset(),
    decreases chapters.len(),
{
    broadcast use vstd::seq_lib::group_to_multiset_ensures;

    if chapters.len() > 0 {
        lemma_ascending_sorts(chapters.drop_last());
        lemma_insert_keeps_order(ascending(chapters.drop_last()), chapters.last());
        assert(chapters.drop_last().push(chapters.last()) =~= chapters);
    }
}

/// Chapters already in ascending order stay as they are, ties included.
pub proof fn lemma_ascending_keeps_sorted_input(chapters: Seq<ChapterView>)
    requires
        is_ascending(chapters),
    ensures
        ascending(chapters) == chapters,
    decreases chapters.len(),
{
    if chapters.len() > 0 {
        let front = chapters.drop_last();
        assert(is_ascending(front));
        lemma_ascending_keeps_sorted_input(front);
        if front.len() > 0 {
            assert(precedes(chapters[front.len() - 1], chapters[chapters.len() - 1]));
        }
        assert(front.push(chapters.last()) =~= chapters);
    }
}

/// The chapters of `chapters` that carry the given volume and chapter
/// number, in the order in which they stand there.
pub open spec fn tied_at(chapters: Seq<ChapterView>, volume: int, chapter: int) -> Seq<
    ChapterView,
> {
    chapters.filter(|c: ChapterView| c.volume == volume && c.chapter == chapter)
}

proof fn lemma_insert_keeps_ties(
    sorted: Seq<ChapterView>,
    x: ChapterView,
    volume: int,
    chapter: int,
)
    ensures
        tied_at(insert_ordered(sorted, x), volume, chapter) == if x.volume == volume && x.chapter
            == chapter {
            tied_at(sorted, volume, chapter).push(x)
        } else {
            tied_at(sorted, volume, chapter)
        },
    decreases sorted.len(),
{
    reveal(Seq::filter);
    let tied = |c: ChapterView| c.volume == volume && c.chapter == chapter;
    if sorted.len() == 0 || precedes(sorted.last(), x) {
        assert(sorted.push(x).drop_last() =~= sorted);
    } else {
        let front = sorted.drop_last();
        lemma_insert_keeps_ties(front, x, volume, chapter);
        let inner = insert_ordered(front, x);
        assert(inner.push(sorted.last()).drop_last() =~= inner);
        assert(!(tied(sorted.last()) && tied(x)));
    }
}

/// The ascending order is stable: chapters that tie in volume and chapter
/// number stand in it as they stood in the input.
pub proof fn lemma_ascending_stable(chapters: Seq<ChapterView>, volume: int, chapter: int)
    ensures
        tied_at(ascending(chapters), volume, chapter) == tied_at(chapters, volume, chapter),
    decreases chapters.len(),
{
    reveal(Seq::filter);
    if chapters.len() > 0 {
        lemma_ascending_stable(chapters.drop_last(), volume, chapter);
        lemma_insert_keeps_ties(ascending(chapters.drop_last()), chapters.last(), volume, chapter);
    }
}

/// In the reading order no chapter stands before one that outranks it.
pub proof fn lemma_reading_order_descends(chapters: Seq<ChapterView>)
    ensures
        reading_order(chapters).len() == chapters.len(),
        reading_order(chapters).to_multiset() == chapters.to_multiset(),
        forall|i: int, j: int|
            0 <= i < j < chapters.len() ==> precedes(
                #[trigger] reading_order(chapters)[j],
                #[trigger] reading_order(chapters)[i],
            ),
{
    broadcast use vstd::seq_lib::group_to_multiset_ensures;

    let up = ascending(chapters);
    let down = reading_order(chapters);
    lemma_ascending_sorts(chapters);
    up.lemma_reverse_to_multiset();
    assert forall|i: int, j: int| 0 <= i < j < chapters.len() implies precedes(
        #[trigger] down[j],
        #[trigger] down[i],
    ) by {
        assert(down[j] == up[up.len() - 1 - j]);
        assert(down[i] == up[up.len() - 1 - i]);
    }
}

/// Within a single volume the reading order runs from the highest chapter
/// number down to the lowest.
pub proof fn lemma_single_volume_descends(chapters: Seq<ChapterView>, volume: int)
    requires
        forall|k: int| 0 <= k < chapters.len() ==> (#[trigger] chapters[k]).volume == volume,
    ensures
        reading_order(chapters) == ascending(chapters).reverse(),
        reading_order(chapters).len() == chapters.len(),
        reading_order(chapters).to_multiset() == chapters.to_multiset(),
        forall|i: int, j: int|
            0 <= i < j < chapters.len() ==> (#[trigger] reading_order(chapters)[i]).chapter >= (
            #[trigger] reading_order(chapters)[j]).chapter,
{
    broadcast use vstd::seq_lib::group_to_multiset_ensures;

    let down = reading_order(chapters);
    lemma_reading_order_descends(chapters);
    assert forall|k: int| 0 <= k < down.len() implies (#[trigger] down[k]).volume == volume by {
        assert(down.to_multiset().count(down[k]) > 0);
        assert(chapters.to_multiset().count(down[k]) > 0);
        let m = choose|m: int| 0 <= m < chapters.len() && chapters[m] == down[k];
        assert(chapters[m].volume == volume);
    }
    assert forall|i: int, j: int| 0 <= i < j < chapters.len() implies (#[trigger] down[i]).chapter
        >= (#[trigger] down[j]).chapter by {
        assert(precedes(down[j], down[i]));
    }
}

/// Chapters outside any volume come last: once the reading order shows a
/// chapter of volume zero, only such chapters follow.
pub proof fn lemma_volumeless_last(chapters: Seq<ChapterView>)
    ensures
        forall|i: int, j: int|
            0 <= i < j < chapters.len() && (#[trigger] reading_order(chapters)[i]).volume == 0
                ==> (#[trigger] reading_order(chapters)[j]).volume == 0,
{
    let down = reading_order(chapters);
    lemma_reading_order_descends(chapters);
    assert forall|i: int, j: int|
        0 <= i < j < chapters.len() && (#[trigger] down[i]).volume == 0 implies (
    #[trigger] down[j]).volume == 0 by {
        assert(precedes(down[j], down[i]));
    }
}

/// Whether `a` may stand before `b` in ascending order.
pub fn may_precede(a: &Chapter, b: &Chapter) -> (yes: bool)
    ensures
        yes == precedes(a@, b@),
{
    if a.volume.billionths == b.volume.billionths {
        a.chapter.billionths <= b.chapter.billionths
    } else if a.volume.billionths == 0 {
        true
    } else if b.volume.billionths == 0 {
        false
    } else {
        a.volume.billionths < b.volume.billionths
    }
}

/// The list back to front.
pub fn reversed(list: Vec<Chapter>) -> (out: Vec<Chapter>)
    ensures
        out@ == list@.reverse(),
        out.deep_view() == list.deep_view().reverse(),
{
    let ghost whole = list@;
    let mut rest = list;
    let mut out: Vec<Chapter> = Vec::new();
    loop
        invariant
            rest@ == whole.take(rest.len() as int),
            rest.len() <= whole.len(),
            out@ == whole.skip(rest.len() as int).reverse(),
        ensures
            rest.len() == 0,
        decreases rest.len(),
    {
        let ghost before = rest@;
        match rest.pop() {
            None => {
                break ;
            },
            Some(c) => {
                assert(c == whole[rest.len() as int]);
                out.push(c);
                assert(out@ =~= whole.skip(rest.len() as int).reverse());
                assert(rest@ =~= whole.take(rest.len() as int));
            },
        }
    }
    assert(whole.skip(0) =~= whole);
    assert(out.deep_view() =~= list.deep_view().reverse());
    out
}

/// Puts the chapters into reading order.
pub fn sort_for_reading(chapters: Vec<Chapter>) -> (out: Vec<Chapter>)
    ensures
        out.deep_view() == reading_order(chapters.deep_view()),
{
    let ghost input = chapters.deep_view();
    let mut rest = reversed(chapters);
    let mut sorted: Vec<Chapter> = Vec::new();
    assert(input.take(0) =~= Seq::<ChapterView>::empty());
    assert(input.skip(0) =~= input);
    loop
        invariant
            rest.len() <= input.len(),
            rest.deep_view() == input.skip(input.len() - rest.len()).reverse(),
            sorted.deep_view() == ascending(input.take(input.len() - rest.len())),
        ensures
            sorted.deep_view() == ascending(input),
        decreases rest.len(),
    {
        let ghost done = input.len() - rest.len();
        let ghost rest_before = rest.deep_view();
        match rest.pop() {
            None => {
                assert(input.take(input.len() as int) =~= input);
                break ;
            },
            Some(c) => {
                assert(c@ == rest_before.last());
                assert(c@ == input[done]);
                assert(rest.deep_view() =~= rest_before.drop_last());
                assert(rest_before.drop_last() =~= input.skip(done + 1).reverse()) by {
                    assert forall|i: int| 0 <= i < rest_before.len() - 1 implies rest_before[i]
                        == input.skip(done + 1).reverse()[i] by {
                        assert(rest_before[i] == input.skip(done)[rest_before.len() - 1 - i]);
                    }
                }
                let mut at: usize = sorted.len();
                while at > 0 && !may_precede(&sorted[at - 1], &c)
                    invariant
                        at <= sorted.len(),
                        forall|k: int|
                            at <= k < sorted.len() ==> !precedes(
                                #[trigger] sorted.deep_view()[k],
                                c@,
                            ),
                    decreases at,
                {
                    at = at - 1;
                }
                let ghost sorted_before = sorted.deep_view();
                proof {
                    lemma_insert_position(sorted_before, c@, at as int);
                    assert(input.take(done + 1).drop_last() =~= input.take(done));
                }
                sorted.insert(at, c);
                assert(sorted.deep_view() =~= sorted_before.insert(at as int, c@));
            },
        }
    }
    reversed(sorted)
}

} // verus!
