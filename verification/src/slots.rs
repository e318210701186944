//! Class slots: the list of a day's classes and runs cut out of it.

use crate::time::{day_shift, lemma_day_shift_twice, Duration, TimeOfDay};
use rand::Rng;
use vstd::prelude::*;

verus! {

/// One class: the time it starts and the time it ends.
#[derive(Clone, Copy, Debug, PartialEq, Eq)]
pub struct ClassSlot {
    pub start: TimeOfDay,
    pub end: TimeOfDay,
}

/// The model of a class slot: start and end in seconds since midnight.
pub struct SlotView {
    pub start: int,
    pub end: int,
}

impl View for ClassSlot {
    type V = SlotView;

    open spec fn view(&self) -> SlotView {
        SlotView { start: self.start@, end: self.end@ }
    }
}

/// The models of a list of slots.
pub open spec fn slot_views(slots: Seq<ClassSlot>) -> Seq<SlotView> {
    slots.map_values(|slot: ClassSlot| slot@)
}

/// The class number `index` of a day whose first class starts at `start`
/// seconds, with classes of `class_len` minutes and breaks of `break_len`
/// minutes between them.
pub open spec fn slot_at(start: int, class_len: int, break_len: int, index: int) -> SlotView {
    SlotView {
        start: day_shift(start, index * (class_len + break_len)),
        end: day_shift(start, index * (class_len + break_len) + class_len),
    }
}

/// The first `count` classes of such a day.
pub open spec fn slots_from(start: int, class_len: int, break_len: int, count: nat) -> Seq<
    SlotView,
> {
    Seq::new(count, |index: int| slot_at(start, class_len, break_len, index))
}

/// Every slot lies within the day and ends after it starts, and each slot but
/// the first starts at least `gap` minutes after the one before it has ended.
pub open spec fn in_order(slots: Seq<SlotView>, gap: int) -> bool {
    &&& forall|i: int|
        0 <= i < slots.len() ==> 0 <= (#[trigger] slots[i]).start < slots[i].end < 86_400
    &&& forall|i: int, j: int|
        0 <= i && j == i + 1 && j < slots.len() ==> (#[trigger] slots[i]).end + 60 * gap <= (
        #[trigger] slots[j]).start
}

/// `run` is a stretch of `all`, of at least `min_count` and at most
/// `max_count` slots, in the order and with the slots of `all`.
pub open spec fn is_run_of(
    run: Seq<ClassSlot>,
    all: Seq<ClassSlot>,
    min_count: int,
    max_count: int,
) -> bool {
    exists|from: int, to: int|
        0 <= from <= to <= all.len() && min_count <= to - from <= max_count && run
            == #[trigger] all.subrange(from, to)
}

/// Calls `Rng::gen_range` on the thread-local generator of `rand`, with the
/// inclusive range from `low` to `high`.
///
/// Trusted: the number drawn lies in the range. `gen_range` panics on an
/// empty range; those are left out.
#[verifier::external_body]
pub(crate) fn draw_between(low: usize, high: usize) -> (drawn: usize)
    requires
        low <= high,
    ensures
        low <= drawn <= high,
{
    rand::thread_rng().gen_range(low..=high)
}

/// Each class ends `class_len` after it starts, and the next one starts
/// `break_len` after that, counted around the clock.
pub proof fn lemma_slot_follows(start: int, class_len: int, break_len: int, index: int)
    ensures
        slot_at(start, class_len, break_len, index).end == day_shift(
            slot_at(start, class_len, break_len, index).start,
            class_len,
        ),
        slot_at(start, class_len, break_len, index + 1).start == day_shift(
            slot_at(start, class_len, break_len, index).end,
            break_len,
        ),
        0 <= start < 86_400 ==> slot_at(start, class_len, break_len, 0).start == start,
{
    let step = class_len + break_len;
    let here = index * step;
    assert((index + 1) * step == here + step) by (nonlinear_arith)
        requires
            here == index * step,
    ;
    lemma_day_shift_twice(start, here, class_len);
    lemma_day_shift_twice(start, here + class_len, break_len);
    assert(0 * step == 0);
}

/// The classes of a day: `count` slots of `class_len` each, the first one at
/// `start`, each later one `break_len` after the end of the one before it.
/// Times are counted around the clock.
pub fn generate_slots(
    start: TimeOfDay,
    class_len: Duration,
    break_len: Duration,
    count: usize,
) -> (slots: Vec<ClassSlot>)
    ensures
        slots.len() == count,
        slot_views(slots@) == slots_from(start@, class_len@, break_len@, count as nat),
        forall|i: int|
            0 <= i < count ==> (#[trigger] slots[i])@ == slot_at(start@, class_len@, break_len@, i),
        forall|i: int|
            0 <= i < count ==> (#[trigger] slots[i]).end@ == day_shift(slots[i].start@, class_len@),
        forall|i: int, j: int|
            0 <= i && j == i + 1 && j < count ==> (#[trigger] slots[j]).start@ == day_shift(
                (#[trigger] slots[i]).end@,
                break_len@,
            ),
        forall|i: int| 0 <= i < count ==> (#[trigger] slots[i]).start.wf() && slots[i].end.wf(),
{
    let mut slots: Vec<ClassSlot> = Vec::new();
    let mut current = start;
    proof {
        use_type_invariant(&start);
    }
    for index in 0..count
        invariant
            slots.len() == index,
            current.wf(),
            current@ == slot_at(start@, class_len@, break_len@, index as int).start,
            forall|i: int|
                0 <= i < index ==> (#[trigger] slots[i])@ == slot_at(
                    start@,
                    class_len@,
                    break_len@,
                    i,
                ),
            forall|i: int| 0 <= i < index ==> (#[trigger] slots[i]).start.wf() && slots[i].end.wf(),
    {
        let end = current.plus(class_len);
        slots.push(ClassSlot { start: current, end });
        current = end.plus(break_len);
        proof {
            lemma_slot_follows(start@, class_len@, break_len@, index as int);
        }
    }
    proof {
        assert(slot_views(slots@) =~= slots_from(start@, class_len@, break_len@, count as nat));
        assert forall|i: int, j: int| 0 <= i && j == i + 1 && j < count implies (
        #[trigger] slots[j]).start@ == day_shift((#[trigger] slots[i]).end@, break_len@) by {
            lemma_slot_follows(start@, class_len@, break_len@, i);
            assert(slots[i]@ == slot_at(start@, class_len@, break_len@, i));
            assert(slots[j]@ == slot_at(start@, class_len@, break_len@, j));
        }
        assert forall|i: int| 0 <= i < count implies (#[trigger] slots[i]).end@ == day_shift(
            slots[i].start@,
            class_len@,
        ) by {
            lemma_slot_follows(start@, class_len@, break_len@, i);
            assert(slots[i]@ == slot_at(start@, class_len@, break_len@, i));
        }
    }
    slots
}

/// The `count` slots of `slots` from `start_index` on.
pub fn select_subrange(slots: &Vec<ClassSlot>, count: usize, start_index: usize) -> (selected:
    Vec<ClassSlot>)
    requires
        start_index + count <= slots.len(),
    ensures
        selected@ == slots@.subrange(start_index as int, start_index + count),
{
    let mut selected: Vec<ClassSlot> = Vec::new();
    for offset in 0..count
        invariant
            start_index + count <= slots.len(),
            selected@ == slots@.subrange(start_index as int, start_index + offset),
    {
        selected.push(slots[start_index + offset]);
        assert(selected@ =~= slots@.subrange(start_index as int, start_index + offset + 1));
    }
    selected
}

/// A run of consecutive slots of `slots`: its length is drawn from
/// `min_count..=max_count`, then its place from those where it fits.
pub fn select_random_subrange(slots: &Vec<ClassSlot>, min_count: usize, max_count: usize) -> (selected:
    Vec<ClassSlot>)
    requires
        min_count <= max_count <= slots.len(),
    ensures
        is_run_of(selected@, slots@, min_count as int, max_count as int),
{
    let count = draw_between(min_count, max_count);
    let start_index = draw_between(0, slots.len() - count);
    let selected = select_subrange(slots, count, start_index);
    assert(selected@ == slots@.subrange(start_index as int, start_index + count));
    selected
}

/// Where classes have a length, breaks are not negative and the last class
/// ends before midnight, the classes of a day follow one another in order,
/// and their times are plain sums: each class lasts `class_len`, and the next
/// one starts `break_len` after it.
pub proof fn lemma_slots_in_order(start: int, class_len: int, break_len: int, count: nat)
    requires
        0 <= start,
        0 < class_len,
        0 <= break_len,
        count > 0 ==> start + 60 * (count * class_len + (count - 1) * break_len) < 86_400,
    ensures
        in_order(slots_from(start, class_len, break_len, count), break_len),
        forall|i: int|
            0 <= i < count ==> (#[trigger] slots_from(start, class_len, break_len, count)[i])
                == (SlotView {
                start: start + 60 * (i * (class_len + break_len)),
                end: start + 60 * (i * (class_len + break_len)) + 60 * class_len,
            }),
{
    let step = class_len + break_len;
    let slots = slots_from(start, class_len, break_len, count);
    assert forall|i: int| 0 <= i < count implies (#[trigger] slots[i]) == (SlotView {
        start: start + 60 * (i * step),
        end: start + 60 * (i * step) + 60 * class_len,
    }) && i * step + class_len <= count * class_len + (count - 1) * break_len && 0 <= i * step by {
        assert(0 <= i * step && i * step + class_len <= count * class_len + (count - 1)
            * break_len) by (nonlinear_arith)
            requires
                0 <= i < count,
                0 < class_len,
                0 <= break_len,
                step == class_len + break_len,
        ;
    }
    assert forall|i: int, j: int| 0 <= i && j == i + 1 && j < slots.len() implies (
    #[trigger] slots[i]).end + 60 * break_len <= (#[trigger] slots[j]).start by {
        assert(j * step == i * step + step) by (nonlinear_arith)
            requires
                j == i + 1,
        ;
    }
}

/// A run cut out of slots that are in order is in order.
pub proof fn lemma_run_in_order(slots: Seq<SlotView>, from: int, to: int, gap: int)
    requires
        0 <= from <= to <= slots.len(),
        in_order(slots, gap),
    ensures
        in_order(slots.subrange(from, to), gap),
{
    let run = slots.subrange(from, to);
    assert forall|i: int| 0 <= i < run.len() implies 0 <= (#[trigger] run[i]).start < run[i].end
        < 86_400 by {
        assert(run[i] == slots[from + i]);
    }
    assert forall|i: int, j: int| 0 <= i && j == i + 1 && j < run.len() implies (
    #[trigger] run[i]).end + 60 * gap <= (#[trigger] run[j]).start by {
        assert(run[i] == slots[from + i]);
        assert(run[j] == slots[from + j]);
    }
}

} // verus!
