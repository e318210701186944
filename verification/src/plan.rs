//! The plan of one day: its classes, the wake-up time and the commutes.

use crate::slots::{
    draw_between, generate_slots, in_order, lemma_run_in_order, lemma_slots_in_order,
    select_random_subrange, select_subrange, slot_views, slots_from, ClassSlot, SlotView,
};
use crate::time::{day_shift, lemma_same_time, Duration, TimeOfDay};
use crate::week::{Mode, Weekday, DAYS_PER_WEEK};
use vstd::prelude::*;

verus! {

/// Length of a class, in minutes.
pub const CLASS_MINUTES: i32 = 90;

/// Length of the break between two classes, in minutes.
pub const BREAK_MINUTES: i32 = 10;

/// Length of the way between home and college, in minutes.
pub const TRAVEL_MINUTES: i32 = 90;

/// Extra time allowed for the way to college, in minutes.
pub const EXTRA_TRAVEL_MINUTES: i32 = 15;

/// Time between waking up and the first class of an online day, in minutes.
pub const PRE_CLASS_BUFFER_MINUTES: i32 = 30;

/// Number of classes on the full list of a day.
pub const CLASSES_PER_DAY: usize = 6;

/// Fewest classes attended on a day.
pub const MIN_CLASSES: usize = 2;

/// Most classes attended on a day.
pub const MAX_CLASSES: usize = 3;

/// The plan of one day.
#[derive(Debug, PartialEq, Eq)]
pub struct DaySchedule {
    pub wake_up_time: TimeOfDay,
    pub travel_to_college: Option<TimeOfDay>,
    pub classes: Vec<ClassSlot>,
    pub travel_back_home: Option<TimeOfDay>,
    pub long_travel_to_college: bool,
    pub long_travel_back_home: bool,
    pub mode: Mode,
    pub day: Weekday,
}

/// The model of a day's plan: every time in seconds since midnight.
pub struct DayView {
    pub wake_up_time: int,
    pub travel_to_college: Option<int>,
    pub classes: Seq<SlotView>,
    pub travel_back_home: Option<int>,
    pub long_travel_to_college: bool,
    pub long_travel_back_home: bool,
    pub mode: Mode,
    pub day: Weekday,
}

/// The model of a time that may be absent.
pub open spec fn time_view(time: Option<TimeOfDay>) -> Option<int> {
    match time {
        Some(time) => Some(time@),
        None => None,
    }
}

impl View for DaySchedule {
    type V = DayView;

    open spec fn view(&self) -> DayView {
        DayView {
            wake_up_time: self.wake_up_time@,
            travel_to_college: time_view(self.travel_to_college),
            classes: slot_views(self.classes@),
            travel_back_home: time_view(self.travel_back_home),
            long_travel_to_college: self.long_travel_to_college,
            long_travel_back_home: self.long_travel_back_home,
            mode: self.mode,
            day: self.day,
        }
    }
}

impl DayView {
    /// What holds of a day's plan: there is a class; the classes lie within
    /// the day, in order, without overlap and at least `gap` minutes apart;
    /// the mode is that of the weekday; and the day has its two commutes if
    /// and only if it is an offline day.
    pub open spec fn valid(self, gap: int) -> bool {
        &&& self.classes.len() > 0
        &&& in_order(self.classes, gap)
        &&& self.mode == self.day.mode_of()
        &&& self.travel_to_college is Some <==> self.mode == Mode::Offline
        &&& self.travel_back_home is Some <==> self.mode == Mode::Offline
    }
}

/// The wake-up time for a first class at `first_start`: on an offline day the
/// way to college and the extra time before it, on an online day the buffer.
pub open spec fn wake_up_for(first_start: int, mode: Mode, travel: int, extra: int, buffer: int) -> int {
    match mode {
        Mode::Offline => day_shift(first_start, -(travel + extra)),
        Mode::Online => day_shift(first_start, -buffer),
    }
}

/// The time of leaving for college: on an offline day the wake-up time and
/// the way with its extra time after it; none on an online day.
pub open spec fn commute_in_for(wake_up: int, mode: Mode, travel: int, extra: int) -> Option<int> {
    match mode {
        Mode::Offline => Some(day_shift(wake_up, travel + extra)),
        Mode::Online => None,
    }
}

/// The time of arriving back home: on an offline day the end of the last
/// class and the way home after it; none on an online day.
pub open spec fn commute_out_for(last_end: int, mode: Mode, travel: int) -> Option<int> {
    match mode {
        Mode::Offline => Some(day_shift(last_end, travel)),
        Mode::Online => None,
    }
}

/// The start of the first class on the full list of the day drawn as
/// `day_index`: nine o'clock for the draws 1 and 6, half past eight otherwise.
pub open spec fn first_start_of(day_index: int) -> int {
    if day_index == 1 || day_index == 6 {
        32_400
    } else {
        30_600
    }
}

/// The plan of `day` with the classes `classes`.
pub open spec fn day_with(day: Weekday, classes: Seq<SlotView>) -> DayView {
    let mode = day.mode_of();
    let wake_up = wake_up_for(
        classes[0].start,
        mode,
        TRAVEL_MINUTES as int,
        EXTRA_TRAVEL_MINUTES as int,
        PRE_CLASS_BUFFER_MINUTES as int,
    );
    DayView {
        wake_up_time: wake_up,
        travel_to_college: commute_in_for(
            wake_up,
            mode,
            TRAVEL_MINUTES as int,
            EXTRA_TRAVEL_MINUTES as int,
        ),
        classes: classes,
        travel_back_home: commute_out_for(classes.last().end, mode, TRAVEL_MINUTES as int),
        long_travel_to_college: true,
        long_travel_back_home: true,
        mode: mode,
        day: day,
    }
}

/// The full list of classes of the day drawn as `day_index`.
pub open spec fn full_day(day_index: int) -> Seq<SlotView> {
    slots_from(
        first_start_of(day_index),
        CLASS_MINUTES as int,
        BREAK_MINUTES as int,
        CLASSES_PER_DAY as nat,
    )
}

/// The plan of the day drawn as `day_index`, with the classes number `from`
/// up to, not including, `to` of its full list.
pub open spec fn planned_day(day_index: int, from: int, to: int) -> DayView {
    day_with(Weekday::drawn(day_index), full_day(day_index).subrange(from, to))
}

impl DaySchedule {
    /// A plan with the given fields.
    pub fn new(
        wake_up_time: TimeOfDay,
        travel_to_college: Option<TimeOfDay>,
        classes: Vec<ClassSlot>,
        travel_back_home: Option<TimeOfDay>,
        long_travel_to_college: bool,
        long_travel_back_home: bool,
        mode: Mode,
        day: Weekday,
    ) -> (schedule: DaySchedule)
        ensures
            schedule == (DaySchedule {
                wake_up_time,
                travel_to_college,
                classes,
                travel_back_home,
                long_travel_to_college,
                long_travel_back_home,
                mode,
                day,
            }),
    {
        DaySchedule {
            wake_up_time,
            travel_to_college,
            classes,
            travel_back_home,
            long_travel_to_college,
            long_travel_back_home,
            mode,
            day,
        }
    }
}

/// The wake-up time and the two commute times of a day with the classes
/// `selected`.
///
/// On an offline day one wakes up the way to college and the extra time
/// before the first class, leaves so as to arrive when it starts, and is
/// back home the way after the last class has ended. On an online day one
/// wakes up the buffer before the first class, and there is no commute.
pub fn derive_wake_up_and_commute(
    selected: &Vec<ClassSlot>,
    mode: Mode,
    travel_duration: Duration,
    extra_travel: Duration,
    pre_class_buffer: Duration,
) -> (times: (TimeOfDay, Option<TimeOfDay>, Option<TimeOfDay>))
    requires
        selected.len() > 0,
    ensures
        times.0@ == wake_up_for(
            selected[0].start@,
            mode,
            travel_duration@,
            extra_travel@,
            pre_class_buffer@,
        ),
        time_view(times.1) == commute_in_for(times.0@, mode, travel_duration@, extra_travel@),
        time_view(times.2) == commute_out_for(
            selected[selected.len() - 1].end@,
            mode,
            travel_duration@,
        ),
        mode == Mode::Offline ==> day_shift(times.0@, travel_duration@ + extra_travel@)
            == selected[0].start@ && times.1 == Some(selected[0].start) && times.2 is Some,
        mode == Mode::Online ==> day_shift(times.0@, pre_class_buffer@) == selected[0].start@
            && times.1 is None && times.2 is None,
        times.0.wf(),
{
    let first_start = selected[0].start;
    let last_end = selected[selected.len() - 1].end;
    proof {
        use_type_invariant(&first_start);
    }
    match mode {
        Mode::Offline => {
            let way_in: i64 = travel_duration.minutes as i64 + extra_travel.minutes as i64;
            let wake_up = first_start.plus_minutes(-way_in);
            let commute_in = wake_up.plus_minutes(way_in);
            let commute_out = last_end.plus(travel_duration);
            proof {
                lemma_same_time(commute_in, first_start);
            }
            (wake_up, Some(commute_in), Some(commute_out))
        },
        Mode::Online => {
            let wake_up = first_start.minus(pre_class_buffer);
            (wake_up, None, None)
        },
    }
}

/// The start of the first class on the full list of the day drawn as
/// `day_index`.
pub fn first_class_start(day_index: usize) -> (start: TimeOfDay)
    requires
        day_index < DAYS_PER_WEEK,
    ensures
        start@ == first_start_of(day_index as int),
        start.wf(),
{
    let start = if day_index == 1 || day_index == 6 {
        TimeOfDay::from_hms(9, 0, 0)
    } else {
        TimeOfDay::from_hms(8, 30, 0)
    };
    start.unwrap()
}

/// The full list of classes of the day drawn as `day_index`.
pub fn day_slots(day_index: usize) -> (slots: Vec<ClassSlot>)
    requires
        day_index < DAYS_PER_WEEK,
    ensures
        slots.len() == CLASSES_PER_DAY,
        slot_views(slots@) == full_day(day_index as int),
{
    generate_slots(
        first_class_start(day_index),
        Duration::minutes(CLASS_MINUTES),
        Duration::minutes(BREAK_MINUTES),
        CLASSES_PER_DAY,
    )
}

/// The plan of the day drawn as `day_index` with the classes `classes`.
pub fn assemble_day(day_index: usize, classes: Vec<ClassSlot>) -> (schedule: DaySchedule)
    requires
        day_index < DAYS_PER_WEEK,
        classes.len() > 0,
    ensures
        schedule@ == day_with(Weekday::drawn(day_index as int), slot_views(classes@)),
        schedule.classes == classes,
{
    let day = Weekday::from_draw(day_index);
    let mode = day.mode();
    let (wake_up_time, travel_to_college, travel_back_home) = derive_wake_up_and_commute(
        &classes,
        mode,
        Duration::minutes(TRAVEL_MINUTES),
        Duration::minutes(EXTRA_TRAVEL_MINUTES),
        Duration::minutes(PRE_CLASS_BUFFER_MINUTES),
    );
    proof {
        let views = slot_views(classes@);
        assert(views[0] == classes[0]@);
        assert(views.last() == classes[classes.len() - 1]@);
    }
    DaySchedule::new(
        wake_up_time,
        travel_to_college,
        classes,
        travel_back_home,
        true,
        true,
        mode,
        day,
    )
}

/// The plan of the day drawn as `day_index`, with `count` classes of its
/// full list from number `start_index` on.
pub fn plan_day(day_index: usize, count: usize, start_index: usize) -> (schedule: DaySchedule)
    requires
        day_index < DAYS_PER_WEEK,
        0 < count,
        start_index + count <= CLASSES_PER_DAY,
    ensures
        schedule@ == planned_day(day_index as int, start_index as int, start_index + count),
        schedule@.valid(BREAK_MINUTES as int),
{
    let slots = day_slots(day_index);
    let selected = select_subrange(&slots, count, start_index);
    proof {
        assert(slot_views(selected@) =~= full_day(day_index as int).subrange(
            start_index as int,
            start_index + count,
        ));
        lemma_planned_day_valid(day_index as int, start_index as int, start_index + count);
    }
    assemble_day(day_index, selected)
}

/// The plan of a day drawn at random: first the day, then the number of
/// classes, from [`MIN_CLASSES`] to [`MAX_CLASSES`], then the place of the
/// first of them on the day's full list.
pub fn random_day() -> (schedule: DaySchedule)
    ensures
        exists|day_index: int, from: int, to: int|
            0 <= day_index < DAYS_PER_WEEK && 0 <= from <= to <= CLASSES_PER_DAY && MIN_CLASSES
                <= to - from <= MAX_CLASSES && schedule@ == #[trigger] planned_day(
                day_index,
                from,
                to,
            ),
        schedule@.valid(BREAK_MINUTES as int),
{
    let day_index = draw_between(0, DAYS_PER_WEEK - 1);
    let slots = day_slots(day_index);
    let selected = select_random_subrange(&slots, MIN_CLASSES, MAX_CLASSES);
    proof {
        let (from, to) = choose|from: int, to: int|
            0 <= from <= to <= slots@.len() && MIN_CLASSES <= to - from <= MAX_CLASSES
                && selected@ == #[trigger] slots@.subrange(from, to);
        assert(slot_views(selected@) =~= full_day(day_index as int).subrange(from, to));
        lemma_planned_day_valid(day_index as int, from, to);
        assert(day_with(Weekday::drawn(day_index as int), slot_views(selected@)) == planned_day(
            day_index as int,
            from,
            to,
        ));
    }
    assemble_day(day_index, selected)
}

/// Every plan of a drawn day with at least one class is valid, with classes
/// at least [`BREAK_MINUTES`] apart; one wakes up before the first class of
/// the same day, and is back home, on an offline day, after the last.
pub proof fn lemma_planned_day_valid(day_index: int, from: int, to: int)
    requires
        0 <= day_index < DAYS_PER_WEEK,
        0 <= from < to <= CLASSES_PER_DAY,
    ensures
        planned_day(day_index, from, to).valid(BREAK_MINUTES as int),
        planned_day(day_index, from, to).classes.len() == to - from,
        planned_day(day_index, from, to).wake_up_time < planned_day(
            day_index,
            from,
            to,
        ).classes[0].start,
        planned_day(day_index, from, to).travel_back_home matches Some(home) ==> planned_day(
            day_index,
            from,
            to,
        ).classes.last().end < home,
{
    let start = first_start_of(day_index);
    let full = full_day(day_index);
    lemma_slots_in_order(start, CLASS_MINUTES as int, BREAK_MINUTES as int, CLASSES_PER_DAY as nat);
    lemma_run_in_order(full, from, to, BREAK_MINUTES as int);
    let run = full.subrange(from, to);
    assert(run[0] == full[from]);
    assert(run.last() == full[to - 1]);
}

} // verus!
