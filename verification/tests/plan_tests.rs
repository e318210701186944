use daily_schedule::plan::{
    assemble_day, day_slots, derive_wake_up_and_commute, first_class_start, plan_day, random_day,
    DaySchedule, BREAK_MINUTES, CLASSES_PER_DAY, CLASS_MINUTES, EXTRA_TRAVEL_MINUTES, MAX_CLASSES,
    MIN_CLASSES, PRE_CLASS_BUFFER_MINUTES, TRAVEL_MINUTES,
};
use daily_schedule::slots::{generate_slots, select_subrange, ClassSlot};
use daily_schedule::time::{Duration, TimeOfDay};
use daily_schedule::week::{Mode, Weekday};

fn at(hour: u32, minute: u32) -> TimeOfDay {
    TimeOfDay::from_hms(hour, minute, 0).unwrap()
}

fn slot(start: (u32, u32), end: (u32, u32)) -> ClassSlot {
    ClassSlot { start: at(start.0, start.1), end: at(end.0, end.1) }
}

#[test]
fn offline_day_from_the_second_class_on() {
    let slots = generate_slots(at(8, 30), Duration::minutes(90), Duration::minutes(10), 6);
    assert_eq!(slots[0], slot((8, 30), (10, 0)));
    assert_eq!(slots[1], slot((10, 10), (11, 40)));
    assert_eq!(slots[2], slot((11, 50), (13, 20)));
    let selected = select_subrange(&slots, 2, 1);
    assert_eq!(selected, vec![slot((10, 10), (11, 40)), slot((11, 50), (13, 20))]);
    let (wake_up, commute_in, commute_out) = derive_wake_up_and_commute(
        &selected,
        Mode::Offline,
        Duration::minutes(90),
        Duration::minutes(15),
        Duration::minutes(30),
    );
    assert_eq!(wake_up, at(8, 25));
    assert_eq!(commute_in, Some(at(10, 10)));
    assert_eq!(commute_out, Some(at(14, 50)));
}

#[test]
fn online_day_has_a_buffer_and_no_commute() {
    let selected = vec![slot((10, 10), (11, 40)), slot((11, 50), (13, 20))];
    let (wake_up, commute_in, commute_out) = derive_wake_up_and_commute(
        &selected,
        Mode::Online,
        Duration::minutes(90),
        Duration::minutes(15),
        Duration::minutes(30),
    );
    assert_eq!(wake_up, at(9, 40));
    assert_eq!(wake_up.plus(Duration::minutes(30)), at(10, 10));
    assert_eq!(commute_in, None);
    assert_eq!(commute_out, None);
}

#[test]
fn offline_wake_up_and_the_way_make_the_first_class() {
    for (travel, extra) in [(90, 15), (0, 0), (600, 45), (-20, 5), (i32::MAX, i32::MAX), (i32::MIN, i32::MIN)] {
        let selected = vec![slot((9, 0), (10, 30)), slot((10, 40), (12, 10))];
        let (wake_up, commute_in, commute_out) = derive_wake_up_and_commute(
            &selected,
            Mode::Offline,
            Duration::minutes(travel),
            Duration::minutes(extra),
            Duration::minutes(30),
        );
        assert_eq!(wake_up.plus(Duration::minutes(travel)).plus(Duration::minutes(extra)), at(9, 0));
        assert_eq!(commute_in, Some(at(9, 0)));
        assert_eq!(commute_out, Some(at(12, 10).plus(Duration::minutes(travel))));
    }
}

#[test]
fn online_wake_up_and_the_buffer_make_the_first_class() {
    for buffer in [30, 0, 1, 600, -45, i32::MAX, i32::MIN] {
        let selected = vec![slot((9, 0), (10, 30))];
        let (wake_up, commute_in, commute_out) = derive_wake_up_and_commute(
            &selected,
            Mode::Online,
            Duration::minutes(90),
            Duration::minutes(15),
            Duration::minutes(buffer),
        );
        assert_eq!(wake_up.plus(Duration::minutes(buffer)), at(9, 0));
        assert_eq!(commute_in, None);
        assert_eq!(commute_out, None);
    }
}

#[test]
fn wake_up_before_midnight_is_counted_around_the_clock() {
    let selected = vec![slot((0, 30), (2, 0))];
    let (wake_up, commute_in, _) = derive_wake_up_and_commute(
        &selected,
        Mode::Offline,
        Duration::minutes(90),
        Duration::minutes(15),
        Duration::minutes(30),
    );
    assert_eq!(wake_up, at(22, 45));
    assert_eq!(commute_in, Some(at(0, 30)));
}

#[test]
fn a_single_class_is_first_and_last() {
    let selected = vec![slot((13, 30), (15, 0))];
    let (wake_up, commute_in, commute_out) = derive_wake_up_and_commute(
        &selected,
        Mode::Offline,
        Duration::minutes(60),
        Duration::minutes(0),
        Duration::minutes(30),
    );
    assert_eq!(wake_up, at(12, 30));
    assert_eq!(commute_in, Some(at(13, 30)));
    assert_eq!(commute_out, Some(at(16, 0)));
}

#[test]
fn the_settings_are_the_fixed_ones() {
    assert_eq!(CLASS_MINUTES, 90);
    assert_eq!(BREAK_MINUTES, 10);
    assert_eq!(TRAVEL_MINUTES, 90);
    assert_eq!(EXTRA_TRAVEL_MINUTES, 15);
    assert_eq!(PRE_CLASS_BUFFER_MINUTES, 30);
    assert_eq!(CLASSES_PER_DAY, 6);
    assert_eq!(MIN_CLASSES, 2);
    assert_eq!(MAX_CLASSES, 3);
}

#[test]
fn two_days_start_at_nine() {
    let starts: Vec<TimeOfDay> = (0..7).map(first_class_start).collect();
    assert_eq!(starts, vec![at(8, 30), at(9, 0), at(8, 30), at(8, 30), at(8, 30), at(8, 30), at(9, 0)]);
}

#[test]
fn a_day_has_six_classes() {
    assert_eq!(
        day_slots(1),
        vec![
            slot((9, 0), (10, 30)),
            slot((10, 40), (12, 10)),
            slot((12, 20), (13, 50)),
            slot((14, 0), (15, 30)),
            slot((15, 40), (17, 10)),
            slot((17, 20), (18, 50)),
        ]
    );
    assert_eq!(day_slots(0)[0], slot((8, 30), (10, 0)));
    assert_eq!(day_slots(0).len(), 6);
}

#[test]
fn new_keeps_its_fields() {
    let schedule = DaySchedule::new(
        at(6, 0),
        Some(at(7, 0)),
        vec![slot((8, 0), (9, 0))],
        None,
        false,
        true,
        Mode::Online,
        Weekday::Sat,
    );
    assert_eq!(schedule.wake_up_time, at(6, 0));
    assert_eq!(schedule.travel_to_college, Some(at(7, 0)));
    assert_eq!(schedule.classes, vec![slot((8, 0), (9, 0))]);
    assert_eq!(schedule.travel_back_home, None);
    assert!(!schedule.long_travel_to_college);
    assert!(schedule.long_travel_back_home);
    assert_eq!(schedule.mode, Mode::Online);
    assert_eq!(schedule.day, Weekday::Sat);
}

#[test]
fn plans_an_offline_day() {
    let schedule = plan_day(2, 2, 1);
    assert_eq!(
        schedule,
        DaySchedule {
            wake_up_time: at(8, 25),
            travel_to_college: Some(at(10, 10)),
            classes: vec![slot((10, 10), (11, 40)), slot((11, 50), (13, 20))],
            travel_back_home: Some(at(14, 50)),
            long_travel_to_college: true,
            long_travel_back_home: true,
            mode: Mode::Offline,
            day: Weekday::Thu,
        }
    );
}

#[test]
fn plans_the_online_day() {
    let schedule = plan_day(0, 3, 3);
    assert_eq!(
        schedule,
        DaySchedule {
            wake_up_time: at(13, 0),
            travel_to_college: None,
            classes: vec![slot((13, 30), (15, 0)), slot((15, 10), (16, 40)), slot((16, 50), (18, 20))],
            travel_back_home: None,
            long_travel_to_college: true,
            long_travel_back_home: true,
            mode: Mode::Online,
            day: Weekday::Tue,
        }
    );
}

#[test]
fn plans_a_late_day_on_monday() {
    let schedule = plan_day(6, 2, 0);
    assert_eq!(schedule.day, Weekday::Mon);
    assert_eq!(schedule.mode, Mode::Offline);
    assert_eq!(schedule.wake_up_time, at(7, 15));
    assert_eq!(schedule.travel_to_college, Some(at(9, 0)));
    assert_eq!(schedule.classes, vec![slot((9, 0), (10, 30)), slot((10, 40), (12, 10))]);
    assert_eq!(schedule.travel_back_home, Some(at(13, 40)));
}

#[test]
fn assembles_a_day_around_given_classes() {
    let classes = vec![slot((12, 0), (12, 45))];
    let schedule = assemble_day(4, classes.clone());
    assert_eq!(schedule.day, Weekday::Sat);
    assert_eq!(schedule.mode, Mode::Offline);
    assert_eq!(schedule.classes, classes);
    assert_eq!(schedule.wake_up_time, at(10, 15));
    assert_eq!(schedule.travel_to_college, Some(at(12, 0)));
    assert_eq!(schedule.travel_back_home, Some(at(14, 15)));
    assert!(schedule.long_travel_to_college && schedule.long_travel_back_home);
}

fn check_valid(schedule: &DaySchedule) {
    assert!(!schedule.classes.is_empty());
    for slot in &schedule.classes {
        assert!(slot.start.seconds_from_midnight() < slot.end.seconds_from_midnight());
    }
    for pair in schedule.classes.windows(2) {
        assert!(pair[0].end.seconds_from_midnight() + 600 <= pair[1].start.seconds_from_midnight());
    }
    assert_eq!(schedule.mode, schedule.day.mode());
    assert_eq!(schedule.travel_to_college.is_some(), schedule.mode == Mode::Offline);
    assert_eq!(schedule.travel_back_home.is_some(), schedule.mode == Mode::Offline);
    assert!(schedule.wake_up_time.seconds_from_midnight() < schedule.classes[0].start.seconds_from_midnight());
}

#[test]
fn every_plan_is_valid() {
    for day_index in 0..7 {
        for count in 1..=CLASSES_PER_DAY {
            for start_index in 0..=CLASSES_PER_DAY - count {
                let schedule = plan_day(day_index, count, start_index);
                assert_eq!(schedule.classes.len(), count);
                assert_eq!(schedule.classes, select_subrange(&day_slots(day_index), count, start_index));
                check_valid(&schedule);
            }
        }
    }
}

#[test]
fn a_random_day_is_one_of_the_plans() {
    for _ in 0..300 {
        let schedule = random_day();
        check_valid(&schedule);
        let count = schedule.classes.len();
        assert!(MIN_CLASSES <= count && count <= MAX_CLASSES);
        let found = (0..7).any(|day_index| {
            (0..=CLASSES_PER_DAY - count).any(|start_index| plan_day(day_index, count, start_index) == schedule)
        });
        assert!(found);
    }
}
