use daily_schedule::slots::{generate_slots, select_random_subrange, select_subrange, ClassSlot};
use daily_schedule::time::{Duration, TimeOfDay};

fn at(hour: u32, minute: u32) -> TimeOfDay {
    TimeOfDay::from_hms(hour, minute, 0).unwrap()
}

fn slot(start: (u32, u32), end: (u32, u32)) -> ClassSlot {
    ClassSlot { start: at(start.0, start.1), end: at(end.0, end.1) }
}

fn morning() -> Vec<ClassSlot> {
    generate_slots(at(8, 30), Duration::minutes(90), Duration::minutes(10), 6)
}

#[test]
fn generates_the_classes_of_a_day() {
    assert_eq!(
        morning(),
        vec![
            slot((8, 30), (10, 0)),
            slot((10, 10), (11, 40)),
            slot((11, 50), (13, 20)),
            slot((13, 30), (15, 0)),
            slot((15, 10), (16, 40)),
            slot((16, 50), (18, 20)),
        ]
    );
}

#[test]
fn generates_as_many_slots_as_asked() {
    for count in [0usize, 1, 2, 6, 17, 200] {
        let slots = generate_slots(at(9, 0), Duration::minutes(45), Duration::minutes(5), count);
        assert_eq!(slots.len(), count);
    }
}

#[test]
fn each_slot_lasts_a_class_and_the_next_follows_the_break() {
    let class_len = Duration::minutes(45);
    let break_len = Duration::minutes(15);
    let slots = generate_slots(at(7, 5), class_len, break_len, 40);
    assert_eq!(slots[0].start, at(7, 5));
    for slot in &slots {
        assert_eq!(slot.end, slot.start.plus(class_len));
    }
    for pair in slots.windows(2) {
        assert_eq!(pair[1].start, pair[0].end.plus(break_len));
    }
}

#[test]
fn slots_pass_midnight_around_the_clock() {
    let slots = generate_slots(at(23, 0), Duration::minutes(90), Duration::minutes(10), 2);
    assert_eq!(slots, vec![slot((23, 0), (0, 30)), slot((0, 40), (2, 10))]);
}

#[test]
fn slots_without_break_touch() {
    let slots = generate_slots(at(8, 0), Duration::minutes(60), Duration::minutes(0), 3);
    assert_eq!(slots, vec![slot((8, 0), (9, 0)), slot((9, 0), (10, 0)), slot((10, 0), (11, 0))]);
}

#[test]
fn selects_the_slots_from_an_index_on() {
    let slots = morning();
    assert_eq!(select_subrange(&slots, 2, 1), vec![slot((10, 10), (11, 40)), slot((11, 50), (13, 20))]);
    assert_eq!(select_subrange(&slots, 6, 0), slots);
    assert_eq!(select_subrange(&slots, 1, 5), vec![slot((16, 50), (18, 20))]);
    assert_eq!(select_subrange(&slots, 0, 6), vec![]);
}

#[test]
fn a_random_run_is_a_stretch_of_the_list() {
    let slots = morning();
    for _ in 0..500 {
        let run = select_random_subrange(&slots, 2, 3);
        assert!(2 <= run.len() && run.len() <= 3);
        let place = slots.iter().position(|slot| *slot == run[0]).unwrap();
        assert_eq!(&slots[place..place + run.len()], &run[..]);
    }
}

#[test]
fn a_random_run_of_the_whole_length_is_the_list() {
    let slots = morning();
    assert_eq!(select_random_subrange(&slots, 6, 6), slots);
    assert_eq!(select_random_subrange(&slots, 0, 0), vec![]);
}

#[test]
fn random_runs_take_every_length_and_place() {
    let slots = morning();
    let mut seen = vec![];
    for _ in 0..2000 {
        let run = select_random_subrange(&slots, 2, 3);
        let place = slots.iter().position(|slot| *slot == run[0]).unwrap();
        if !seen.contains(&(run.len(), place)) {
            seen.push((run.len(), place));
        }
    }
    seen.sort();
    assert_eq!(seen, vec![(2, 0), (2, 1), (2, 2), (2, 3), (2, 4), (3, 0), (3, 1), (3, 2), (3, 3)]);
}
