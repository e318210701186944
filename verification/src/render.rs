//! The text of a day's plan.

use crate::plan::{DaySchedule, DayView};
use crate::slots::{slot_views, ClassSlot, SlotView};
use crate::text::{decimal, decimal_text};
use crate::time::{clock_text, TimeOfDay};
use crate::week::{Mode, Weekday};
use vstd::prelude::*;
use vstd::string::*;

verus! {

/// A flag as text.
pub open spec fn flag_text(flag: bool) -> Seq<char> {
    if flag {
        "true"@
    } else {
        "false"@
    }
}

/// The two lines that head the plan: the day with its mode, and a rule. An
/// empty line goes before them.
pub open spec fn header(day: Weekday, mode: Mode) -> Seq<char> {
    "\nDaily Schedule for "@ + day.short_name() + ": "@ + mode.label_of() + "\n"@
        + "====================\n"@
}

/// A line with a label and a time.
pub open spec fn time_line(label: Seq<char>, time: int) -> Seq<char> {
    label + ": "@ + clock_text(time) + "\n"@
}

/// The line on the way to college.
pub open spec fn commute_in_line(time: Option<int>, long_trip: bool) -> Seq<char> {
    match time {
        Some(time) => "Travel to college: "@ + clock_text(time) + " (Long trip: "@ + flag_text(
            long_trip,
        ) + ")\n"@,
        None => "No need to travel to college today.\n"@,
    }
}

/// The line of the class with the given number, counted from 1.
pub open spec fn class_line(number: nat, slot: SlotView) -> Seq<char> {
    "Class "@ + decimal(number) + ": "@ + clock_text(slot.start) + " to "@ + clock_text(slot.end)
        + "\n"@
}

/// The lines of the classes, numbered from 1 in their order.
pub open spec fn class_lines(classes: Seq<SlotView>) -> Seq<char>
    decreases classes.len(),
{
    if classes.len() == 0 {
        Seq::empty()
    } else {
        class_lines(classes.drop_last()) + class_line(classes.len(), classes.last())
    }
}

/// The line on the way back home, after an empty line.
pub open spec fn commute_out_line(time: Option<int>, long_trip: bool) -> Seq<char> {
    match time {
        Some(time) => "\nTravel back home: "@ + clock_text(time) + " (Long trip: "@ + flag_text(
            long_trip,
        ) + ")\n"@,
        None => "\nNo need to travel back home today.\n"@,
    }
}

/// The text of a plan: the header, the wake-up time, the way to college or
/// its absence, the classes, and the way back home or its absence.
pub open spec fn rendered(day: DayView) -> Seq<char> {
    header(day.day, day.mode) + time_line("Wake up time"@, day.wake_up_time) + commute_in_line(
        day.travel_to_college,
        day.long_travel_to_college,
    ) + "\nClasses:\n"@ + class_lines(day.classes) + commute_out_line(
        day.travel_back_home,
        day.long_travel_back_home,
    )
}

/// A flag as text.
pub fn flag_label(flag: bool) -> (text: &'static str)
    ensures
        text@ == flag_text(flag),
{
    if flag {
        "true"
    } else {
        "false"
    }
}

/// A line with a label and a time.
pub fn render_time_line(label: &str, time: TimeOfDay) -> (line: String)
    ensures
        line@ == time_line(label@, time@),
{
    let mut line = String::from_str(label);
    line.append(": ");
    line.append(time.text().as_str());
    line.append("\n");
    line
}

/// The line of one class, with its number counted from 1.
pub fn render_class_line(number: usize, slot: ClassSlot) -> (line: String)
    ensures
        line@ == class_line(number as nat, slot@),
{
    let mut line = String::from_str("Class ");
    line.append(decimal_text(number).as_str());
    line.append(": ");
    line.append(slot.start.text().as_str());
    line.append(" to ");
    line.append(slot.end.text().as_str());
    line.append("\n");
    line
}

/// The lines of the classes, numbered from 1 in their order.
pub fn render_class_lines(classes: &Vec<ClassSlot>) -> (lines: String)
    ensures
        lines@ == class_lines(slot_views(classes@)),
{
    let mut lines = String::new();
    let ghost views = slot_views(classes@);
    for index in 0..classes.len()
        invariant
            views == slot_views(classes@),
            lines@ == class_lines(views.subrange(0, index as int)),
    {
        let line = render_class_line(index + 1, classes[index]);
        lines.append(line.as_str());
        proof {
            let done = views.subrange(0, index + 1);
            assert(done.drop_last() =~= views.subrange(0, index as int));
            assert(done.last() == classes[index as int]@);
        }
    }
    proof {
        assert(views.subrange(0, classes.len() as int) =~= views);
    }
    lines
}

impl DaySchedule {
    /// The text of the plan.
    pub fn render(&self) -> (text: String)
        ensures
            text@ == rendered(self@),
    {
        let mut text = String::from_str("\nDaily Schedule for ");
        text.append(self.day.name().as_str());
        text.append(": ");
        text.append(self.mode.label());
        text.append("\n");
        text.append("====================\n");
        proof {
            assert(text@ =~= header(self.day, self.mode));
        }
        text.append(render_time_line("Wake up time", self.wake_up_time).as_str());
        match self.travel_to_college {
            Some(time) => {
                let mut line = String::from_str("Travel to college: ");
                line.append(time.text().as_str());
                line.append(" (Long trip: ");
                line.append(flag_label(self.long_travel_to_college));
                line.append(")\n");
                text.append(line.as_str());
            },
            None => {
                text.append("No need to travel to college today.\n");
            },
        }
        text.append("\nClasses:\n");
        text.append(render_class_lines(&self.classes).as_str());
        match self.travel_back_home {
            Some(time) => {
                let mut line = String::from_str("\nTravel back home: ");
                line.append(time.text().as_str());
                line.append(" (Long trip: ");
                line.append(flag_label(self.long_travel_back_home));
                line.append(")\n");
                text.append(line.as_str());
            },
            None => {
                text.append("\nNo need to travel back home today.\n");
            },
        }
        text
    }
}

} // verus!
