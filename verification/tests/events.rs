use org_fullcalendar::fullcalendar::{
    make_color, make_description, make_event_from_clocks, make_file_path, make_rrule,
    make_start, make_text_color, make_title_with_keyword, make_title_without_keyword, FCDate,
    FCDateTime, FCStart,
};
use org_fullcalendar::org::{
    Clock, ClockTime, Node, Org, PlanningTimestamp, Repeater, TimeUnit, Timepoint, Title,
};
use org_fullcalendar::parse::{parsed_org_to_fc_vec, parsed_org_to_fc_vec_clock};
use org_fullcalendar::timestamp::{date_is_n_days_before_or_after_now, datetime_duration};

fn day(year: u16, month: u8, d: u8) -> Timepoint {
    Timepoint { year, month, day: d, time: None }
}

fn at(year: u16, month: u8, d: u8, hour: u8, minute: u8) -> Timepoint {
    Timepoint { year, month, day: d, time: Some(ClockTime { hour, minute }) }
}

fn props(pairs: &[(&str, &str)]) -> Vec<(String, String)> {
    pairs.iter().map(|(k, v)| (k.to_string(), v.to_string())).collect()
}

fn title_node(
    raw: &str,
    keyword: Option<&str>,
    properties: Vec<(String, String)>,
    deadline: Option<PlanningTimestamp>,
    scheduled: Option<PlanningTimestamp>,
) -> Node {
    Node::Title(Title {
        raw: raw.to_string(),
        keyword: keyword.map(|k| k.to_string()),
        properties,
        deadline,
        scheduled,
    })
}

/// Seconds-timeline position used as the injected clock reading.
fn epoch(year: i32, month: u32, d: u32, hour: u32, minute: u32) -> i64 {
    chrono::NaiveDate::from_ymd_opt(year, month, d)
        .unwrap()
        .and_hms_opt(hour, minute, 0)
        .unwrap()
        .and_utc()
        .timestamp()
}

fn fc_day(year: u16, month: u8, d: u8) -> FCStart {
    FCStart::Day(FCDate { year, month, day: d })
}

fn fc_at(year: u16, month: u8, d: u8, hour: u8, minute: u8) -> FCDateTime {
    FCDateTime { year, month, day: d, hour, minute, second: 0 }
}

#[test]
fn print_deadline_wo_time_wo_range_wo_repeater_wo_desc() {
    let raw = "Deadlin, Withtout Time, Without Range, Repeater: None";
    let org = Org {
        nodes: vec![title_node(
            raw,
            None,
            props(&[("FC_BG_COLOR", "black"), ("FC_TXT_COLOR", "red")]),
            Some(PlanningTimestamp::Active { start: day(2022, 7, 25), repeater: None }),
            None,
        )],
    };
    let events = parsed_org_to_fc_vec(&org, 0, 0, 0, "");
    assert_eq!(events.len(), 1);
    let ev = &events[0];
    assert_eq!(ev.title, format!("DL: {}", raw));
    assert_eq!(ev.start, fc_day(2022, 7, 25));
    assert_eq!(ev.start.render(), "2022-07-25");
    assert_eq!(ev.end, None);
    assert_eq!(ev.duration, None);
    assert!(ev.rrule.is_none());
    assert_eq!(ev.description, Some(raw.to_string()));
    assert_eq!(ev.color, Some("black".to_string()));
    assert_eq!(ev.text_color, Some("red".to_string()));
    assert_eq!(ev.file_path, None);
}

#[test]
fn print_deadline_wo_time_wo_range_wt_repeater_wo_desc() {
    let raw = "Deadlin, Withtout Time, Without Range, Repeater: +3d";
    let org = Org {
        nodes: vec![title_node(
            raw,
            None,
            props(&[]),
            Some(PlanningTimestamp::Active {
                start: day(2022, 7, 25),
                repeater: Some(Repeater { unit: TimeUnit::Day, value: 3 }),
            }),
            None,
        )],
    };
    let events = parsed_org_to_fc_vec(&org, 0, 0, 0, "");
    assert_eq!(events.len(), 1);
    let ev = &events[0];
    assert_eq!(ev.title, format!("DL: {}", raw));
    let rrule = ev.rrule.as_ref().unwrap();
    assert_eq!(rrule.dtstart, fc_day(2022, 7, 25));
    assert_eq!(rrule.dtstart.render(), "2022-07-25");
    assert_eq!(rrule.freq, "daily");
    assert_eq!(rrule.interval, 3);
    assert_eq!(ev.start, fc_day(2022, 7, 25));
    assert_eq!(ev.duration, None);
    assert_eq!(ev.description, Some(raw.to_string()));
}

#[test]
fn print_deadline_wo_time_wt_range_wo_repeater_wo_desc() {
    let raw = "Deadlin, Withtout Time, With Range,    Repeater: None";
    let org = Org {
        nodes: vec![title_node(
            raw,
            None,
            props(&[("FC_BG_COLOR", "red"), ("FC_TXT_COLOR", "black")]),
            Some(PlanningTimestamp::ActiveRange {
                start: day(2022, 7, 26),
                end: day(2022, 7, 28),
                start_repeater: None,
            }),
            None,
        )],
    };
    let events = parsed_org_to_fc_vec(&org, 0, 0, 0, "");
    assert_eq!(events.len(), 1);
    let ev = &events[0];
    assert_eq!(ev.title, format!("DL: {}", raw));
    assert_eq!(ev.start, FCStart::DateTime(fc_at(2022, 7, 26, 0, 0)));
    assert_eq!(ev.start.render(), "2022-07-26T00:00:00");
    assert_eq!(ev.end, Some(fc_at(2022, 7, 28, 0, 0)));
    assert_eq!(ev.end.unwrap().render(), "2022-07-28T00:00:00");
    assert_eq!(ev.duration, None);
    assert!(ev.rrule.is_none());
    assert_eq!(ev.color, Some("red".to_string()));
    assert_eq!(ev.text_color, Some("black".to_string()));
}

#[test]
fn print_deadline_wt_time_wo_range_wo_repeater_wo_desc() {
    let raw = "Deadline With Time,     Without Range and with a Time";
    let org = Org {
        nodes: vec![title_node(
            raw,
            None,
            props(&[]),
            Some(PlanningTimestamp::Active { start: at(2022, 7, 16, 12, 0), repeater: None }),
            None,
        )],
    };
    let events = parsed_org_to_fc_vec(&org, 0, 0, 0, "");
    assert_eq!(events.len(), 1);
    let ev = &events[0];
    assert_eq!(ev.title, format!("DL: {}", raw));
    assert_eq!(ev.start, FCStart::DateTime(fc_at(2022, 7, 16, 12, 0)));
    assert_eq!(ev.start.render(), "2022-07-16T12:00:00");
    assert_eq!(ev.description, Some(raw.to_string()));
}

#[test]
fn print_deadline_wt_time_wt_range_wo_repeater_wt_desc() {
    let raw = "Deadlin, With Time,    With Range, Repeater: None";
    let desc = "Deadlin, Withtout Time, Without Range, Repeater: None";
    let org = Org {
        nodes: vec![title_node(
            raw,
            None,
            props(&[("DESCRIPTION", desc)]),
            Some(PlanningTimestamp::ActiveRange {
                start: at(2022, 7, 25, 18, 0),
                end: at(2022, 7, 25, 22, 0),
                start_repeater: None,
            }),
            None,
        )],
    };
    let events = parsed_org_to_fc_vec(&org, 0, 0, 0, "");
    assert_eq!(events.len(), 1);
    let ev = &events[0];
    assert_eq!(ev.start.render(), "2022-07-25T18:00:00");
    assert_eq!(ev.end.unwrap().render(), "2022-07-25T22:00:00");
    assert_eq!(ev.duration, None);
    assert_eq!(ev.description, Some(format!("{}<br>", desc)));
}

#[test]
fn print_deadline_wt_time_wt_range_wt_repeater_wt_desc() {
    let raw = "Deadlin, With Time,    With Range, Repeater: +1w";
    let desc = "Deadlin, Withtout Time, Without Range, Repeater: +2d";
    let org = Org {
        nodes: vec![title_node(
            raw,
            None,
            props(&[("DESCRIPTION", desc)]),
            Some(PlanningTimestamp::ActiveRange {
                start: at(2022, 7, 26, 10, 0),
                end: at(2022, 7, 26, 11, 0),
                start_repeater: Some(Repeater { unit: TimeUnit::Week, value: 1 }),
            }),
            None,
        )],
    };
    let events = parsed_org_to_fc_vec(&org, 0, 0, 0, "");
    assert_eq!(events.len(), 1);
    let ev = &events[0];
    let rrule = ev.rrule.as_ref().unwrap();
    assert_eq!(rrule.dtstart.render(), "2022-07-26T10:00:00");
    assert_eq!(rrule.freq, "weekly");
    assert_eq!(rrule.interval, 1);
    assert_eq!(ev.start.render(), "2022-07-26T10:00:00");
    assert_eq!(ev.end.unwrap().render(), "2022-07-26T11:00:00");
    assert_eq!(ev.duration, Some("1:00:00".to_string()));
    assert_eq!(ev.description, Some(format!("{}<br>", desc)));
}

#[test]
fn print_schedule_wo_time_wo_range_wo_repeater_wo_desc() {
    let raw = "Scheduled, Withtout Time, Without Range, Repeater: None";
    let org = Org {
        nodes: vec![title_node(
            raw,
            None,
            props(&[("FC_BG_COLOR", "blue"), ("FC_TXT_COLOR", "green")]),
            None,
            Some(PlanningTimestamp::Active { start: day(2022, 7, 19), repeater: None }),
        )],
    };
    let events = parsed_org_to_fc_vec(&org, 0, 0, 0, "");
    assert_eq!(events.len(), 1);
    let ev = &events[0];
    assert_eq!(ev.title, format!("SCL: {}", raw));
    assert_eq!(ev.start.render(), "2022-07-19");
    assert_eq!(ev.description, Some(raw.to_string()));
    assert_eq!(ev.color, Some("blue".to_string()));
    assert_eq!(ev.text_color, Some("green".to_string()));
}

#[test]
fn print_schedule_wo_time_wo_range_wt_repeater_wo_desc() {
    let raw = "Scheduled, Withtout Time, Without Range, Repeater: +1w";
    let org = Org {
        nodes: vec![title_node(
            raw,
            None,
            props(&[]),
            None,
            Some(PlanningTimestamp::Active {
                start: day(2022, 7, 27),
                repeater: Some(Repeater { unit: TimeUnit::Week, value: 1 }),
            }),
        )],
    };
    let events = parsed_org_to_fc_vec(&org, 0, 0, 0, "");
    assert_eq!(events.len(), 1);
    let ev = &events[0];
    assert_eq!(ev.title, format!("SCL: {}", raw));
    let rrule = ev.rrule.as_ref().unwrap();
    assert_eq!(rrule.dtstart.render(), "2022-07-27");
    assert_eq!(rrule.freq, "weekly");
    assert_eq!(rrule.interval, 1);
    assert_eq!(ev.start.render(), "2022-07-27");
}

#[test]
fn print_schedule_wo_time_wt_range_wo_repeater_wo_desc() {
    let raw = "Scheduled, Withtout Time, With Range,    Repeater: None";
    let org = Org {
        nodes: vec![title_node(
            raw,
            None,
            props(&[("FC_BG_COLOR", "green"), ("FC_TXT_COLOR", "blue")]),
            None,
            Some(PlanningTimestamp::ActiveRange {
                start: day(2022, 7, 18),
                end: day(2022, 7, 21),
                start_repeater: None,
            }),
        )],
    };
    let events = parsed_org_to_fc_vec(&org, 0, 0, 0, "");
    assert_eq!(events.len(), 1);
    let ev = &events[0];
    assert_eq!(ev.title, format!("SCL: {}", raw));
    assert_eq!(ev.start.render(), "2022-07-18T00:00:00");
    assert_eq!(ev.end.unwrap().render(), "2022-07-21T00:00:00");
    assert_eq!(ev.duration, None);
    assert_eq!(ev.color, Some("green".to_string()));
    assert_eq!(ev.text_color, Some("blue".to_string()));
}

#[test]
fn print_schedule_wt_time_wo_range_wo_repeater_wo_desc() {
    let raw = "Scheduled, With Time,     Without Range, Repeater: None";
    let org = Org {
        nodes: vec![title_node(
            raw,
            None,
            props(&[]),
            None,
            Some(PlanningTimestamp::Active { start: at(2022, 7, 28, 12, 0), repeater: None }),
        )],
    };
    let events = parsed_org_to_fc_vec(&org, 0, 0, 0, "");
    assert_eq!(events.len(), 1);
    let ev = &events[0];
    assert_eq!(ev.title, format!("SCL: {}", raw));
    assert_eq!(ev.start.render(), "2022-07-28T12:00:00");
}

#[test]
fn print_schedule_wt_time_wt_range_wo_repeater_wo_desc() {
    let raw = "Scheduled, With Time,     With Range,    Repeater: None";
    let org = Org {
        nodes: vec![title_node(
            raw,
            None,
            props(&[]),
            None,
            Some(PlanningTimestamp::ActiveRange {
                start: at(2022, 7, 27, 10, 0),
                end: at(2022, 7, 27, 11, 30),
                start_repeater: None,
            }),
        )],
    };
    let events = parsed_org_to_fc_vec(&org, 0, 0, 0, "");
    assert_eq!(events.len(), 1);
    let ev = &events[0];
    assert_eq!(ev.start.render(), "2022-07-27T10:00:00");
    assert_eq!(ev.end.unwrap().render(), "2022-07-27T11:30:00");
    assert_eq!(ev.duration, None);
}

#[test]
fn print_schedule_wt_time_wt_range_wt_repeater_wt_desc() {
    let raw = "Scheduled, With Time,     With Range,    Repeater: +1d, With Multiline DEDC";
    let org = Org {
        nodes: vec![title_node(
            raw,
            None,
            props(&[
                ("DESCRIPTION", "description for this header"),
                ("DESCRIPTION", "additional description (into next line"),
                ("ID", "2e8a1478-54f7-45f6-9fa2-2db7472a66a2"),
            ]),
            None,
            Some(PlanningTimestamp::ActiveRange {
                start: at(2022, 7, 27, 17, 0),
                end: at(2022, 7, 27, 19, 21),
                start_repeater: Some(Repeater { unit: TimeUnit::Day, value: 1 }),
            }),
        )],
    };
    let events = parsed_org_to_fc_vec(&org, 0, 0, 0, "");
    assert_eq!(events.len(), 1);
    let ev = &events[0];
    let rrule = ev.rrule.as_ref().unwrap();
    assert_eq!(rrule.dtstart.render(), "2022-07-27T17:00:00");
    assert_eq!(rrule.freq, "daily");
    assert_eq!(rrule.interval, 1);
    assert_eq!(ev.start.render(), "2022-07-27T17:00:00");
    assert_eq!(ev.end.unwrap().render(), "2022-07-27T19:21:00");
    assert_eq!(ev.duration, Some("2:21:00".to_string()));
    assert_eq!(
        ev.description,
        Some(
            "description for this header<br>additional description (into next line<br>"
                .to_string()
        )
    );
}

#[test]
fn print_clock_1_wt_time_wt_range_wt_desc() {
    let org = Org {
        nodes: vec![
            title_node(
                "Clock1",
                Some("TODO"),
                props(&[("DESCRIPTION", "Clock test1")]),
                Some(PlanningTimestamp::Active { start: day(2022, 7, 20), repeater: None }),
                None,
            ),
            Node::Clock(Clock::Closed {
                start: at(2022, 7, 18, 15, 54),
                end: at(2022, 7, 18, 17, 7),
            }),
        ],
    };
    let events = parsed_org_to_fc_vec_clock(&org, 0, 0, 0, "");
    assert_eq!(events.len(), 1);
    let ev = &events[0];
    assert_eq!(ev.title, "Clock1");
    assert_eq!(ev.start.render(), "2022-07-18T15:54:00");
    assert_eq!(ev.end.unwrap().render(), "2022-07-18T17:07:00");
    assert_eq!(ev.duration, Some("1:13:00".to_string()));
    assert_eq!(ev.description, Some("Clock test1<br>".to_string()));
    assert!(ev.rrule.is_none());
}

#[test]
fn print_clock_2_wt_time_wt_range_wt_desc() {
    let org = Org {
        nodes: vec![
            title_node(
                "Clock2",
                Some("TODO"),
                props(&[("DESCRIPTION", "Clock test2")]),
                Some(PlanningTimestamp::Active { start: day(2022, 7, 20), repeater: None }),
                None,
            ),
            Node::Clock(Clock::Closed {
                start: at(2022, 7, 18, 13, 54),
                end: at(2022, 7, 18, 14, 7),
            }),
            Node::Clock(Clock::Closed {
                start: at(2022, 7, 17, 13, 54),
                end: at(2022, 7, 18, 15, 7),
            }),
        ],
    };
    let events = parsed_org_to_fc_vec_clock(&org, 0, 0, 0, "");
    assert_eq!(events.len(), 2);
    assert_eq!(events[0].title, "Clock2");
    assert_eq!(events[0].start.render(), "2022-07-18T13:54:00");
    assert_eq!(events[0].duration, Some("0:13:00".to_string()));
    assert_eq!(events[0].description, Some("Clock test2<br>".to_string()));
    assert_eq!(events[1].title, "Clock2");
    assert_eq!(events[1].start.render(), "2022-07-17T13:54:00");
    assert_eq!(events[1].end.unwrap().render(), "2022-07-18T15:07:00");
    assert_eq!(events[1].duration, Some("25:13:00".to_string()));
    assert_eq!(events[1].description, Some("Clock test2<br>".to_string()));
}

#[test]
fn print_clock_1_wt_time_wt_range_wo_desc() {
    let org = Org {
        nodes: vec![
            title_node(
                "Clock3",
                Some("TODO"),
                props(&[("FC_BG_COLOR", "yellow"), ("FC_TXT_COLOR", "white")]),
                Some(PlanningTimestamp::Active { start: day(2022, 7, 22), repeater: None }),
                None,
            ),
            Node::Clock(Clock::Closed {
                start: at(2022, 7, 20, 15, 54),
                end: at(2022, 7, 20, 17, 7),
            }),
        ],
    };
    let events = parsed_org_to_fc_vec_clock(&org, 0, 0, 0, "");
    assert_eq!(events.len(), 1);
    let ev = &events[0];
    assert_eq!(ev.title, "Clock3");
    assert_eq!(ev.duration, Some("1:13:00".to_string()));
    assert_eq!(ev.description, Some("TODO Clock3".to_string()));
    assert_eq!(ev.color, Some("yellow".to_string()));
    assert_eq!(ev.text_color, Some("white".to_string()));
}

#[test]
fn ignore_deadline_after_1_day() {
    // The injected clock reading stands for "now"; the deadline lies
    // twenty-four hours and one minute later.
    let now = epoch(2022, 7, 25, 12, 0);
    let org = Org {
        nodes: vec![title_node(
            "Ignore a DEADLINE 1 day after now",
            None,
            props(&[]),
            Some(PlanningTimestamp::Active { start: at(2022, 7, 26, 12, 1), repeater: None }),
            None,
        )],
    };
    let events = parsed_org_to_fc_vec(&org, 0, 1, now, "");
    assert_eq!(events.len(), 0);
}

#[test]
fn ignore_clock_befre_1_day() {
    // The clock interval starts exactly twenty-four hours before the
    // injected clock reading and runs thirty minutes.
    let now = epoch(2022, 7, 25, 12, 0);
    let org = Org {
        nodes: vec![
            title_node("test2", None, props(&[]), None, None),
            Node::Clock(Clock::Closed {
                start: at(2022, 7, 24, 12, 0),
                end: at(2022, 7, 24, 12, 30),
            }),
        ],
    };
    let events = parsed_org_to_fc_vec_clock(&org, 1, 0, now, "");
    assert_eq!(events.len(), 0);
}

#[test]
fn ignore_headline_only() {
    let org = Org { nodes: vec![title_node("Headline Only", None, props(&[]), None, None)] };
    let events = parsed_org_to_fc_vec_clock(&org, 1, 0, 0, "");
    assert_eq!(events.len(), 0);
}

#[test]
fn rrule_frequency_per_unit() {
    let start = day(2022, 7, 25);
    let cases = [
        (TimeUnit::Year, "yearly"),
        (TimeUnit::Month, "monthly"),
        (TimeUnit::Week, "weekly"),
        (TimeUnit::Day, "daily"),
        (TimeUnit::Hour, "hourly"),
    ];
    for (unit, freq) in cases {
        let rrule = make_rrule(&start, &Some(Repeater { unit, value: 7 })).unwrap();
        assert_eq!(rrule.freq, freq);
        assert_eq!(rrule.interval, 7);
        assert_eq!(rrule.dtstart, fc_day(2022, 7, 25));
    }
    assert!(make_rrule(&start, &None).is_none());
}

#[test]
fn duration_formats() {
    assert_eq!(datetime_duration(&at(2022, 7, 27, 17, 0), &at(2022, 7, 27, 19, 21)), "2:21:00");
    assert_eq!(datetime_duration(&at(2022, 7, 18, 15, 54), &at(2022, 7, 18, 17, 7)), "1:13:00");
    assert_eq!(datetime_duration(&at(2022, 7, 17, 13, 54), &at(2022, 7, 18, 15, 7)), "25:13:00");
    assert_eq!(datetime_duration(&at(2022, 7, 18, 12, 0), &at(2022, 7, 18, 12, 5)), "0:05:00");
    assert_eq!(datetime_duration(&at(2022, 7, 18, 12, 0), &at(2022, 7, 18, 12, 0)), "0:00:00");
}

#[test]
fn duration_across_month_and_leap_day() {
    assert_eq!(datetime_duration(&at(2022, 6, 30, 23, 0), &at(2022, 7, 1, 1, 0)), "2:00:00");
    assert_eq!(datetime_duration(&at(2020, 2, 28, 12, 0), &at(2020, 2, 29, 12, 0)), "24:00:00");
    assert_eq!(datetime_duration(&at(2021, 2, 28, 12, 0), &at(2021, 3, 1, 12, 0)), "24:00:00");
}

#[test]
fn duration_negative_passthrough() {
    // Malformed input whose end precedes its start is passed through, not
    // guarded: the fields are formatted from the truncated quotients.
    assert_eq!(datetime_duration(&at(2022, 7, 18, 12, 0), &at(2022, 7, 18, 11, 0)), "-1:00:00");
    assert_eq!(datetime_duration(&at(2022, 7, 18, 12, 0), &at(2022, 7, 18, 11, 55)), "0:-5:00");
}

#[test]
fn description_fallback_and_concat() {
    let t = Title {
        raw: "Foo".to_string(),
        keyword: Some("TODO".to_string()),
        properties: props(&[("OTHER", "x")]),
        deadline: None,
        scheduled: None,
    };
    assert_eq!(make_description(&t), Some("TODO Foo".to_string()));
    let t2 = Title {
        raw: "Foo".to_string(),
        keyword: None,
        properties: props(&[("DESCRIPTION", "A"), ("DESCRIPTION", "B")]),
        deadline: None,
        scheduled: None,
    };
    assert_eq!(make_description(&t2), Some("A<br>B<br>".to_string()));
}

#[test]
fn colors_absent_empty_present() {
    let absent = Title {
        raw: "t".to_string(),
        keyword: None,
        properties: props(&[]),
        deadline: None,
        scheduled: None,
    };
    assert_eq!(make_color(&absent), None);
    assert_eq!(make_text_color(&absent), None);
    let empty_valued = Title {
        raw: "t".to_string(),
        keyword: None,
        properties: props(&[("FC_BG_COLOR", ""), ("FC_TXT_COLOR", "")]),
        deadline: None,
        scheduled: None,
    };
    assert_eq!(make_color(&empty_valued), None);
    assert_eq!(make_text_color(&empty_valued), None);
    let present = Title {
        raw: "t".to_string(),
        keyword: None,
        properties: props(&[("FC_BG_COLOR", "black"), ("FC_TXT_COLOR", "red")]),
        deadline: None,
        scheduled: None,
    };
    assert_eq!(make_color(&present), Some("black".to_string()));
    assert_eq!(make_text_color(&present), Some("red".to_string()));
    let last_wins = Title {
        raw: "t".to_string(),
        keyword: None,
        properties: props(&[("FC_BG_COLOR", "black"), ("FC_BG_COLOR", "green")]),
        deadline: None,
        scheduled: None,
    };
    assert_eq!(make_color(&last_wins), Some("green".to_string()));
}

#[test]
fn window_filter_edges() {
    let now = epoch(2022, 7, 25, 12, 0);
    // Exactly 24h + 1min in the future, upper bound one day: excluded.
    assert!(!date_is_n_days_before_or_after_now(&at(2022, 7, 26, 12, 1), 0, 1, now));
    // Just under the bound: included.
    assert!(date_is_n_days_before_or_after_now(&at(2022, 7, 26, 11, 59), 0, 1, now));
    // Exactly 24h in the past, lower bound one day: excluded.
    assert!(!date_is_n_days_before_or_after_now(&at(2022, 7, 24, 12, 0), 1, 0, now));
    // Just under the bound: included.
    assert!(date_is_n_days_before_or_after_now(&at(2022, 7, 24, 12, 1), 1, 0, now));
    // Both bounds zero: everything included.
    assert!(date_is_n_days_before_or_after_now(&day(1970, 1, 1), 0, 0, now));
    assert!(date_is_n_days_before_or_after_now(&day(9999, 12, 31), 0, 0, now));
}

#[test]
fn titles_and_file_path() {
    let t = Title {
        raw: "Foo".to_string(),
        keyword: Some("TODO".to_string()),
        properties: props(&[]),
        deadline: None,
        scheduled: None,
    };
    assert_eq!(make_title_with_keyword(&t, "DL: "), "DL: TODO Foo");
    assert_eq!(make_title_without_keyword(&t, ""), "Foo");
    assert_eq!(make_file_path(""), None);
    assert_eq!(make_file_path("notes.org"), Some("notes.org".to_string()));
}

#[test]
fn start_form_follows_time_of_day() {
    assert_eq!(make_start(&day(2022, 7, 5)), fc_day(2022, 7, 5));
    assert_eq!(make_start(&day(2022, 7, 5)).render(), "2022-07-05");
    assert_eq!(
        make_start(&at(987, 1, 2, 3, 4)).render(),
        "0987-01-02T03:04:00"
    );
}

#[test]
fn clock_event_stamps_file_path() {
    let t = Title {
        raw: "Work".to_string(),
        keyword: None,
        properties: props(&[]),
        deadline: None,
        scheduled: None,
    };
    let ev = make_event_from_clocks(
        &t,
        &at(2022, 7, 18, 9, 0),
        &at(2022, 7, 18, 10, 30),
        "agenda.org",
    );
    assert_eq!(ev.file_path, Some("agenda.org".to_string()));
    assert_eq!(ev.duration, Some("1:30:00".to_string()));
    assert_eq!(ev.title, "Work");
}

#[test]
fn synthesis_idempotent_for_fixed_now() {
    let now = epoch(2022, 7, 25, 12, 0);
    let org = Org {
        nodes: vec![
            title_node(
                "Foo",
                Some("TODO"),
                props(&[("FC_BG_COLOR", "black")]),
                Some(PlanningTimestamp::Active { start: day(2022, 7, 25), repeater: None }),
                Some(PlanningTimestamp::ActiveRange {
                    start: at(2022, 7, 26, 10, 0),
                    end: at(2022, 7, 26, 11, 0),
                    start_repeater: Some(Repeater { unit: TimeUnit::Week, value: 1 }),
                }),
            ),
            Node::Clock(Clock::Closed {
                start: at(2022, 7, 24, 13, 0),
                end: at(2022, 7, 24, 14, 0),
            }),
            Node::Clock(Clock::Running { start: at(2022, 7, 25, 9, 0) }),
        ],
    };
    let first = parsed_org_to_fc_vec(&org, 7, 7, now, "a.org");
    let second = parsed_org_to_fc_vec(&org, 7, 7, now, "a.org");
    assert_eq!(first, second);
    assert_eq!(first.len(), 2);
    let first_clock = parsed_org_to_fc_vec_clock(&org, 7, 7, now, "a.org");
    let second_clock = parsed_org_to_fc_vec_clock(&org, 7, 7, now, "a.org");
    assert_eq!(first_clock, second_clock);
    assert_eq!(first_clock.len(), 1);
}

#[test]
fn open_clock_ignored() {
    let org = Org {
        nodes: vec![
            title_node("t", None, props(&[]), None, None),
            Node::Clock(Clock::Running { start: at(2022, 7, 25, 9, 0) }),
        ],
    };
    let events = parsed_org_to_fc_vec_clock(&org, 0, 0, 0, "");
    assert_eq!(events.len(), 0);
}

#[test]
fn clock_before_any_title_uses_empty_context() {
    let org = Org {
        nodes: vec![Node::Clock(Clock::Closed {
            start: at(2022, 7, 18, 9, 0),
            end: at(2022, 7, 18, 9, 30),
        })],
    };
    let events = parsed_org_to_fc_vec_clock(&org, 0, 0, 0, "");
    assert_eq!(events.len(), 1);
    assert_eq!(events[0].title, "");
    assert_eq!(events[0].description, Some("".to_string()));
    assert_eq!(events[0].duration, Some("0:30:00".to_string()));
}
