//! The output event model and the synthesis rules that build one event from
//! a title together with a planning timestamp or a time-log interval.

use vstd::prelude::*;

use crate::numfmt::{push_pad2, push_pad4, spec_pad2, spec_pad4};
use crate::org::{valid_ymd, Repeater, TimeUnit, Timepoint, Title, TitleView};
use crate::timestamp::{datetime_duration, point_epoch_seconds, spec_duration_string};
use vstd::string::StringExecFns;

verus! {

/// A date-only event start, rendered `YYYY-MM-DD`.
#[derive(Clone, Copy, Debug, PartialEq, Eq)]
pub struct FCDate {
    pub year: u16,
    pub month: u8,
    pub day: u8,
}

/// A combined date and time, rendered `YYYY-MM-DDTHH:MM:SS`.
#[derive(Clone, Copy, Debug, PartialEq, Eq)]
pub struct FCDateTime {
    pub year: u16,
    pub month: u8,
    pub day: u8,
    pub hour: u8,
    pub minute: u8,
    pub second: u8,
}

/// An event's start: a bare date, or a date with a time of day.
#[derive(Clone, Copy, Debug, PartialEq, Eq)]
pub enum FCStart {
    /// Timestamp with a date only.
    Day(FCDate),
    /// Timestamp with a date and a time.
    DateTime(FCDateTime),
}

impl FCDate {
    pub open spec fn wf(&self) -> bool {
        valid_ymd(self.year as int, self.month as int, self.day as int)
    }

    pub open spec fn spec_render(&self) -> Seq<char> {
        spec_pad4(self.year as int) + seq!['-'] + spec_pad2(self.month as int) + seq!['-']
            + spec_pad2(self.day as int)
    }

    /// The wire form of a date-only start.
    pub fn render(&self) -> (r: String)
        requires
            self.wf(),
        ensures
            r@ == self.spec_render(),
    {
        let mut s = String::new();
        push_pad4(&mut s, self.year as u64);
        s.append("-");
        push_pad2(&mut s, self.month as u64);
        s.append("-");
        push_pad2(&mut s, self.day as u64);
        proof {
            reveal_strlit("-");
            assert("-"@ =~= seq!['-']);
            assert(s@ =~= self.spec_render());
        }
        s
    }
}

impl FCDateTime {
    pub open spec fn wf(&self) -> bool {
        &&& valid_ymd(self.year as int, self.month as int, self.day as int)
        &&& self.hour < 24
        &&& self.minute < 60
        &&& self.second < 60
    }

    pub open spec fn spec_render(&self) -> Seq<char> {
        spec_pad4(self.year as int) + seq!['-'] + spec_pad2(self.month as int) + seq!['-']
            + spec_pad2(self.day as int) + seq!['T'] + spec_pad2(self.hour as int) + seq![':']
            + spec_pad2(self.minute as int) + seq![':'] + spec_pad2(self.second as int)
    }

    /// The wire form of a date-time.
    pub fn render(&self) -> (r: String)
        requires
            self.wf(),
        ensures
            r@ == self.spec_render(),
    {
        let mut s = String::new();
        push_pad4(&mut s, self.year as u64);
        s.append("-");
        push_pad2(&mut s, self.month as u64);
        s.append("-");
        push_pad2(&mut s, self.day as u64);
        s.append("T");
        push_pad2(&mut s, self.hour as u64);
        s.append(":");
        push_pad2(&mut s, self.minute as u64);
        s.append(":");
        push_pad2(&mut s, self.second as u64);
        proof {
            reveal_strlit("-");
            reveal_strlit("T");
            reveal_strlit(":");
            assert("-"@ =~= seq!['-']);
            assert("T"@ =~= seq!['T']);
            assert(":"@ =~= seq![':']);
            assert(s@ =~= self.spec_render());
        }
        s
    }
}

impl FCStart {
    pub open spec fn wf(&self) -> bool {
        match *self {
            FCStart::Day(d) => d.wf(),
            FCStart::DateTime(dt) => dt.wf(),
        }
    }

    pub open spec fn spec_render(&self) -> Seq<char> {
        match *self {
            FCStart::Day(d) => d.spec_render(),
            FCStart::DateTime(dt) => dt.spec_render(),
        }
    }

    /// The wire form of an event start.
    pub fn render(&self) -> (r: String)
        requires
            self.wf(),
        ensures
            r@ == self.spec_render(),
    {
        match self {
            FCStart::Day(d) => d.render(),
            FCStart::DateTime(dt) => dt.render(),
        }
    }
}

/// The date part of a timepoint.
pub open spec fn spec_date_of(p: Timepoint) -> FCDate {
    FCDate { year: p.year, month: p.month, day: p.day }
}

/// A timepoint forced to date-time form, a missing time of day counting as
/// midnight, the seconds field always zero.
pub open spec fn spec_datetime_of(p: Timepoint) -> FCDateTime {
    FCDateTime {
        year: p.year,
        month: p.month,
        day: p.day,
        hour: match p.time {
            Some(t) => t.hour,
            None => 0,
        },
        minute: match p.time {
            Some(t) => t.minute,
            None => 0,
        },
        second: 0,
    }
}

/// A timepoint as an event start: date-time form exactly when the source
/// carried a time of day.
pub open spec fn spec_start_of(p: Timepoint) -> FCStart {
    match p.time {
        Some(_) => FCStart::DateTime(spec_datetime_of(p)),
        None => FCStart::Day(spec_date_of(p)),
    }
}

/// A timepoint forced to date-time form.
pub fn make_datetime(p: &Timepoint) -> (r: FCDateTime)
    ensures
        r == spec_datetime_of(*p),
{
    match p.time {
        Some(t) => FCDateTime {
            year: p.year,
            month: p.month,
            day: p.day,
            hour: t.hour,
            minute: t.minute,
            second: 0,
        },
        None => FCDateTime {
            year: p.year,
            month: p.month,
            day: p.day,
            hour: 0,
            minute: 0,
            second: 0,
        },
    }
}

/// The event start of a planning timestamp's point.
pub fn make_start(start: &Timepoint) -> (r: FCStart)
    ensures
        r == spec_start_of(*start),
{
    match start.time {
        Some(_) => FCStart::DateTime(make_datetime(start)),
        None => FCStart::Day(FCDate { year: start.year, month: start.month, day: start.day }),
    }
}

/// Recurrence rule of an output event.
#[derive(Clone, Debug, PartialEq, Eq)]
pub struct FCRRule {
    pub dtstart: FCStart,
    /// Frequency name: yearly, monthly, weekly, daily or hourly.
    pub freq: String,
    /// Repeater interval, passed through unchanged.
    pub interval: usize,
}

/// Mathematical model of an `FCRRule`.
#[verifier::ext_equal]
pub ghost struct FCRRuleView {
    pub dtstart: FCStart,
    pub freq: Seq<char>,
    pub interval: int,
}

impl View for FCRRule {
    type V = FCRRuleView;

    open spec fn view(&self) -> FCRRuleView {
        FCRRuleView { dtstart: self.dtstart, freq: self.freq@, interval: self.interval as int }
    }
}

impl DeepView for FCRRule {
    type V = FCRRuleView;

    open spec fn deep_view(&self) -> FCRRuleView {
        self.view()
    }
}

/// An output calendar event.
#[derive(Clone, Debug, PartialEq, Eq)]
pub struct FCEvent {
    /// The event's title. (Required)
    pub title: String,
    /// Recurrence rule, present only for a repeating planning timestamp.
    pub rrule: Option<FCRRule>,
    /// The event's start (with or without a time of day).
    pub start: FCStart,
    /// The event's end (always with a time of day, optional).
    pub end: Option<FCDateTime>,
    /// Duration string (for recurring ranges and time-log intervals).
    pub duration: Option<String>,
    /// Description (for tooltips).
    pub description: Option<String>,
    /// Background color.
    pub color: Option<String>,
    /// Text color.
    pub text_color: Option<String>,
    /// The source document this event came from.
    pub file_path: Option<String>,
}

/// Mathematical model of an `FCEvent`.
#[verifier::ext_equal]
pub ghost struct FCEventView {
    pub title: Seq<char>,
    pub rrule: Option<FCRRuleView>,
    pub start: FCStart,
    pub end: Option<FCDateTime>,
    pub duration: Option<Seq<char>>,
    pub description: Option<Seq<char>>,
    pub color: Option<Seq<char>>,
    pub text_color: Option<Seq<char>>,
    pub file_path: Option<Seq<char>>,
}

impl View for FCEvent {
    type V = FCEventView;

    open spec fn view(&self) -> FCEventView {
        FCEventView {
            title: self.title@,
            rrule: self.rrule.deep_view(),
            start: self.start,
            end: self.end,
            duration: self.duration.deep_view(),
            description: self.description.deep_view(),
            color: self.color.deep_view(),
            text_color: self.text_color.deep_view(),
            file_path: self.file_path.deep_view(),
        }
    }
}

impl DeepView for FCEvent {
    type V = FCEventView;

    open spec fn deep_view(&self) -> FCEventView {
        self.view()
    }
}

impl FCEvent {
    /// Constructor: packs the given fields, nothing else.
    pub fn new(
        title: String,
        start: FCStart,
        end: Option<FCDateTime>,
        duration: Option<String>,
        description: Option<String>,
        rrule: Option<FCRRule>,
        color: Option<String>,
        text_color: Option<String>,
        file_path: Option<String>,
    ) -> (r: FCEvent)
        ensures
            r@ == (FCEventView {
                title: title@,
                rrule: rrule.deep_view(),
                start: start,
                end: end,
                duration: duration.deep_view(),
                description: description.deep_view(),
                color: color.deep_view(),
                text_color: text_color.deep_view(),
                file_path: file_path.deep_view(),
            }),
    {
        FCEvent { title, rrule, start, end, duration, description, color, text_color, file_path }
    }
}

/// Title text with the keyword: prefix, then the keyword and a space when
/// present, then the raw title.
pub open spec fn spec_title_with_keyword(t: TitleView, prefix: Seq<char>) -> Seq<char> {
    prefix + (match t.keyword {
        Some(k) => k + seq![' '],
        None => Seq::empty(),
    }) + t.raw
}

/// Title text without the keyword: prefix, then the raw title.
pub open spec fn spec_title_without_keyword(t: TitleView, prefix: Seq<char>) -> Seq<char> {
    prefix + t.raw
}

/// Makes a title with the keyword.
pub fn make_title_with_keyword(title: &Title, prefix: &str) -> (r: String)
    ensures
        r@ == spec_title_with_keyword(title@, prefix@),
{
    let mut s = prefix.to_owned();
    match &title.keyword {
        Some(k) => {
            s.append(k.as_str());
            s.append(" ");
        },
        None => {},
    }
    s.append(title.raw.as_str());
    proof {
        reveal_strlit(" ");
        assert(" "@ =~= seq![' ']);
        assert(s@ =~= spec_title_with_keyword(title@, prefix@));
    }
    s
}

/// Makes a title without the keyword.
pub fn make_title_without_keyword(title: &Title, prefix: &str) -> (r: String)
    ensures
        r@ == spec_title_without_keyword(title@, prefix@),
{
    let mut s = prefix.to_owned();
    s.append(title.raw.as_str());
    s
}

/// The concatenation, in list order, of every `DESCRIPTION` value, each
/// followed by the line-break marker.
pub open spec fn spec_description_concat(props: Seq<(Seq<char>, Seq<char>)>) -> Seq<char>
    decreases props.len(),
{
    if props.len() == 0 {
        Seq::empty()
    } else {
        (if props[0].0 == "DESCRIPTION"@ {
            props[0].1 + "<br>"@
        } else {
            Seq::empty()
        }) + spec_description_concat(props.skip(1))
    }
}

/// The description of an event: the `DESCRIPTION` concatenation, or, when
/// that is empty, the formatted title (keyword included, no prefix).
pub open spec fn spec_description(t: TitleView) -> Seq<char> {
    let c = spec_description_concat(t.properties);
    if c.len() == 0 {
        spec_title_with_keyword(t, Seq::empty())
    } else {
        c
    }
}

/// Makes a description from the `DESCRIPTION` properties.
pub fn make_description(title: &Title) -> (r: Option<String>)
    ensures
        r.deep_view() == Some(spec_description(title@)),
{
    let key: String = "DESCRIPTION".to_owned();
    let mut description = String::new();
    let n = title.properties.len();
    let mut i: usize = 0;
    proof {
        assert(title@.properties.skip(0) =~= title@.properties);
        assert(description@ + spec_description_concat(title@.properties)
            =~= spec_description_concat(title@.properties));
    }
    while i < n
        invariant
            i <= n,
            n == title.properties.len(),
            key@ == "DESCRIPTION"@,
            description@ + spec_description_concat(title@.properties.skip(i as int))
                == spec_description_concat(title@.properties),
        decreases n - i,
    {
        proof {
            assert(title@.properties.skip(i as int).skip(1) =~= title@.properties.skip(
                i as int + 1,
            ));
            assert(title@.properties[i as int] == (
                title.properties@[i as int].0@,
                title.properties@[i as int].1@,
            ));
        }
        let pair = &title.properties[i];
        if pair.0 == key {
            description.append(pair.1.as_str());
            description.append("<br>");
        }
        proof {
            assert(description@ + spec_description_concat(title@.properties.skip(i as int + 1))
                =~= spec_description_concat(title@.properties));
        }
        i += 1;
    }
    proof {
        assert(title@.properties.skip(n as int) =~= Seq::<(Seq<char>, Seq<char>)>::empty());
        assert(description@ =~= spec_description_concat(title@.properties));
    }
    if description.as_str().is_empty() {
        let empty: &str = "";
        proof {
            reveal_strlit("");
            assert(empty@ =~= Seq::<char>::empty());
        }
        return Some(make_title_with_keyword(title, empty));
    }
    Some(description)
}

/// The value of the last entry with the given key, or the empty string when
/// no entry matches.
pub open spec fn spec_last_value(props: Seq<(Seq<char>, Seq<char>)>, key: Seq<char>) -> Seq<char>
    decreases props.len(),
{
    if props.len() == 0 {
        Seq::empty()
    } else if props.last().0 == key {
        props.last().1
    } else {
        spec_last_value(props.drop_last(), key)
    }
}

/// The background color: the last `FC_BG_COLOR` value, an empty result
/// counting as absent.
pub open spec fn spec_color(t: TitleView) -> Option<Seq<char>> {
    let c = spec_last_value(t.properties, "FC_BG_COLOR"@);
    if c.len() == 0 {
        None
    } else {
        Some(c)
    }
}

/// The text color: the last `FC_TXT_COLOR` value, an empty result counting
/// as absent.
pub open spec fn spec_text_color(t: TitleView) -> Option<Seq<char>> {
    let c = spec_last_value(t.properties, "FC_TXT_COLOR"@);
    if c.len() == 0 {
        None
    } else {
        Some(c)
    }
}

/// The last value of `key` among the title's properties, the empty string
/// when no entry matches.
fn last_property_value(title: &Title, key: &String) -> (r: String)
    ensures
        r@ == spec_last_value(title@.properties, key@),
{
    let mut value = String::new();
    let n = title.properties.len();
    let mut i: usize = 0;
    while i < n
        invariant
            i <= n,
            n == title.properties.len(),
            value@ == spec_last_value(title@.properties.take(i as int), key@),
        decreases n - i,
    {
        proof {
            assert(title@.properties.take(i as int + 1).drop_last() =~= title@.properties.take(
                i as int,
            ));
            assert(title@.properties[i as int] == (
                title.properties@[i as int].0@,
                title.properties@[i as int].1@,
            ));
        }
        let pair = &title.properties[i];
        if pair.0 == *key {
            value = pair.1.clone();
        }
        i += 1;
    }
    proof {
        assert(title@.properties.take(n as int) =~= title@.properties);
    }
    value
}

/// Makes an event's background color.
pub fn make_color(title: &Title) -> (r: Option<String>)
    ensures
        r.deep_view() == spec_color(title@),
{
    let key: String = "FC_BG_COLOR".to_owned();
    let color = last_property_value(title, &key);
    if color.as_str().is_empty() {
        return None;
    }
    Some(color)
}

/// Makes an event's text color.
pub fn make_text_color(title: &Title) -> (r: Option<String>)
    ensures
        r.deep_view() == spec_text_color(title@),
{
    let key: String = "FC_TXT_COLOR".to_owned();
    let text_color = last_property_value(title, &key);
    if text_color.as_str().is_empty() {
        return None;
    }
    Some(text_color)
}

/// A property list with no `DESCRIPTION` entry concatenates to nothing.
proof fn lemma_description_concat_no_key(props: Seq<(Seq<char>, Seq<char>)>)
    requires
        forall|i: int| 0 <= i < props.len() ==> (#[trigger] props[i]).0 != "DESCRIPTION"@,
    ensures
        spec_description_concat(props).len() == 0,
    decreases props.len(),
{
    if props.len() == 0 {
    } else {
        assert(props[0].0 != "DESCRIPTION"@);
        assert(forall|i: int|
            0 <= i < props.skip(1).len() ==> (#[trigger] props.skip(1)[i]).0 != "DESCRIPTION"@);
        lemma_description_concat_no_key(props.skip(1));
    }
}

/// Description fallback: a title with no `DESCRIPTION` property describes
/// itself by its formatted title, keyword included, no prefix.
pub proof fn lemma_description_fallback(t: TitleView)
    requires
        forall|i: int| 0 <= i < t.properties.len() ==> (#[trigger] t.properties[i]).0
            != "DESCRIPTION"@,
    ensures
        spec_description(t) == spec_title_with_keyword(t, Seq::empty()),
{
    lemma_description_concat_no_key(t.properties);
}

/// The frequency name of a repeater unit: yearly, monthly, weekly, daily or
/// hourly, respectively.
pub open spec fn spec_freq(unit: TimeUnit) -> Seq<char> {
    match unit {
        TimeUnit::Year => "yearly"@,
        TimeUnit::Month => "monthly"@,
        TimeUnit::Week => "weekly"@,
        TimeUnit::Day => "daily"@,
        TimeUnit::Hour => "hourly"@,
    }
}

/// The recurrence rule of a repeating planning timestamp: the unit's
/// frequency name, the interval unchanged, and the start point itself —
/// with its own date-only or date-time form — as `dtstart`.
pub open spec fn spec_rrule_of(start: Timepoint, repeater: Repeater) -> FCRRuleView {
    FCRRuleView {
        dtstart: spec_start_of(start),
        freq: spec_freq(repeater.unit),
        interval: repeater.value as int,
    }
}

/// The optional recurrence rule: present exactly when a repeater is.
pub open spec fn spec_make_rrule(start: Timepoint, repeater: Option<Repeater>) -> Option<
    FCRRuleView,
> {
    match repeater {
        Some(r) => Some(spec_rrule_of(start, r)),
        None => None,
    }
}

/// Converts a repeater to a recurrence rule.
fn repeater_to_fc_rrule(start: &Timepoint, repeater: &Repeater) -> (r: Option<FCRRule>)
    ensures
        r.deep_view() == Some(spec_rrule_of(*start, *repeater)),
{
    let timeunit: String = match repeater.unit {
        TimeUnit::Year => "yearly".to_owned(),
        TimeUnit::Week => "weekly".to_owned(),
        TimeUnit::Month => "monthly".to_owned(),
        TimeUnit::Day => "daily".to_owned(),
        TimeUnit::Hour => "hourly".to_owned(),
    };
    let dtstart: FCStart = make_start(start);
    Some(FCRRule { dtstart, freq: timeunit, interval: repeater.value })
}

/// Makes the recurrence rule of a planning timestamp, when it repeats.
pub fn make_rrule(start: &Timepoint, repeater: &Option<Repeater>) -> (r: Option<FCRRule>)
    ensures
        r.deep_view() == spec_make_rrule(*start, *repeater),
{
    match repeater {
        Some(rep) => repeater_to_fc_rrule(start, rep),
        None => None,
    }
}

/// Recurrence translation: a repeater becomes a rule whose frequency is the
/// unit's name — yearly, monthly, weekly, daily or hourly — whose interval
/// is the repeater's value unchanged, and whose `dtstart` is the start point
/// in its own date-only or date-time form; no repeater, no rule.
pub proof fn lemma_rrule_translation(start: Timepoint, repeater: Repeater)
    ensures
        spec_make_rrule(start, Some(repeater)) == Some(spec_rrule_of(start, repeater)),
        spec_rrule_of(start, repeater).freq == spec_freq(repeater.unit),
        spec_rrule_of(start, repeater).interval == repeater.value as int,
        spec_rrule_of(start, repeater).dtstart == spec_start_of(start),
        spec_make_rrule(start, None) is None,
{
}

/// The source path stamped on an event; an empty label is omitted.
pub open spec fn spec_file_path(path: Seq<char>) -> Option<Seq<char>> {
    if path.len() == 0 {
        None
    } else {
        Some(path)
    }
}

/// Makes an event's source-path field.
pub fn make_file_path(file_path: &str) -> (r: Option<String>)
    ensures
        r.deep_view() == spec_file_path(file_path@),
{
    if file_path.is_empty() {
        return None;
    }
    Some(file_path.to_owned())
}

/// The event of a deadline or scheduled timestamp without a range: start
/// only, a recurrence rule when the repeater is present, never a duration.
pub open spec fn spec_event_wo_range(
    t: TitleView,
    start: Timepoint,
    repeater: Option<Repeater>,
    prefix: Seq<char>,
    path: Seq<char>,
) -> FCEventView {
    FCEventView {
        title: spec_title_with_keyword(t, prefix),
        rrule: spec_make_rrule(start, repeater),
        start: spec_start_of(start),
        end: None,
        duration: None,
        description: Some(spec_description(t)),
        color: spec_color(t),
        text_color: spec_text_color(t),
        file_path: spec_file_path(path),
    }
}

/// The event of a ranged deadline or scheduled timestamp: start forced to
/// date-time form, an end point, a recurrence rule when the repeater is
/// present, and a duration computed only then.
pub open spec fn spec_event_with_range(
    t: TitleView,
    start: Timepoint,
    end: Timepoint,
    start_repeater: Option<Repeater>,
    prefix: Seq<char>,
    path: Seq<char>,
) -> FCEventView {
    FCEventView {
        title: spec_title_with_keyword(t, prefix),
        rrule: spec_make_rrule(start, start_repeater),
        start: FCStart::DateTime(spec_datetime_of(start)),
        end: Some(spec_datetime_of(end)),
        duration: match start_repeater {
            Some(_) => Some(
                spec_duration_string(point_epoch_seconds(end) - point_epoch_seconds(start)),
            ),
            None => None,
        },
        description: Some(spec_description(t)),
        color: spec_color(t),
        text_color: spec_text_color(t),
        file_path: spec_file_path(path),
    }
}

/// The event of a closed time-log interval: no keyword and no prefix in the
/// title, start and end forced to date-time form, always a duration, never
/// a recurrence rule.
pub open spec fn spec_event_clock(
    t: TitleView,
    start: Timepoint,
    end: Timepoint,
    path: Seq<char>,
) -> FCEventView {
    FCEventView {
        title: spec_title_without_keyword(t, Seq::empty()),
        rrule: None,
        start: FCStart::DateTime(spec_datetime_of(start)),
        end: Some(spec_datetime_of(end)),
        duration: Some(spec_duration_string(point_epoch_seconds(end) - point_epoch_seconds(start))),
        description: Some(spec_description(t)),
        color: spec_color(t),
        text_color: spec_text_color(t),
        file_path: spec_file_path(path),
    }
}

/// Synthesizes the event of a deadline or scheduled point without a range.
fn make_event_from_dl_or_scl_wo_range(
    title: &Title,
    start: &Timepoint,
    repeater: &Option<Repeater>,
    prefix: &str,
    file_path: &str,
) -> (r: FCEvent)
    ensures
        r@ == spec_event_wo_range(title@, *start, *repeater, prefix@, file_path@),
{
    FCEvent::new(
        make_title_with_keyword(title, prefix),
        make_start(start),
        None,
        None,
        make_description(title),
        make_rrule(start, repeater),
        make_color(title),
        make_text_color(title),
        make_file_path(file_path),
    )
}

/// Synthesizes the event of a deadline without a range; its title carries
/// the `DL: ` prefix.
pub fn make_event_from_deadline_wo_range(
    title: &Title,
    start: &Timepoint,
    repeater: &Option<Repeater>,
    file_path: &str,
) -> (r: FCEvent)
    ensures
        r@ == spec_event_wo_range(title@, *start, *repeater, "DL: "@, file_path@),
{
    make_event_from_dl_or_scl_wo_range(title, start, repeater, "DL: ", file_path)
}

/// Synthesizes the event of a scheduled point without a range; its title
/// carries the `SCL: ` prefix.
pub fn make_event_from_scheduled_wo_range(
    title: &Title,
    start: &Timepoint,
    repeater: &Option<Repeater>,
    file_path: &str,
) -> (r: FCEvent)
    ensures
        r@ == spec_event_wo_range(title@, *start, *repeater, "SCL: "@, file_path@),
{
    make_event_from_dl_or_scl_wo_range(title, start, repeater, "SCL: ", file_path)
}

/// Synthesizes the event of a ranged deadline or scheduled timestamp.
fn make_event_from_dl_or_scl_with_range(
    title: &Title,
    start: &Timepoint,
    end: &Timepoint,
    start_repeater: &Option<Repeater>,
    prefix: &str,
    file_path: &str,
) -> (r: FCEvent)
    requires
        (*start_repeater) is Some ==> start.wf() && end.wf(),
    ensures
        r@ == spec_event_with_range(title@, *start, *end, *start_repeater, prefix@, file_path@),
{
    let rrule = make_rrule(start, start_repeater);
    let duration = if rrule.is_none() {
        None
    } else {
        Some(datetime_duration(start, end))
    };
    FCEvent::new(
        make_title_with_keyword(title, prefix),
        FCStart::DateTime(make_datetime(start)),
        Some(make_datetime(end)),
        duration,
        make_description(title),
        rrule,
        make_color(title),
        make_text_color(title),
        make_file_path(file_path),
    )
}

/// Synthesizes the event of a ranged deadline; its title carries the
/// `DL: ` prefix.
pub fn make_event_from_deadline_with_range(
    title: &Title,
    start: &Timepoint,
    end: &Timepoint,
    repeater: &Option<Repeater>,
    file_path: &str,
) -> (r: FCEvent)
    requires
        (*repeater) is Some ==> start.wf() && end.wf(),
    ensures
        r@ == spec_event_with_range(title@, *start, *end, *repeater, "DL: "@, file_path@),
{
    make_event_from_dl_or_scl_with_range(title, start, end, repeater, "DL: ", file_path)
}

/// Synthesizes the event of a ranged scheduled timestamp; its title carries
/// the `SCL: ` prefix.
pub fn make_event_from_scheduled_with_range(
    title: &Title,
    start: &Timepoint,
    end: &Timepoint,
    repeater: &Option<Repeater>,
    file_path: &str,
) -> (r: FCEvent)
    requires
        (*repeater) is Some ==> start.wf() && end.wf(),
    ensures
        r@ == spec_event_with_range(title@, *start, *end, *repeater, "SCL: "@, file_path@),
{
    make_event_from_dl_or_scl_with_range(title, start, end, repeater, "SCL: ", file_path)
}

/// Synthesizes the event of a closed time-log interval.
pub fn make_event_from_clocks(
    title: &Title,
    start: &Timepoint,
    end: &Timepoint,
    file_path: &str,
) -> (r: FCEvent)
    requires
        start.wf(),
        end.wf(),
    ensures
        r@ == spec_event_clock(title@, *start, *end, file_path@),
{
    let empty: &str = "";
    proof {
        reveal_strlit("");
        assert(empty@ =~= Seq::<char>::empty());
    }
    FCEvent::new(
        make_title_without_keyword(title, empty),
        FCStart::DateTime(make_datetime(start)),
        Some(make_datetime(end)),
        Some(datetime_duration(start, end)),
        make_description(title),
        None,
        make_color(title),
        make_text_color(title),
        make_file_path(file_path),
    )
}

} // verus!
