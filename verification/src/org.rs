//! The document model: the part of a parsed outline document that event
//! synthesis reads. Titles carry planning timestamps and a property list;
//! clock entries record time-log intervals. All timestamps are naive
//! wall-clock values.

use vstd::prelude::*;

verus! {

/// A wall-clock time of day, minute resolution.
#[derive(Clone, Copy, Debug, PartialEq, Eq)]
pub struct ClockTime {
    pub hour: u8,
    pub minute: u8,
}

/// A calendar date, optionally refined with a time of day. Whether a time of
/// day is present is decided once, by the source timestamp, and never changes.
#[derive(Clone, Copy, Debug, PartialEq, Eq)]
pub struct Timepoint {
    pub year: u16,
    pub month: u8,
    pub day: u8,
    pub time: Option<ClockTime>,
}

/// Proleptic-Gregorian leap year rule.
pub open spec fn is_leap_year(y: int) -> bool {
    (y % 4 == 0 && y % 100 != 0) || y % 400 == 0
}

pub open spec fn days_in_month(y: int, m: int) -> int {
    if m == 1 || m == 3 || m == 5 || m == 7 || m == 8 || m == 10 || m == 12 {
        31
    } else if m == 4 || m == 6 || m == 9 || m == 11 {
        30
    } else if is_leap_year(y) {
        29
    } else {
        28
    }
}

/// A real calendar date with a four-digit year.
pub open spec fn valid_ymd(y: int, m: int, d: int) -> bool {
    0 <= y <= 9999 && 1 <= m <= 12 && 1 <= d <= days_in_month(y, m)
}

impl ClockTime {
    pub open spec fn wf(&self) -> bool {
        self.hour < 24 && self.minute < 60
    }
}

impl Timepoint {
    pub open spec fn wf(&self) -> bool {
        &&& valid_ymd(self.year as int, self.month as int, self.day as int)
        &&& match self.time {
            Some(t) => t.wf(),
            None => true,
        }
    }
}

/// Time unit of a recurrence repeater.
#[derive(Clone, Copy, Debug, PartialEq, Eq)]
pub enum TimeUnit {
    Year,
    Month,
    Week,
    Day,
    Hour,
}

/// A recurrence repeater attached to a planning timestamp's start point.
#[derive(Clone, Copy, Debug, PartialEq, Eq)]
pub struct Repeater {
    pub unit: TimeUnit,
    pub value: usize,
}

/// An active planning timestamp of a title: a single point or a range, the
/// start optionally carrying a repeater.
#[derive(Clone, Copy, Debug, PartialEq, Eq)]
pub enum PlanningTimestamp {
    Active { start: Timepoint, repeater: Option<Repeater> },
    ActiveRange { start: Timepoint, end: Timepoint, start_repeater: Option<Repeater> },
}

impl PlanningTimestamp {
    pub open spec fn wf(&self) -> bool {
        match *self {
            PlanningTimestamp::Active { start, .. } => start.wf(),
            PlanningTimestamp::ActiveRange { start, end, .. } => start.wf() && end.wf(),
        }
    }
}

/// A heading of the document: raw title text, optional keyword, the ordered
/// property list (keys may repeat), and the planning timestamps.
#[derive(Clone, Debug, PartialEq, Eq)]
pub struct Title {
    pub raw: String,
    pub keyword: Option<String>,
    pub properties: Vec<(String, String)>,
    pub deadline: Option<PlanningTimestamp>,
    pub scheduled: Option<PlanningTimestamp>,
}

/// Mathematical model of a `Title`.
#[verifier::ext_equal]
pub ghost struct TitleView {
    pub raw: Seq<char>,
    pub keyword: Option<Seq<char>>,
    pub properties: Seq<(Seq<char>, Seq<char>)>,
    pub deadline: Option<PlanningTimestamp>,
    pub scheduled: Option<PlanningTimestamp>,
}

impl View for Title {
    type V = TitleView;

    open spec fn view(&self) -> TitleView {
        TitleView {
            raw: self.raw@,
            keyword: self.keyword.deep_view(),
            properties: self.properties.deep_view(),
            deadline: self.deadline,
            scheduled: self.scheduled,
        }
    }
}

impl DeepView for Title {
    type V = TitleView;

    open spec fn deep_view(&self) -> TitleView {
        self.view()
    }
}

impl TitleView {
    pub open spec fn wf(&self) -> bool {
        &&& match self.deadline {
            Some(ts) => ts.wf(),
            None => true,
        }
        &&& match self.scheduled {
            Some(ts) => ts.wf(),
            None => true,
        }
    }
}

/// The placeholder context in force before the first title of a document.
pub open spec fn spec_empty_title() -> TitleView {
    TitleView {
        raw: Seq::empty(),
        keyword: None,
        properties: Seq::empty(),
        deadline: None,
        scheduled: None,
    }
}

/// A time-log entry: a closed interval, or one still running (no end point).
#[derive(Clone, Copy, Debug, PartialEq, Eq)]
pub enum Clock {
    Closed { start: Timepoint, end: Timepoint },
    Running { start: Timepoint },
}

impl Clock {
    pub open spec fn wf(&self) -> bool {
        match *self {
            Clock::Closed { start, end } => start.wf() && end.wf(),
            Clock::Running { start } => start.wf(),
        }
    }
}

/// One node of the document's flattened stream, in document order.
#[derive(Clone, Debug, PartialEq, Eq)]
pub enum Node {
    Title(Title),
    Clock(Clock),
}

/// Mathematical model of a `Node`.
pub ghost enum NodeView {
    Title(TitleView),
    Clock(Clock),
}

impl View for Node {
    type V = NodeView;

    open spec fn view(&self) -> NodeView {
        match *self {
            Node::Title(ref t) => NodeView::Title(t@),
            Node::Clock(c) => NodeView::Clock(c),
        }
    }
}

impl DeepView for Node {
    type V = NodeView;

    open spec fn deep_view(&self) -> NodeView {
        self.view()
    }
}

impl NodeView {
    pub open spec fn wf(&self) -> bool {
        match *self {
            NodeView::Title(t) => t.wf(),
            NodeView::Clock(c) => c.wf(),
        }
    }
}

/// A parsed document, flattened to its node stream in document order.
#[derive(Clone, Debug, PartialEq, Eq)]
pub struct Org {
    pub nodes: Vec<Node>,
}

impl View for Org {
    type V = Seq<NodeView>;

    open spec fn view(&self) -> Seq<NodeView> {
        self.nodes.deep_view()
    }
}

impl Org {
    /// Every timestamp of the document is a real calendar date with a real
    /// time of day: what a syntactically well-formed source guarantees.
    pub open spec fn wf(&self) -> bool {
        forall|i: int| 0 <= i < self@.len() ==> (#[trigger] self@[i]).wf()
    }
}

} // verus!
