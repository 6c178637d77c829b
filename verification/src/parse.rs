//! Document traversal: walks the node stream in document order, tracks the
//! current title context, dispatches planning timestamps and closed time-log
//! intervals to event synthesis, and admits each candidate through the
//! day-window filter keyed on its start point.

use vstd::prelude::*;

use crate::fullcalendar::{
    make_event_from_clocks, make_event_from_deadline_with_range, make_event_from_deadline_wo_range,
    make_event_from_scheduled_with_range, make_event_from_scheduled_wo_range, spec_event_clock,
    spec_event_with_range, spec_event_wo_range, FCEvent, FCEventView,
};
use crate::org::{spec_empty_title, Clock, Node, NodeView, Org, PlanningTimestamp, Repeater, Timepoint, Title, TitleView};
use crate::timestamp::{date_is_n_days_before_or_after_now, point_epoch_seconds, spec_within_window};

verus! {

/// The events of one planning timestamp under a title: one event with the
/// given title prefix when its start point passes the window filter,
/// nothing otherwise.
pub open spec fn spec_timestamp_events(
    t: TitleView,
    ts: PlanningTimestamp,
    prefix: Seq<char>,
    before: int,
    after: int,
    now: int,
    path: Seq<char>,
) -> Seq<FCEventView> {
    match ts {
        PlanningTimestamp::Active { start, repeater } => if spec_within_window(
            point_epoch_seconds(start),
            before,
            after,
            now,
        ) {
            seq![spec_event_wo_range(t, start, repeater, prefix, path)]
        } else {
            Seq::empty()
        },
        PlanningTimestamp::ActiveRange { start, end, start_repeater } => if spec_within_window(
            point_epoch_seconds(start),
            before,
            after,
            now,
        ) {
            seq![spec_event_with_range(t, start, end, start_repeater, prefix, path)]
        } else {
            Seq::empty()
        },
    }
}

/// The planning events of one title: the deadline's event, if any and
/// admitted, followed by the scheduled timestamp's.
pub open spec fn spec_title_planning_events(
    t: TitleView,
    before: int,
    after: int,
    now: int,
    path: Seq<char>,
) -> Seq<FCEventView> {
    (match t.deadline {
        Some(ts) => spec_timestamp_events(t, ts, "DL: "@, before, after, now, path),
        None => Seq::empty(),
    }) + (match t.scheduled {
        Some(ts) => spec_timestamp_events(t, ts, "SCL: "@, before, after, now, path),
        None => Seq::empty(),
    })
}

/// The planning events contributed by one node: titles contribute their
/// planning events, time-log entries nothing.
pub open spec fn spec_node_planning_events(
    node: NodeView,
    before: int,
    after: int,
    now: int,
    path: Seq<char>,
) -> Seq<FCEventView> {
    match node {
        NodeView::Title(t) => spec_title_planning_events(t, before, after, now, path),
        NodeView::Clock(_) => Seq::empty(),
    }
}

/// The planning events of a document, in document order.
pub open spec fn spec_planning_events(
    nodes: Seq<NodeView>,
    before: int,
    after: int,
    now: int,
    path: Seq<char>,
) -> Seq<FCEventView>
    decreases nodes.len(),
{
    if nodes.len() == 0 {
        Seq::empty()
    } else {
        spec_node_planning_events(nodes[0], before, after, now, path) + spec_planning_events(
            nodes.skip(1),
            before,
            after,
            now,
            path,
        )
    }
}

proof fn lemma_planning_events_step(
    nodes: Seq<NodeView>,
    i: int,
    before: int,
    after: int,
    now: int,
    path: Seq<char>,
)
    requires
        0 <= i < nodes.len(),
    ensures
        spec_planning_events(nodes.skip(i), before, after, now, path)
            == spec_node_planning_events(nodes[i], before, after, now, path)
            + spec_planning_events(nodes.skip(i + 1), before, after, now, path),
{
    assert(nodes.skip(i)[0] == nodes[i]);
    assert(nodes.skip(i).skip(1) =~= nodes.skip(i + 1));
}

/// The time-log events of a document, in document order, each associated
/// with the nearest preceding title (`cur` before the first): a title
/// updates the context, a closed interval yields an event when its start
/// passes the window filter, a running interval is ignored.
pub open spec fn spec_clock_events(
    nodes: Seq<NodeView>,
    cur: TitleView,
    before: int,
    after: int,
    now: int,
    path: Seq<char>,
) -> Seq<FCEventView>
    decreases nodes.len(),
{
    if nodes.len() == 0 {
        Seq::empty()
    } else {
        match nodes[0] {
            NodeView::Title(t) => spec_clock_events(nodes.skip(1), t, before, after, now, path),
            NodeView::Clock(c) => (match c {
                Clock::Closed { start, end } => if spec_within_window(
                    point_epoch_seconds(start),
                    before,
                    after,
                    now,
                ) {
                    seq![spec_event_clock(cur, start, end, path)]
                } else {
                    Seq::empty()
                },
                Clock::Running { .. } => Seq::empty(),
            }) + spec_clock_events(nodes.skip(1), cur, before, after, now, path),
        }
    }
}

/// Filters a deadline point through the window and, when admitted, appends
/// its event.
pub fn push_deadline_wo_range(
    events: &mut Vec<FCEvent>,
    title: &Title,
    start: &Timepoint,
    repeater: &Option<Repeater>,
    ignore_before_days: i64,
    ignore_after_days: i64,
    now_epoch_seconds: i64,
    file_path: &str,
)
    requires
        start.wf(),
    ensures
        final(events).deep_view() == old(events).deep_view() + (if spec_within_window(
            point_epoch_seconds(*start),
            ignore_before_days as int,
            ignore_after_days as int,
            now_epoch_seconds as int,
        ) {
            seq![spec_event_wo_range(title@, *start, *repeater, "DL: "@, file_path@)]
        } else {
            Seq::<FCEventView>::empty()
        }),
{
    if date_is_n_days_before_or_after_now(
        start,
        ignore_before_days,
        ignore_after_days,
        now_epoch_seconds,
    ) {
        let ev = make_event_from_deadline_wo_range(title, start, repeater, file_path);
        events.push(ev);
        proof {
            assert(events.deep_view() =~= old(events).deep_view() + seq![
                spec_event_wo_range(title@, *start, *repeater, "DL: "@, file_path@),
            ]);
        }
    } else {
        proof {
            assert(events.deep_view() =~= old(events).deep_view()
                + Seq::<FCEventView>::empty());
        }
    }
}

/// Walks the document and synthesizes the planning events — deadlines and
/// scheduled timestamps — admitted by the window filter around the given
/// clock reading, in document order.
pub fn parsed_org_to_fc_vec(
    org: &Org,
    ignore_before_days: i64,
    ignore_after_days: i64,
    now_epoch_seconds: i64,
    file_path: &str,
) -> (r: Vec<FCEvent>)
    requires
        org.wf(),
    ensures
        r.deep_view() == spec_planning_events(
            org@,
            ignore_before_days as int,
            ignore_after_days as int,
            now_epoch_seconds as int,
            file_path@,
        ),
{
    let ghost before = ignore_before_days as int;
    let ghost after = ignore_after_days as int;
    let ghost now = now_epoch_seconds as int;
    let mut fullcalendar_events: Vec<FCEvent> = Vec::new();
    let n = org.nodes.len();
    let mut i: usize = 0;
    proof {
        assert(org@.skip(0) =~= org@);
        assert(fullcalendar_events.deep_view() + spec_planning_events(org@, before, after, now, file_path@)
            =~= spec_planning_events(org@, before, after, now, file_path@));
    }
    while i < n
        invariant
            i <= n,
            n == org.nodes.len(),
            org.wf(),
            before == ignore_before_days as int,
            after == ignore_after_days as int,
            now == now_epoch_seconds as int,
            fullcalendar_events.deep_view() + spec_planning_events(
                org@.skip(i as int),
                before,
                after,
                now,
                file_path@,
            ) == spec_planning_events(org@, before, after, now, file_path@),
        decreases n - i,
    {
        proof {
            assert(org@[i as int] == org.nodes@[i as int]@);
            assert(org@[i as int].wf());
            lemma_planning_events_step(org@, i as int, before, after, now, file_path@);
        }
        let ghost events0 = fullcalendar_events.deep_view();
        match &org.nodes[i] {
            Node::Title(title) => {
                proof {
                    assert(org@[i as int] == NodeView::Title(title@));
                }
                match &title.deadline {
                    Some(deadline) => match deadline {
                        PlanningTimestamp::Active { start, repeater } => {
                            push_deadline_wo_range(
                                &mut fullcalendar_events,
                                title,
                                start,
                                repeater,
                                ignore_before_days,
                                ignore_after_days,
                                now_epoch_seconds,
                                file_path,
                            );
                        },
                        PlanningTimestamp::ActiveRange { start, end, start_repeater } => {
                            if date_is_n_days_before_or_after_now(
                                start,
                                ignore_before_days,
                                ignore_after_days,
                                now_epoch_seconds,
                            ) {
                                let ev = make_event_from_deadline_with_range(
                                    title,
                                    start,
                                    end,
                                    start_repeater,
                                    file_path,
                                );
                                fullcalendar_events.push(ev);
                            }
                        },
                    },
                    None => {},
                }
                proof {
                    assert(fullcalendar_events.deep_view() =~= events0 + (match title@.deadline {
                        Some(ts) => spec_timestamp_events(
                            title@,
                            ts,
                            "DL: "@,
                            before,
                            after,
                            now,
                            file_path@,
                        ),
                        None => Seq::<FCEventView>::empty(),
                    }));
                }
                let ghost events1 = fullcalendar_events.deep_view();
                match &title.scheduled {
                    Some(schedule) => match schedule {
                        PlanningTimestamp::Active { start, repeater } => {
                            if date_is_n_days_before_or_after_now(
                                start,
                                ignore_before_days,
                                ignore_after_days,
                                now_epoch_seconds,
                            ) {
                                let ev = make_event_from_scheduled_wo_range(
                                    title,
                                    start,
                                    repeater,
                                    file_path,
                                );
                                fullcalendar_events.push(ev);
                            }
                        },
                        PlanningTimestamp::ActiveRange { start, end, start_repeater } => {
                            if date_is_n_days_before_or_after_now(
                                start,
                                ignore_before_days,
                                ignore_after_days,
                                now_epoch_seconds,
                            ) {
                                let ev = make_event_from_scheduled_with_range(
                                    title,
                                    start,
                                    end,
                                    start_repeater,
                                    file_path,
                                );
                                fullcalendar_events.push(ev);
                            }
                        },
                    },
                    None => {},
                }
                proof {
                    assert(fullcalendar_events.deep_view() =~= events1 + (match title@.scheduled {
                        Some(ts) => spec_timestamp_events(
                            title@,
                            ts,
                            "SCL: "@,
                            before,
                            after,
                            now,
                            file_path@,
                        ),
                        None => Seq::<FCEventView>::empty(),
                    }));
                    assert(fullcalendar_events.deep_view() =~= events0
                        + spec_title_planning_events(title@, before, after, now, file_path@));
                }
            },
            Node::Clock(_) => {
                proof {
                    assert(fullcalendar_events.deep_view() =~= events0
                        + spec_node_planning_events(org@[i as int], before, after, now, file_path@));
                }
            },
        }
        i += 1;
    }
    proof {
        assert(org@.skip(n as int) =~= Seq::<NodeView>::empty());
        assert(fullcalendar_events.deep_view() =~= spec_planning_events(
            org@,
            before,
            after,
            now,
            file_path@,
        ));
    }
    fullcalendar_events
}

/// Walks the document and synthesizes the events of its closed time-log
/// intervals, each associated with the nearest preceding title and admitted
/// by the window filter around the given clock reading, in document order.
pub fn parsed_org_to_fc_vec_clock(
    org: &Org,
    ignore_before_days: i64,
    ignore_after_days: i64,
    now_epoch_seconds: i64,
    file_path: &str,
) -> (r: Vec<FCEvent>)
    requires
        org.wf(),
    ensures
        r.deep_view() == spec_clock_events(
            org@,
            spec_empty_title(),
            ignore_before_days as int,
            ignore_after_days as int,
            now_epoch_seconds as int,
            file_path@,
        ),
{
    let ghost before = ignore_before_days as int;
    let ghost after = ignore_after_days as int;
    let ghost now = now_epoch_seconds as int;
    let mut fullcalendar_events: Vec<FCEvent> = Vec::new();
    let empty_title = Title {
        raw: String::new(),
        keyword: None,
        properties: Vec::new(),
        deadline: None,
        scheduled: None,
    };
    let mut title: &Title = &empty_title;
    let n = org.nodes.len();
    let mut i: usize = 0;
    proof {
        assert(title@.properties =~= spec_empty_title().properties);
        assert(title@ =~= spec_empty_title());
        assert(org@.skip(0) =~= org@);
        assert(fullcalendar_events.deep_view() + spec_clock_events(
            org@,
            spec_empty_title(),
            before,
            after,
            now,
            file_path@,
        ) =~= spec_clock_events(org@, spec_empty_title(), before, after, now, file_path@));
    }
    while i < n
        invariant
            i <= n,
            n == org.nodes.len(),
            org.wf(),
            before == ignore_before_days as int,
            after == ignore_after_days as int,
            now == now_epoch_seconds as int,
            fullcalendar_events.deep_view() + spec_clock_events(
                org@.skip(i as int),
                title@,
                before,
                after,
                now,
                file_path@,
            ) == spec_clock_events(org@, spec_empty_title(), before, after, now, file_path@),
        decreases n - i,
    {
        proof {
            assert(org@[i as int] == org.nodes@[i as int]@);
            assert(org@[i as int].wf());
            assert(org@.skip(i as int)[0] == org@[i as int]);
            assert(org@.skip(i as int).skip(1) =~= org@.skip(i as int + 1));
        }
        match &org.nodes[i] {
            Node::Title(title_orig) => {
                proof {
                    assert(org@[i as int] == NodeView::Title(title_orig@));
                }
                title = title_orig;
            },
            Node::Clock(clock) => {
                match clock {
                    Clock::Closed { start, end } => {
                        if date_is_n_days_before_or_after_now(
                            start,
                            ignore_before_days,
                            ignore_after_days,
                            now_epoch_seconds,
                        ) {
                            let ev = make_event_from_clocks(title, start, end, file_path);
                            let ghost events0 = fullcalendar_events.deep_view();
                            fullcalendar_events.push(ev);
                            proof {
                                assert(fullcalendar_events.deep_view() =~= events0 + seq![
                                    spec_event_clock(title@, *start, *end, file_path@),
                                ]);
                            }
                        }
                    },
                    Clock::Running { .. } => {},
                }
            },
        }
        i += 1;
    }
    proof {
        assert(org@.skip(n as int) =~= Seq::<NodeView>::empty());
        assert(fullcalendar_events.deep_view() =~= spec_clock_events(
            org@,
            spec_empty_title(),
            before,
            after,
            now,
            file_path@,
        ));
    }
    fullcalendar_events
}

/// Synthesis is a function of the document, the window and the clock
/// reading alone: two planning traversals of the same input agree.
pub proof fn lemma_planning_synthesis_deterministic(
    nodes: Seq<NodeView>,
    before: int,
    after: int,
    now: int,
    path: Seq<char>,
    r1: Seq<FCEventView>,
    r2: Seq<FCEventView>,
)
    requires
        r1 == spec_planning_events(nodes, before, after, now, path),
        r2 == spec_planning_events(nodes, before, after, now, path),
    ensures
        r1 == r2,
{
}

/// Synthesis is a function of the document, the window and the clock
/// reading alone: two time-log traversals of the same input agree.
pub proof fn lemma_clock_synthesis_deterministic(
    nodes: Seq<NodeView>,
    before: int,
    after: int,
    now: int,
    path: Seq<char>,
    r1: Seq<FCEventView>,
    r2: Seq<FCEventView>,
)
    requires
        r1 == spec_clock_events(nodes, spec_empty_title(), before, after, now, path),
        r2 == spec_clock_events(nodes, spec_empty_title(), before, after, now, path),
    ensures
        r1 == r2,
{
}

} // verus!
