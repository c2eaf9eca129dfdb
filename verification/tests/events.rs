use hidmaestro::events::{EventBuffer, WaitStep};
use hidmaestro::OutputEvent;

fn event(controller: &str, report_id: u8) -> OutputEvent {
    OutputEvent {
        controller: controller.to_string(),
        report_id,
        fields: Vec::new(),
        raw: Vec::new(),
        crc_valid: false,
    }
}

fn wait_no_longer(events: &mut EventBuffer, controller: &str) -> Option<OutputEvent> {
    match events.wait_for_controller(controller, 0, 0, false) {
        WaitStep::Ready(event) => Some(event),
        WaitStep::Expired => None,
        WaitStep::Wait(_) => panic!("no time was given"),
    }
}

#[test]
fn bounded_event_buffer_discards_oldest_and_counts_drops() {
    let mut events = EventBuffer::new(2);
    for controller in ["first", "second", "third"] {
        events.push(event(controller, 1));
    }

    assert_eq!(events.dropped(), 1);
    assert_eq!(
        events
            .drain()
            .into_iter()
            .map(|event| event.controller)
            .collect::<Vec<_>>(),
        ["second", "third"]
    );
}

#[test]
fn filtered_wait_keeps_a_flood_of_unmatched_events_bounded_and_drainable() {
    let mut events = EventBuffer::new(2);
    for report_id in 0..100 {
        events.push(event("other", report_id));
    }
    events.push(event("target", 100));

    assert_eq!(
        wait_no_longer(&mut events, "target").unwrap().controller,
        "target"
    );
    assert_eq!(events.dropped(), 99);
    assert_eq!(
        events
            .drain()
            .into_iter()
            .map(|event| event.report_id)
            .collect::<Vec<_>>(),
        [99]
    );
    assert!(wait_no_longer(&mut events, "target").is_none());

    let mut timed_out = EventBuffer::new(2);
    for report_id in 0..100 {
        timed_out.push(event("other", report_id));
    }
    assert!(wait_no_longer(&mut timed_out, "target").is_none());
    assert_eq!(timed_out.dropped(), 98);
    assert_eq!(timed_out.drain().len(), 2);
}

#[test]
fn events_balance() {
    let mut events = EventBuffer::new(3);
    let mut handed = 0;
    for report_id in 0..50u8 {
        events.push(event(if report_id % 2 == 0 { "even" } else { "odd" }, report_id));
        if report_id % 7 == 0 && wait_no_longer(&mut events, "odd").is_some() {
            handed += 1;
        }
        if report_id == 30 {
            handed += events.drain().len();
        }
    }
    let held = events.drain().len();
    assert_eq!(50, handed + held + events.dropped() as usize);
}

#[test]
fn an_event_is_copied_whole() {
    let mut event = event("c1", 3);
    event.fields.push((
        "rumble".to_string(),
        hidmaestro::json::Json::text("1"),
    ));
    event.raw.push(7);
    assert_eq!(event.clone(), event);
}

#[test]
fn a_wait_takes_the_first_or_goes_on() {
    let mut events = EventBuffer::new(4);
    assert_eq!(events.wait(0, 100, false), WaitStep::Wait(100));
    assert_eq!(events.wait(30, 100, false), WaitStep::Wait(70));
    assert_eq!(events.wait(30, 100, true), WaitStep::Expired);
    assert_eq!(events.wait(100, 100, false), WaitStep::Expired);
    events.push(event("c1", 1));
    events.push(event("c2", 2));
    assert_eq!(
        events.wait_for_controller("c2", 500, 100, true),
        WaitStep::Ready(event("c2", 2))
    );
    assert_eq!(
        events.wait(500, 100, true),
        WaitStep::Ready(event("c1", 1))
    );
    assert_eq!(events.drain(), Vec::new());
    assert_eq!(events.dropped(), 0);
}
