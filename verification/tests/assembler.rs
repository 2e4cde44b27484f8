use subtitle_bridge::assembler::{Assembler, Step};
use subtitle_bridge::pending::{PendingSubtitle, PropertyValue};
use subtitle_bridge::player::PlayerMessage;
use subtitle_bridge::seconds::Seconds;
use subtitle_bridge::subtitle::Subtitle;

fn time(seconds: f64) -> PropertyValue {
    PropertyValue {
        unsigned: None,
        integer: None,
        seconds: Some(Seconds::from_double_bits(seconds.to_bits())),
        text: None,
    }
}

fn text(value: &str) -> PropertyValue {
    PropertyValue { unsigned: None, integer: None, seconds: None, text: Some(value.to_string()) }
}

fn integer(value: i64) -> PropertyValue {
    PropertyValue {
        unsigned: u64::try_from(value).ok(),
        integer: Some(value),
        seconds: Some(Seconds::from_double_bits((value as f64).to_bits())),
        text: None,
    }
}

fn response(request_id: u64, data: PropertyValue) -> PlayerMessage {
    PlayerMessage::Response { request_id, error: Some("success".to_string()), data: Some(data) }
}

fn changed(value: &str) -> PlayerMessage {
    PlayerMessage::TextChanged { text: value.to_string() }
}

fn expect_idle(step: Step) {
    assert!(matches!(step, Step::Idle));
}

fn expect_query(step: Step) -> String {
    match step {
        Step::Query { commands } => commands,
        _ => panic!("no query"),
    }
}

fn expect_publish(step: Step) -> Subtitle {
    match step {
        Step::Publish { subtitle } => subtitle,
        _ => panic!("nothing published"),
    }
}

fn subtitle(id: u64, line: &str, start: i64, end: i64, path: &str, aid: i64) -> Subtitle {
    Subtitle {
        id,
        text: line.to_string(),
        sub_start: Seconds::from_millis(start),
        sub_end: Seconds::from_millis(end),
        media_path: path.to_string(),
        aid,
    }
}

#[test]
fn hello_world_scenario() {
    let mut assembler = Assembler::new();
    assert_eq!(assembler.next_subtitle_id(), 1);
    let commands = expect_query(assembler.on_message(changed("Hello world")));
    assert_eq!(
        commands,
        "{\"command\":[\"get_property\",\"sub-start\"],\"request_id\":10}\n\
         {\"command\":[\"get_property\",\"sub-end\"],\"request_id\":11}\n\
         {\"command\":[\"get_property\",\"path\"],\"request_id\":12}\n\
         {\"command\":[\"get_property\",\"aid\"],\"request_id\":13}\n"
    );
    assert_eq!(assembler.pending_count(), 1);
    expect_idle(assembler.on_message(response(12, text("/movies/a.mkv"))));
    expect_idle(assembler.on_message(response(10, time(12.0))));
    expect_idle(assembler.on_message(response(13, integer(2))));
    assert_eq!(assembler.pending_count(), 1);
    let published = expect_publish(assembler.on_message(response(11, time(14.5))));
    assert_eq!(published, subtitle(1, "Hello world", 12_000, 14_500, "/movies/a.mkv", 2));
    assert_eq!(assembler.pending_count(), 0);
    expect_idle(assembler.on_message(response(11, time(14.5))));
    expect_idle(assembler.on_message(response(10, time(99.0))));
    assert_eq!(assembler.pending_count(), 0);
}

#[test]
fn hello_world_scenario_from_lines() {
    let mut assembler = Assembler::new();
    let step = assembler
        .on_line("{\"event\":\"property-change\",\"id\":1,\"name\":\"sub-text\",\"data\":\"Hello world\"}\n");
    expect_query(step);
    expect_idle(assembler.on_line("{\"request_id\":12,\"error\":\"success\",\"data\":\"/movies/a.mkv\"}\n"));
    expect_idle(assembler.on_line("{\"request_id\":10,\"error\":\"success\",\"data\":12.000}\n"));
    expect_idle(assembler.on_line("{\"request_id\":13,\"error\":\"success\",\"data\":2}\n"));
    let published =
        expect_publish(assembler.on_line("{\"request_id\":11,\"error\":\"success\",\"data\":14.500}\n"));
    assert_eq!(published, subtitle(1, "Hello world", 12_000, 14_500, "/movies/a.mkv", 2));
}

#[test]
fn every_arrival_order_publishes_on_the_fourth_answer() {
    let orders: [[u64; 4]; 24] = [
        [0, 1, 2, 3], [0, 1, 3, 2], [0, 2, 1, 3], [0, 2, 3, 1], [0, 3, 1, 2], [0, 3, 2, 1],
        [1, 0, 2, 3], [1, 0, 3, 2], [1, 2, 0, 3], [1, 2, 3, 0], [1, 3, 0, 2], [1, 3, 2, 0],
        [2, 0, 1, 3], [2, 0, 3, 1], [2, 1, 0, 3], [2, 1, 3, 0], [2, 3, 0, 1], [2, 3, 1, 0],
        [3, 0, 1, 2], [3, 0, 2, 1], [3, 1, 0, 2], [3, 1, 2, 0], [3, 2, 0, 1], [3, 2, 1, 0],
    ];
    for order in orders {
        let mut assembler = Assembler::new();
        expect_query(assembler.on_message(changed("line")));
        for (n, slot) in order.iter().enumerate() {
            let data = match slot {
                0 => time(1.5),
                1 => time(2.75),
                2 => text("/m.mkv"),
                _ => integer(1),
            };
            let step = assembler.on_message(response(10 + slot, data));
            if n < 3 {
                expect_idle(step);
            } else {
                assert_eq!(expect_publish(step), subtitle(1, "line", 1_500, 2_750, "/m.mkv", 1));
            }
        }
        assert_eq!(assembler.pending_count(), 0);
    }
}

#[test]
fn interleaved_occurrences_do_not_mix() {
    let mut assembler = Assembler::new();
    let first = expect_query(assembler.on_message(changed("first")));
    assert!(first.contains("\"request_id\":10}"));
    let second = expect_query(assembler.on_message(changed("second")));
    assert!(second.contains("\"request_id\":20}"));
    assert!(second.contains("\"request_id\":23}"));
    assert_eq!(assembler.pending_count(), 2);

    expect_idle(assembler.on_message(response(20, time(5.0))));
    expect_idle(assembler.on_message(response(10, time(1.0))));
    expect_idle(assembler.on_message(response(23, integer(3))));
    expect_idle(assembler.on_message(response(12, text("/a.mkv"))));
    expect_idle(assembler.on_message(response(21, time(6.0))));
    expect_idle(assembler.on_message(response(13, integer(1))));
    let late = expect_publish(assembler.on_message(response(22, text("/b.mkv"))));
    assert_eq!(late, subtitle(2, "second", 5_000, 6_000, "/b.mkv", 3));
    assert_eq!(assembler.pending_count(), 1);
    let early = expect_publish(assembler.on_message(response(11, time(2.0))));
    assert_eq!(early, subtitle(1, "first", 1_000, 2_000, "/a.mkv", 1));
    assert_eq!(assembler.pending_count(), 0);
}

#[test]
fn three_occurrences_complete_in_reverse() {
    let mut assembler = Assembler::new();
    for line in ["a", "b", "c"] {
        expect_query(assembler.on_message(changed(line)));
    }
    for slot in 0..3_u64 {
        for base in [30_u64, 20, 10] {
            let data = match slot {
                0 => time(base as f64),
                1 => time(base as f64 + 1.0),
                _ => text("/x"),
            };
            expect_idle(assembler.on_message(response(base + slot, data)));
        }
    }
    let c = expect_publish(assembler.on_message(response(33, integer(1))));
    let b = expect_publish(assembler.on_message(response(23, integer(1))));
    let a = expect_publish(assembler.on_message(response(13, integer(1))));
    assert_eq!(c, subtitle(3, "c", 30_000, 31_000, "/x", 1));
    assert_eq!(b, subtitle(2, "b", 20_000, 21_000, "/x", 1));
    assert_eq!(a, subtitle(1, "a", 10_000, 11_000, "/x", 1));
}

#[test]
fn empty_text_opens_nothing() {
    let mut assembler = Assembler::new();
    expect_idle(assembler.on_message(changed("")));
    assert_eq!(assembler.pending_count(), 0);
    assert_eq!(assembler.next_subtitle_id(), 1);
    expect_idle(assembler.on_line("{\"event\":\"property-change\",\"data\":\"\"}"));
    assert_eq!(assembler.pending_count(), 0);
    assert_eq!(assembler.next_subtitle_id(), 1);
    let commands = expect_query(assembler.on_message(changed("x")));
    assert!(commands.contains("\"request_id\":10}"));
}

#[test]
fn ids_go_up_by_one_whatever_completes() {
    let mut assembler = Assembler::new();
    expect_query(assembler.on_message(changed("one")));
    assert_eq!(assembler.next_subtitle_id(), 2);
    expect_idle(assembler.on_message(changed("")));
    expect_idle(assembler.on_message(PlayerMessage::Other));
    expect_idle(assembler.on_message(response(10, time(1.0))));
    assert_eq!(assembler.next_subtitle_id(), 2);
    let commands = expect_query(assembler.on_message(changed("two")));
    assert!(commands.starts_with("{\"command\":[\"get_property\",\"sub-start\"],\"request_id\":20}\n"));
    assert_eq!(assembler.next_subtitle_id(), 3);
    for (slot, data) in [(0, time(3.0)), (1, time(4.0)), (2, text("/p")), (3, integer(1))] {
        let step = assembler.on_message(response(20 + slot, data));
        if slot == 3 {
            assert_eq!(expect_publish(step).id, 2);
        }
    }
    expect_query(assembler.on_message(changed("three")));
    assert_eq!(assembler.next_subtitle_id(), 4);
    for (slot, data) in [(3, integer(1)), (2, text("/p")), (1, time(4.0)), (0, time(3.0))] {
        let step = assembler.on_message(response(30 + slot, data));
        if slot == 0 {
            assert_eq!(expect_publish(step).id, 3);
        }
    }
    assert_eq!(assembler.pending_count(), 1);
}

#[test]
fn answers_for_no_occurrence_are_ignored() {
    let mut assembler = Assembler::new();
    expect_idle(assembler.on_message(response(1, integer(4242))));
    expect_idle(assembler.on_message(response(2, integer(4242))));
    expect_idle(assembler.on_message(response(10, time(1.0))));
    expect_query(assembler.on_message(changed("x")));
    expect_idle(assembler.on_message(response(20, time(1.0))));
    expect_idle(assembler.on_message(response(0, time(1.0))));
    assert_eq!(assembler.pending_count(), 1);
}

#[test]
fn answers_outside_the_four_slots_are_ignored() {
    let mut assembler = Assembler::new();
    expect_query(assembler.on_message(changed("x")));
    for id in 14..20 {
        expect_idle(assembler.on_message(response(id, time(1.0))));
        expect_idle(assembler.on_message(response(id, text("t"))));
        expect_idle(assembler.on_message(response(id, integer(1))));
    }
    expect_idle(assembler.on_message(response(10, time(1.0))));
    expect_idle(assembler.on_message(response(11, time(2.0))));
    expect_idle(assembler.on_message(response(12, text("/p"))));
    let published = expect_publish(assembler.on_message(response(13, integer(1))));
    assert_eq!(published, subtitle(1, "x", 1_000, 2_000, "/p", 1));
}

#[test]
fn answers_without_data_fill_nothing() {
    let mut assembler = Assembler::new();
    expect_query(assembler.on_message(changed("x")));
    let empty = PlayerMessage::Response {
        request_id: 13,
        error: Some("property unavailable".to_string()),
        data: None,
    };
    expect_idle(assembler.on_message(empty));
    expect_idle(assembler.on_message(response(10, time(1.0))));
    expect_idle(assembler.on_message(response(11, time(2.0))));
    expect_idle(assembler.on_message(response(12, text("/p"))));
    assert_eq!(assembler.pending_count(), 1);
    expect_publish(assembler.on_message(response(13, integer(1))));
}

#[test]
fn an_answer_of_the_wrong_kind_drops_the_occurrence() {
    let mut assembler = Assembler::new();
    expect_query(assembler.on_message(changed("x")));
    expect_idle(assembler.on_message(response(10, time(1.0))));
    expect_idle(assembler.on_message(response(11, time(2.0))));
    expect_idle(assembler.on_message(response(13, text("no"))));
    assert_eq!(assembler.pending_count(), 1);
    expect_idle(assembler.on_message(response(12, text("/p"))));
    assert_eq!(assembler.pending_count(), 0);
    expect_idle(assembler.on_message(response(13, integer(1))));
    assert_eq!(assembler.pending_count(), 0);
    let commands = expect_query(assembler.on_message(changed("y")));
    assert!(commands.contains("\"request_id\":20}"));
    assert_eq!(assembler.next_subtitle_id(), 3);
}

#[test]
fn every_slot_wants_its_own_kind() {
    for (slot, wrong) in [(0_u64, text("soon")), (1, text("later")), (2, integer(5)), (3, time(1.5))] {
        let mut assembler = Assembler::new();
        expect_query(assembler.on_message(changed("x")));
        for good in 0..4_u64 {
            if good != slot {
                let data = match good {
                    0 => time(1.0),
                    1 => time(2.0),
                    2 => text("/p"),
                    _ => integer(1),
                };
                expect_idle(assembler.on_message(response(10 + good, data)));
            }
        }
        assert_eq!(assembler.pending_count(), 1);
        expect_idle(assembler.on_message(response(10 + slot, wrong)));
        assert_eq!(assembler.pending_count(), 0);
    }
}

#[test]
fn a_later_answer_replaces_an_earlier_one() {
    let mut assembler = Assembler::new();
    expect_query(assembler.on_message(changed("x")));
    expect_idle(assembler.on_message(response(10, text("soon"))));
    expect_idle(assembler.on_message(response(10, time(1.0))));
    expect_idle(assembler.on_message(response(10, time(1.5))));
    expect_idle(assembler.on_message(response(11, time(2.0))));
    expect_idle(assembler.on_message(response(12, text("/p"))));
    let published = expect_publish(assembler.on_message(response(13, integer(1))));
    assert_eq!(published.sub_start.millis(), 1_500);
}

#[test]
fn integer_times_are_times() {
    let mut assembler = Assembler::new();
    expect_query(assembler.on_line("{\"event\":\"property-change\",\"data\":\"x\"}"));
    expect_idle(assembler.on_line("{\"request_id\":10,\"data\":12}"));
    expect_idle(assembler.on_line("{\"request_id\":11,\"data\":14}"));
    expect_idle(assembler.on_line("{\"request_id\":12,\"data\":\"/p\"}"));
    let published = expect_publish(assembler.on_line("{\"request_id\":13,\"data\":1}"));
    assert_eq!(published, subtitle(1, "x", 12_000, 14_000, "/p", 1));
}

#[test]
fn malformed_lines_are_skipped() {
    let mut assembler = Assembler::new();
    expect_idle(assembler.on_line("garbage"));
    expect_idle(assembler.on_line(""));
    expect_idle(assembler.on_line("{\"event\":\"idle\"}"));
    assert_eq!(assembler.pending_count(), 0);
    assert_eq!(assembler.next_subtitle_id(), 1);
}

#[test]
fn pending_subtitle_fills_slot_by_slot() {
    let mut pending = PendingSubtitle::new(9, "line".to_string());
    assert!(!pending.is_complete());
    pending.set_response(3, integer(2));
    pending.set_response(4, integer(2));
    pending.set_response(0, time(1.0));
    assert!(!pending.is_complete());
    pending.set_response(1, time(2.0));
    assert!(!pending.is_complete());
    assert!(!pending.is_convertible());
    pending.set_response(2, integer(7));
    assert!(pending.is_complete());
    assert!(!pending.is_convertible());
    pending.set_response(2, text("/p"));
    assert!(pending.is_complete());
    assert!(pending.is_convertible());
    assert_eq!(pending.into_subtitle(), subtitle(9, "line", 1_000, 2_000, "/p", 2));
}
