use robohome::data::{get_flips, Flip, FlipRow, SwitchState, Time, TimeKind, TimeOfDay};
use robohome::error::Error;

fn row(id: i32) -> FlipRow {
    FlipRow {
        id,
        direction: 1,
        hour: 7,
        min: 30,
        tod: 0,
        kind: 0,
        dow: 127,
        switch_id: 3,
        remote_id: 9,
    }
}

fn assert_bad_code(r: Result<impl std::fmt::Debug, Error>, name: &str, value: i32) {
    match r {
        Err(Error::Enum(text, v)) => {
            assert_eq!(text, name);
            assert_eq!(v, value);
        }
        other => panic!("expected a bad code, got {:?}", other),
    }
}

#[test]
fn time_of_day_codes_go_both_ways() {
    assert_eq!(TimeOfDay::Am.for_db(), 0);
    assert_eq!(TimeOfDay::Pm.for_db(), 1);
    assert_eq!(TimeOfDay::from_db(0).unwrap(), TimeOfDay::Am);
    assert_eq!(TimeOfDay::from_db(1).unwrap(), TimeOfDay::Pm);
}

#[test]
fn time_of_day_refuses_other_codes() {
    assert_bad_code(TimeOfDay::from_db(2), "TimeOfDay", 2);
    assert_bad_code(TimeOfDay::from_db(-1), "TimeOfDay", -1);
}

#[test]
fn time_kind_codes_go_both_ways() {
    let kinds = [
        TimeKind::Custom,
        TimeKind::Dawn,
        TimeKind::Sunrise,
        TimeKind::Noon,
        TimeKind::Sunset,
        TimeKind::Dusk,
        TimeKind::Midnight,
    ];
    for (code, kind) in kinds.iter().enumerate() {
        assert_eq!(kind.for_db(), code as i32);
        assert_eq!(TimeKind::from_db(code as i32).unwrap(), *kind);
    }
}

#[test]
fn time_kind_refuses_other_codes() {
    assert_bad_code(TimeKind::from_db(7), "TimeKind", 7);
    assert_bad_code(TimeKind::from_db(-1), "TimeKind", -1);
    assert_bad_code(TimeKind::from_db(i32::MAX), "TimeKind", i32::MAX);
}

#[test]
fn switch_state_codes_go_both_ways() {
    assert_eq!(SwitchState::Off.for_db(), 0);
    assert_eq!(SwitchState::On.for_db(), 1);
    assert_eq!(SwitchState::from_db(0).unwrap(), SwitchState::Off);
    assert_eq!(SwitchState::from_db(1).unwrap(), SwitchState::On);
}

#[test]
fn switch_state_refuses_other_codes() {
    assert_bad_code(SwitchState::from_db(2), "SwitchState", 2);
    assert_bad_code(SwitchState::from_db(i32::MIN), "SwitchState", i32::MIN);
}

#[test]
fn a_time_is_read_from_its_numbers() {
    let time = Time::from_db(11, 59, 1, 5, 42).unwrap();
    assert_eq!(time, Time::new(11, 59, TimeOfDay::Pm, TimeKind::Dusk, 42));
}

#[test]
fn a_time_keeps_hours_and_minutes_as_stored() {
    let time = Time::from_db(99, -3, 0, 0, 0).unwrap();
    assert_eq!(time.hour, 99);
    assert_eq!(time.minute, -3);
}

#[test]
fn a_time_reports_the_half_of_the_day_before_the_kind() {
    assert_bad_code(Time::from_db(1, 1, 5, 9, 0), "TimeOfDay", 5);
    assert_bad_code(Time::from_db(1, 1, 1, 9, 0), "TimeKind", 9);
}

#[test]
fn a_flip_is_read_from_its_numbers() {
    let flip = Flip::from_db(17, 0, 6, 15, 1, 4, 3, 21, 22).unwrap();
    assert_eq!(
        flip,
        Flip {
            id: 17,
            direction: SwitchState::Off,
            time: Time::new(6, 15, TimeOfDay::Pm, TimeKind::Sunset, 3),
            switch_id: 21,
            remote_id: 22,
        }
    );
}

#[test]
fn a_flip_reports_its_time_before_its_direction() {
    assert_bad_code(Flip::from_db(1, 8, 6, 15, 2, 4, 3, 21, 22), "TimeOfDay", 2);
    assert_bad_code(Flip::from_db(1, 8, 6, 15, 1, 7, 3, 21, 22), "TimeKind", 7);
    assert_bad_code(Flip::from_db(1, 8, 6, 15, 1, 4, 3, 21, 22), "SwitchState", 8);
}

#[test]
fn rows_become_flips_in_their_order() {
    let mut second = row(2);
    second.hour = 4;
    second.tod = 1;
    second.direction = 0;
    let flips = get_flips(&vec![row(1), second, row(3)]).unwrap();
    assert_eq!(flips.len(), 3);
    assert_eq!(flips[0].id, 1);
    assert_eq!(flips[1].id, 2);
    assert_eq!(flips[2].id, 3);
    assert_eq!(flips[1].time, Time::new(4, 30, TimeOfDay::Pm, TimeKind::Custom, 127));
    assert_eq!(flips[1].direction, SwitchState::Off);
    assert_eq!(flips[0].switch_id, 3);
    assert_eq!(flips[0].remote_id, 9);
}

#[test]
fn no_rows_make_no_flips() {
    assert!(get_flips(&Vec::new()).unwrap().is_empty());
}

#[test]
fn the_first_unreadable_row_ends_the_reading() {
    let mut bad_kind = row(2);
    bad_kind.kind = 12;
    let mut bad_direction = row(3);
    bad_direction.direction = 5;
    assert_bad_code(get_flips(&vec![row(1), bad_kind, bad_direction]), "TimeKind", 12);
    assert_bad_code(get_flips(&vec![bad_direction, bad_kind]), "SwitchState", 5);
}
