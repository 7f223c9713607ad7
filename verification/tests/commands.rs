use chrono::{Datelike, NaiveDate};
use clido::args::{valid_date, valid_priority};
use clido::calendar::{date_from_input, date_to_label, day_to_date, full_day, short_day, MAX_DAY};
use clido::commands::{add, del, list, mark, modify, Add, Delete, List, Mark, Modify};
use clido::db::Database;
use clido::storage::{
    clido_dir, persist, persist_with_pause, DataDir, PersistAction, ReadOutcome, SaveError,
    SaveStep, Saver, StepOutcome, DB_FILENAME, DIR_FOLDER, DIR_VARIABLE, MAX_TRIES,
};
use clido::todo::{Priority, Status, Timestamp, ToDo};

// 1 January 2024, a Monday.
const MONDAY: i32 = 738_886;

fn now() -> Timestamp {
    Timestamp { day: MONDAY, secs: 45_000, nano: 7 }
}

fn store() -> Database {
    Database::from_path("d".to_string(), ReadOutcome::NotFound).unwrap().db
}

fn plain(todo: &str) -> Add {
    Add { todo: todo.to_string(), priority: None, start_date: None, due_date: None, tags: None }
}

#[test]
fn day_numbers_are_those_of_the_calendar() {
    assert_eq!(NaiveDate::from_ymd_opt(2024, 1, 1).unwrap().num_days_from_ce(), MONDAY);
    assert_eq!(NaiveDate::from_ymd_opt(2024, 1, 1).unwrap().weekday().num_days_from_monday(), 0);
    assert_eq!(NaiveDate::MAX.num_days_from_ce(), MAX_DAY);
}

#[test]
fn typed_date_is_read_as_day_month_year() {
    assert_eq!(
        date_from_input("03-01-2024", now()),
        Some(Timestamp { day: MONDAY + 2, secs: 45_000, nano: 7 })
    );
    assert_eq!(
        date_from_input("01-01-1970", now()),
        Some(Timestamp { day: 719_163, secs: 45_000, nano: 7 })
    );
    assert_eq!(date_from_input("31-02-2024", now()), None);
    assert_eq!(date_from_input("2024-01-03", now()), None);
    assert_eq!(date_from_input("", now()), None);
    assert_eq!(date_from_input("mo", now()), None);
    assert_eq!(date_from_input("Mon", now()), None);
}

#[test]
fn weekday_name_gives_the_first_such_day_from_today() {
    assert_eq!(date_from_input("mon", now()), Some(now()));
    assert_eq!(
        date_from_input("wed", now()),
        Some(Timestamp { day: MONDAY + 2, secs: 45_000, nano: 7 })
    );
    assert_eq!(
        date_from_input("sunday", now()),
        Some(Timestamp { day: MONDAY + 6, secs: 45_000, nano: 7 })
    );
    let thursday = Timestamp { day: MONDAY + 3, secs: 1, nano: 2 };
    assert_eq!(
        date_from_input("tue", thursday),
        Some(Timestamp { day: MONDAY + 8, secs: 1, nano: 2 })
    );
    for goal in 0..7u8 {
        for start in [MONDAY - 1_000_000, -10, 0, 1, MONDAY, MONDAY + 5] {
            let from = Timestamp { day: start, secs: 0, nano: 0 };
            let found = day_to_date(&from, goal).unwrap();
            let date = NaiveDate::from_num_days_from_ce_opt(found.day).unwrap();
            assert_eq!(date.weekday().num_days_from_monday(), goal as u32);
            assert!(found.day >= start && found.day < start + 7);
        }
    }
}

#[test]
fn weekday_behind_the_last_day_is_not_found() {
    let last = Timestamp { day: MAX_DAY, secs: 5, nano: 6 };
    let weekday = NaiveDate::MAX.weekday().num_days_from_monday() as u8;
    assert_eq!(day_to_date(&last, weekday), Some(last));
    assert_eq!(day_to_date(&last, (weekday + 1) % 7), None);
    let names = ["mon", "tue", "wed", "thu", "fri", "sat", "sun"];
    assert_eq!(date_from_input(names[((weekday + 1) % 7) as usize], last), Some(last));
}

#[test]
fn day_names() {
    assert_eq!(short_day("mon"), Some(0));
    assert_eq!(short_day("sun"), Some(6));
    assert_eq!(short_day("monday"), None);
    assert_eq!(full_day("monday"), Some(0));
    assert_eq!(full_day("thursday"), Some(3));
    assert_eq!(full_day("thu"), None);
}

#[test]
fn date_label_is_day_month_year() {
    assert_eq!(date_to_label(Some(now())), "01-01-2024");
    assert_eq!(date_to_label(Some(Timestamp { day: 719_163, secs: 0, nano: 0 })), "01-01-1970");
    assert_eq!(date_to_label(None), "None");
    assert_eq!(date_to_label(Some(Timestamp { day: i32::MAX, secs: 0, nano: 0 })), "None");
}

#[test]
fn valid_priority_accepts_three_words() {
    assert_eq!(valid_priority("high".to_string()), Ok(()));
    assert_eq!(valid_priority("mid".to_string()), Ok(()));
    assert_eq!(valid_priority("low".to_string()), Ok(()));
    assert_eq!(
        valid_priority("medium".to_string()),
        Err("Valid options are [\"high\", \"mid\", \"low\"]".to_string())
    );
    assert_eq!(
        valid_priority("".to_string()),
        Err(format!("Valid options are {:?}", ["high", "mid", "low"]))
    );
}

#[test]
fn valid_date_accepts_dates_and_day_names() {
    assert_eq!(valid_date("24-12-2023".to_string()), Ok(()));
    assert_eq!(valid_date("mon".to_string()), Ok(()));
    assert_eq!(valid_date("MONDAY".to_string()), Ok(()));
    assert_eq!(valid_date("Fri".to_string()), Ok(()));
    assert_eq!(
        valid_date("someday".to_string()),
        Err("Valid options are formatted as such: dd-mm-yyyy".to_string())
    );
    assert_eq!(
        valid_date("2023-12-24".to_string()),
        Err("Valid options are formatted as such: dd-mm-yyyy".to_string())
    );
}

#[test]
fn add_builds_a_pending_task() {
    let mut db = store();
    let command = Add {
        todo: "buy milk".to_string(),
        priority: Some(Priority::High),
        start_date: Some("05-01-2024".to_string()),
        due_date: Some("fri".to_string()),
        tags: Some(vec!["shop".to_string(), "food".to_string()]),
    };
    assert_eq!(add(&mut db, &command, now()).map_err(|e| e.0), Ok(true));
    assert!(db.is_dirty());
    let expected = ToDo {
        recur: None,
        due: Some(Timestamp { day: MONDAY + 4, secs: 45_000, nano: 7 }),
        prio: Some(Priority::High),
        start: Timestamp { day: MONDAY + 4, secs: 45_000, nano: 7 },
        desc: "buy milk".to_string(),
        status: Status::Pending,
        tags: vec!["shop".to_string(), "food".to_string()],
    };
    assert!(db.todos().get(0).unwrap().same_as(&expected));
    assert_eq!(add(&mut db, &command, now()).map_err(|e| e.0), Ok(false));
    assert_eq!(db.todos().len(), 1);

    assert_eq!(add(&mut db, &plain("walk"), now()).map_err(|e| e.0), Ok(true));
    assert!(db.todos().get(1).unwrap().same_as(&ToDo::new("walk".to_string(), now())));
}

#[test]
fn add_refuses_a_date_it_cannot_read() {
    let mut db = store();
    let mut command = plain("x");
    command.start_date = Some("tomorrow".to_string());
    command.due_date = Some("never".to_string());
    assert_eq!(add(&mut db, &command, now()).map_err(|e| e.0), Err("tomorrow".to_string()));
    command.start_date = None;
    assert_eq!(add(&mut db, &command, now()).map_err(|e| e.0), Err("never".to_string()));
    assert_eq!(db.todos().len(), 0);
    assert!(!db.is_dirty());
}

#[test]
fn del_and_mark_report_a_missing_task() {
    let mut db = store();
    assert_eq!(add(&mut db, &plain("a"), now()).map_err(|e| e.0), Ok(true));
    assert_eq!(add(&mut db, &plain("b"), now()).map_err(|e| e.0), Ok(true));
    assert!(!mark(&mut db, Mark { todo_id: 2 }));
    assert!(mark(&mut db, Mark { todo_id: 1 }));
    assert_eq!(db.todos().get(1).unwrap().status, Status::Complete);
    assert_eq!(db.todos().get(0).unwrap().status, Status::Pending);
    assert!(!del(&mut db, Delete { todo_id: 2 }));
    assert!(del(&mut db, Delete { todo_id: 0 }));
    assert_eq!(db.todos().len(), 1);
    assert_eq!(db.todos().get(0).unwrap().desc, "b");
}

#[test]
fn modify_changes_what_is_named() {
    let mut db = store();
    let mut first = plain("a");
    first.due_date = Some("02-01-2024".to_string());
    first.priority = Some(Priority::Low);
    assert_eq!(add(&mut db, &first, now()).map_err(|e| e.0), Ok(true));
    let mods = Modify {
        todo_id: 0,
        desc: Some("b".to_string()),
        status: Some(Status::Complete),
        priority: Some(None),
        start_date: Some("tue".to_string()),
        due_date: Some(None),
        tags: Some(vec!["t".to_string()]),
    };
    assert_eq!(modify(&mut db, &mods, now()).map_err(|e| e.0), Ok(true));
    let expected = ToDo {
        recur: None,
        due: None,
        prio: None,
        start: Timestamp { day: MONDAY + 1, secs: 45_000, nano: 7 },
        desc: "b".to_string(),
        status: Status::Complete,
        tags: vec!["t".to_string()],
    };
    assert!(db.todos().get(0).unwrap().same_as(&expected));

    let nothing = Modify {
        todo_id: 0,
        desc: None,
        status: None,
        priority: None,
        start_date: None,
        due_date: None,
        tags: None,
    };
    assert_eq!(modify(&mut db, &nothing, now()).map_err(|e| e.0), Ok(true));
    assert!(db.todos().get(0).unwrap().same_as(&expected));

    let missing = Modify { todo_id: 5, ..nothing };
    assert_eq!(modify(&mut db, &missing, now()).map_err(|e| e.0), Ok(false));

    let bad = Modify {
        todo_id: 0,
        desc: Some("c".to_string()),
        status: None,
        priority: None,
        start_date: None,
        due_date: Some(Some("soon".to_string())),
        tags: None,
    };
    assert_eq!(modify(&mut db, &bad, now()).map_err(|e| e.0), Err("soon".to_string()));
    assert!(db.todos().get(0).unwrap().same_as(&expected));
}

fn listed_ids(db: &Database, command: &List) -> Vec<usize> {
    list(db, command).iter().map(|row| row.id).collect()
}

#[test]
fn list_shows_what_is_asked_for() {
    let mut db = store();
    let mut a = plain("a");
    a.tags = Some(vec!["home".to_string()]);
    let mut b = plain("b");
    b.tags = Some(vec!["work".to_string(), "late".to_string()]);
    let c = plain("c");
    for command in [&a, &b, &c] {
        assert_eq!(add(&mut db, command, now()).map_err(|e| e.0), Ok(true));
    }
    assert!(mark(&mut db, Mark { todo_id: 2 }));

    let all = List { show_pending: false, show_complete: false, filter_tags: None };
    assert_eq!(listed_ids(&db, &all), vec![0, 1, 2]);
    let pending = List { show_pending: true, show_complete: false, filter_tags: None };
    assert_eq!(listed_ids(&db, &pending), vec![0, 1]);
    let complete = List { show_pending: false, show_complete: true, filter_tags: None };
    assert_eq!(listed_ids(&db, &complete), vec![2]);
    let tagged = List {
        show_pending: false,
        show_complete: false,
        filter_tags: Some(vec!["late".to_string(), "none".to_string()]),
    };
    assert_eq!(listed_ids(&db, &tagged), vec![1]);
    let complete_or_home = List {
        show_pending: false,
        show_complete: true,
        filter_tags: Some(vec!["home".to_string()]),
    };
    assert_eq!(listed_ids(&db, &complete_or_home), vec![0, 2]);
    let no_tags = List { show_pending: false, show_complete: false, filter_tags: Some(vec![]) };
    assert_eq!(listed_ids(&db, &no_tags), Vec::<usize>::new());
    assert_eq!(list(&store(), &all).len(), 0);
}

#[test]
fn list_row_holds_the_texts_of_a_task() {
    let mut db = store();
    let command = Add {
        todo: "buy milk".to_string(),
        priority: Some(Priority::Medium),
        start_date: None,
        due_date: Some("09-02-2024".to_string()),
        tags: Some(vec!["shop".to_string()]),
    };
    assert_eq!(add(&mut db, &command, now()).map_err(|e| e.0), Ok(true));
    assert_eq!(add(&mut db, &plain("walk"), now()).map_err(|e| e.0), Ok(true));
    assert!(mark(&mut db, Mark { todo_id: 1 }));
    let mut saver = db.save(true).unwrap().unwrap();
    for _ in 0..3 {
        saver.advance(StepOutcome::Done);
    }
    assert!(db.saved(&saver));
    let rows = list(&db, &List { show_pending: false, show_complete: false, filter_tags: None });
    assert!(!db.is_dirty());
    assert_eq!(rows.len(), 2);
    assert_eq!(rows[0].id, 0);
    assert_eq!(rows[0].status, "x");
    assert_eq!(rows[0].desc, "buy milk");
    assert_eq!(rows[0].start, "01-01-2024");
    assert_eq!(rows[0].priority, "Medium");
    assert_eq!(rows[0].due_date, "09-02-2024");
    assert_eq!(rows[0].tags, vec!["shop".to_string()]);
    assert_eq!(rows[1].id, 1);
    assert_eq!(rows[1].status, "\u{2713}");
    assert_eq!(rows[1].priority, "None");
    assert_eq!(rows[1].due_date, "None");
    assert!(rows[1].tags.is_empty());
}

fn busy() -> StepOutcome {
    StepOutcome::Busy("in use".to_string())
}

#[test]
fn replacement_is_retried_a_bounded_number_of_times() {
    assert!(matches!(persist(false, 1, StepOutcome::Done), PersistAction::Done));
    assert!(matches!(persist(true, 1, StepOutcome::Done), PersistAction::Done));
    for attempt in 1..MAX_TRIES {
        match persist(false, attempt, busy()) {
            PersistAction::RetryAfter(pause) => assert!((50..150).contains(&pause)),
            _ => panic!("a busy file is tried again"),
        }
    }
    match persist(false, MAX_TRIES, busy()) {
        PersistAction::GiveUp(cause) => assert_eq!(cause, "in use"),
        _ => panic!("the last attempt is final"),
    }
    match persist(true, 1, busy()) {
        PersistAction::GiveUp(cause) => assert_eq!(cause, "in use"),
        _ => panic!("an atomic rename is tried once"),
    }
    match persist(false, 1, StepOutcome::Failed("disk full".to_string())) {
        PersistAction::GiveUp(cause) => assert_eq!(cause, "disk full"),
        _ => panic!("another failure is final"),
    }
    assert_eq!(MAX_TRIES, 10);
}

#[test]
fn pause_is_the_one_given() {
    assert!(matches!(persist_with_pause(false, 3, busy(), 77), PersistAction::RetryAfter(77)));
    assert!(matches!(persist_with_pause(false, 10, busy(), 77), PersistAction::GiveUp(_)));
    assert!(matches!(persist_with_pause(true, 3, busy(), 77), PersistAction::GiveUp(_)));
    assert!(matches!(
        persist_with_pause(false, 3, StepOutcome::Done, 77),
        PersistAction::Done
    ));
}

#[test]
fn save_creates_writes_then_replaces() {
    let mut saver = Saver::new(vec![1, 2, 3], true);
    assert!(matches!(saver.step(), SaveStep::CreateTemp));
    assert_eq!(saver.bytes(), &vec![1, 2, 3]);
    saver.advance(StepOutcome::Done);
    assert!(matches!(saver.step(), SaveStep::Write));
    saver.advance(StepOutcome::Done);
    assert!(matches!(saver.step(), SaveStep::Replace));
    assert!(!saver.is_finished());
    saver.advance(StepOutcome::Done);
    assert!(matches!(saver.step(), SaveStep::Finished));
    assert!(saver.is_finished());
    saver.advance(StepOutcome::Failed("late".to_string()));
    assert!(saver.is_finished());
    assert_eq!(saver.bytes(), &vec![1, 2, 3]);
}

#[test]
fn save_fails_at_the_step_that_failed() {
    let mut saver = Saver::new(vec![], false);
    saver.advance(StepOutcome::Failed("no space".to_string()));
    match saver.step() {
        SaveStep::Failed(SaveError::TempFile(cause)) => assert_eq!(cause, "no space"),
        other => panic!("unexpected step {:?}", other),
    }
    saver.advance(StepOutcome::Done);
    assert!(matches!(saver.step(), SaveStep::Failed(SaveError::TempFile(_))));

    let mut saver = Saver::new(vec![], false);
    saver.advance(StepOutcome::Done);
    saver.advance(StepOutcome::Busy("locked".to_string()));
    match saver.step() {
        SaveStep::Failed(SaveError::Write(cause)) => assert_eq!(cause, "locked"),
        other => panic!("unexpected step {:?}", other),
    }

    let mut saver = Saver::new(vec![], false);
    saver.advance(StepOutcome::Done);
    saver.advance(StepOutcome::Done);
    saver.advance(StepOutcome::Failed("read-only".to_string()));
    match saver.step() {
        SaveStep::Failed(SaveError::Replace(cause)) => assert_eq!(cause, "read-only"),
        other => panic!("unexpected step {:?}", other),
    }
}

#[test]
fn busy_file_is_tried_ten_times() {
    let mut saver = Saver::new(vec![7], false);
    saver.advance(StepOutcome::Done);
    saver.advance(StepOutcome::Done);
    let mut replacements = 0;
    let mut pauses = 0;
    loop {
        match saver.step() {
            SaveStep::Replace => {
                replacements += 1;
                saver.advance(busy());
            }
            SaveStep::Pause(ms) => {
                assert!((50..150).contains(ms));
                pauses += 1;
                saver.advance(StepOutcome::Done);
            }
            SaveStep::Failed(SaveError::Replace(cause)) => {
                assert_eq!(cause, "in use");
                break;
            }
            other => panic!("unexpected step {:?}", other),
        }
    }
    assert_eq!(replacements, 10);
    assert_eq!(pauses, 9);
}

#[test]
fn busy_file_is_replaced_once_it_is_free() {
    let mut saver = Saver::new(vec![7], false);
    saver.advance(StepOutcome::Done);
    saver.advance(StepOutcome::Done);
    saver.advance(busy());
    assert!(matches!(saver.step(), SaveStep::Pause(_)));
    saver.advance_with_pause(StepOutcome::Failed("woken early".to_string()), 0);
    assert!(matches!(saver.step(), SaveStep::Replace));
    saver.advance_with_pause(busy(), 99);
    assert!(matches!(saver.step(), SaveStep::Pause(99)));
    saver.advance(StepOutcome::Done);
    saver.advance(StepOutcome::Done);
    assert!(saver.is_finished());
}

#[test]
fn atomic_rename_is_tried_once() {
    let mut saver = Saver::new(vec![7], true);
    saver.advance(StepOutcome::Done);
    saver.advance(StepOutcome::Done);
    saver.advance(busy());
    assert!(matches!(saver.step(), SaveStep::Failed(SaveError::Replace(_))));
}

#[test]
fn named_directory_comes_first() {
    match clido_dir(Some("/tmp/x".to_string()), Some("/home/u/.local/share".to_string())) {
        Ok(DataDir::Given(dir)) => assert_eq!(dir, "/tmp/x"),
        other => panic!("unexpected choice {:?}", other),
    }
    match clido_dir(Some("/tmp/x".to_string()), None) {
        Ok(DataDir::Given(dir)) => assert_eq!(dir, "/tmp/x"),
        other => panic!("unexpected choice {:?}", other),
    }
    match clido_dir(None, Some("/home/u/.local/share".to_string())) {
        Ok(DataDir::InLocalData(dir)) => assert_eq!(dir, "/home/u/.local/share"),
        other => panic!("unexpected choice {:?}", other),
    }
    assert_eq!(
        clido_dir(None, None).unwrap_err(),
        "Could not find data directory. Please set _CLIDO_DIR."
    );
    assert_eq!(DIR_VARIABLE, "_CLIDO_DIR");
    assert_eq!(DIR_FOLDER, "clido");
    assert_eq!(DB_FILENAME, "clido.db");
}
