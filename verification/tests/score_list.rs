use shmup_core::scores::Scores;

fn entry(n: i32) -> (i32, String, String) {
    (n, format!("P{}", n), String::from("00:10"))
}

#[test]
fn scores_sort_highest_first() {
    let mut s = Scores::new();
    s.add_score(10, String::from("A"), String::from("00:01"));
    s.add_score(30, String::from("B"), String::from("00:02"));
    s.add_score(20, String::from("C"), String::from("00:03"));
    let rows = s.get_scores();
    assert_eq!(rows.len(), 3);
    assert_eq!(rows[0].0, 30);
    assert_eq!(rows[1].0, 20);
    assert_eq!(rows[2].0, 10);
    assert_eq!(rows[0].1, "B");
}

#[test]
fn score_list_caps_at_ten_dropping_the_lowest() {
    let mut s = Scores::new();
    for n in 1..=12 {
        let e = entry(n);
        s.add_score(e.0, e.1, e.2);
    }
    let rows = s.get_scores();
    assert_eq!(rows.len(), 10);
    assert_eq!(rows[0].0, 12);
    assert_eq!(rows[9].0, 3);
}

#[test]
fn equal_scores_keep_arrival_order() {
    let mut s = Scores::new();
    s.add_score(5, String::from("FIRST"), String::from("00:01"));
    s.add_score(5, String::from("SECOND"), String::from("00:02"));
    s.add_score(5, String::from("THIRD"), String::from("00:03"));
    let rows = s.get_scores();
    assert_eq!(rows[0].1, "FIRST");
    assert_eq!(rows[1].1, "SECOND");
    assert_eq!(rows[2].1, "THIRD");
}

#[test]
fn a_low_score_lands_at_the_bottom() {
    let mut s = Scores::new();
    s.add_score(100, String::from("TOP"), String::from("01:00"));
    s.add_score(1, String::from("LOW"), String::from("00:05"));
    let rows = s.get_scores();
    assert_eq!(rows[1].0, 1);
    assert_eq!(rows[1].1, "LOW");
}

#[test]
fn stored_rows_round_trip_through_reloading() {
    // What an external store writes out is re-loadable into an equivalent
    // ordered list by replaying the rows in order.
    let mut s = Scores::new();
    s.add_score(50, String::from("A"), String::from("00:50"));
    s.add_score(70, String::from("B"), String::from("01:10"));
    s.add_score(60, String::from("C"), String::from("01:00"));
    let saved: Vec<(i32, String, String)> = s.get_scores().clone();

    let mut reloaded = Scores::new();
    for (n, name, time) in saved.iter() {
        reloaded.add_score(*n, name.clone(), time.clone());
    }
    assert_eq!(reloaded.get_scores(), s.get_scores());
}
