use readlater_sync::config::{
    init_config_param, Config2, ConfigParam, ConfigParamForce, ConfigRechargement, MajFin,
};
use readlater_sync::page::{classify_body, classify_reply, FetchFailure, PageOutcome, ServerReply};
use readlater_sync::store::Store;
use readlater_sync::sync::{abs_seconds, begin_pass, seconds_of_clock, Fin, Pass, Suite, SyncError};

fn config(sauvegarde: u64, temporisation: u64) -> Config2 {
    Config2 {
        url: "https://example.invalid/v3/get".to_string(),
        consumer_key: "key".to_string(),
        access_token: "token".to_string(),
        repertoire: "/tmp/data".to_string(),
        temporisation,
        config_log: "log.yaml".to_string(),
        sauvegarde,
        rechargement: ConfigRechargement {
            date_debut: String::new(),
            dates: Vec::new(),
            nb_jours: 0,
            nb_parcourt: 0,
        },
        mise_a_jour_jusqua_fin: MajFin { nb_pages: 0 },
    }
}

fn cursor(date: u64, offset: i64, etat: &str) -> ConfigParam {
    ConfigParam { date_dernier_traiment: date, offset, etat: etat.to_string() }
}

fn unforced() -> ConfigParamForce {
    ConfigParamForce { date_opt: None, nb_count_max: 0, force: false }
}

fn forced(date: i64, pages: i32) -> ConfigParamForce {
    ConfigParamForce { date_opt: Some(date), nb_count_max: pages, force: true }
}

fn items(first: u32, n: u32, since: i64) -> PageOutcome {
    let mut list = String::new();
    for i in first..first + n {
        if !list.is_empty() {
            list.push(',');
        }
        list.push_str(&format!(r#""id{}": {{"time_added": "{}"}}"#, i, 1000 + i));
    }
    classify_body(&format!(r#"{{"since": {}, "list": {{{}}}}}"#, since, list))
}

fn end(since: i64) -> PageOutcome {
    classify_body(&format!(r#"{{"since": {}, "list": {{}}}}"#, since))
}

const NOW: u64 = 1_700_000_500;

#[test]
fn absent_cursor_has_zero_values() {
    let c = init_config_param(None);
    assert_eq!(c.date_dernier_traiment, 0);
    assert_eq!(c.offset, 0);
    assert_eq!(c.etat, "");
    let kept = init_config_param(Some(cursor(5, 6, "miseAJour")));
    assert_eq!((kept.date_dernier_traiment, kept.offset, kept.etat.as_str()), (5, 6, "miseAJour"));
}

#[test]
fn first_run_starts_without_watermark() {
    let pass = begin_pass(&config(0, 0), unforced(), None, init_config_param(None)).unwrap();
    assert!(pass.initialisation);
    assert_eq!(pass.offset, 0);
    assert_eq!(pass.store.len(), 0);
    assert_eq!(pass.store.etat, "initialisation");
    assert_eq!(pass.nb_sauvegarde, 10);
    assert_eq!(pass.nb_appel_max, 0);
    let p = pass.next_request(&config(0, 0));
    assert_eq!(p.since, None);
    assert_eq!(p.offset, 0);
    assert_eq!(p.consumer_key, "key");
    assert_eq!(p.access_token, "token");
    assert_eq!(p.count, 30);
}

#[test]
fn initialising_cursor_starts_at_offset_zero() {
    let pass = begin_pass(
        &config(3, 0),
        unforced(),
        Some(Store::new()),
        cursor(1_700_000_000, 40, "initialisation"),
    )
    .unwrap();
    assert!(pass.initialisation);
    assert_eq!(pass.offset, 0);
    assert_eq!(pass.nb_sauvegarde, 3);
    assert_eq!(pass.next_request(&config(3, 0)).since, None);
    assert_eq!(pass.cursor.offset, 40);
}

#[test]
fn unforced_pass_resumes_from_the_cursor() {
    let pass = begin_pass(
        &config(0, 250),
        unforced(),
        Some(Store::new()),
        cursor(1_700_000_000, 60, "miseAJour"),
    )
    .unwrap();
    assert!(!pass.initialisation);
    assert_eq!(pass.offset, 60);
    assert_eq!(pass.since, 1_700_000_000);
    assert_eq!(pass.temporisation, 250);
    assert_eq!(pass.cursor.etat, "miseAJour");
    let p = pass.next_request(&config(0, 250));
    assert_eq!(p.since, Some(1_700_000_000));
    assert_eq!(p.offset, 60);
}

#[test]
fn unforced_pass_with_zero_watermark_is_refused() {
    let r = begin_pass(&config(0, 0), unforced(), Some(Store::new()), cursor(0, 0, "miseAJour"));
    assert_eq!(r.err(), Some(SyncError::InvalidTimestamp(0)));
    let r = begin_pass(&config(0, 0), unforced(), Some(Store::new()), cursor(0, 0, ""));
    assert_eq!(r.err(), Some(SyncError::InvalidTimestamp(0)));
}

#[test]
fn unforced_pass_with_future_watermark_is_refused() {
    let r = begin_pass(
        &config(0, 0),
        unforced(),
        Some(Store::new()),
        cursor(4_102_444_800, 0, "miseAJour"),
    );
    assert_eq!(r.err(), Some(SyncError::InvalidTimestamp(4_102_444_800)));
}

#[test]
fn negative_cursor_offset_is_refused() {
    let r = begin_pass(
        &config(0, 0),
        unforced(),
        Some(Store::new()),
        cursor(1_700_000_000, -1, "miseAJour"),
    );
    assert_eq!(r.err(), Some(SyncError::NegativeOffset(-1)));
}

#[test]
fn forced_pass_uses_its_own_watermark() {
    let pass = begin_pass(
        &config(0, 0),
        forced(1_704_067_200, 2),
        Some(Store::new()),
        cursor(1_600_000_000, 90, "miseAJour"),
    )
    .unwrap();
    assert!(!pass.initialisation);
    assert_eq!(pass.since, 1_704_067_200);
    assert_eq!(pass.offset, 0);
    assert_eq!(pass.cursor.etat, "specifique");
    assert_eq!(pass.nb_appel_max, 2);
    let p = pass.next_request(&config(0, 0));
    assert_eq!(p.since, Some(1_704_067_200));
    assert_eq!(p.offset, 0);
}

#[test]
fn forced_pass_without_date_is_refused() {
    let f = ConfigParamForce { date_opt: None, nb_count_max: 2, force: true };
    let r = begin_pass(&config(0, 0), f, Some(Store::new()), cursor(1_600_000_000, 0, "miseAJour"));
    assert_eq!(r.err(), Some(SyncError::MissingDate));
}

#[test]
fn forced_pass_with_absurd_date_is_refused() {
    let r = begin_pass(
        &config(0, 0),
        forced(50, 2),
        Some(Store::new()),
        cursor(1_600_000_000, 0, "miseAJour"),
    );
    assert_eq!(r.err(), Some(SyncError::InvalidTimestamp(50)));
    let r = begin_pass(
        &config(0, 0),
        forced(4_102_444_800, 2),
        Some(Store::new()),
        cursor(1_600_000_000, 0, "miseAJour"),
    );
    assert_eq!(r.err(), Some(SyncError::InvalidTimestamp(4_102_444_800)));
}

#[test]
fn magnitude_of_dates() {
    assert_eq!(abs_seconds(0), 0);
    assert_eq!(abs_seconds(1_704_067_200), 1_704_067_200);
    assert_eq!(abs_seconds(-86_400), 86_400);
    assert_eq!(abs_seconds(i64::MIN), 9_223_372_036_854_775_808);
    assert_eq!(abs_seconds(i64::MAX), 9_223_372_036_854_775_807);
}

#[test]
fn clock_readings_in_seconds() {
    assert_eq!(seconds_of_clock(1_700_000_500_999), 1_700_000_500);
    assert_eq!(seconds_of_clock(999), 0);
    assert_eq!(seconds_of_clock(0), 0);
    assert_eq!(seconds_of_clock(-1), 0);
}

#[test]
fn offset_advances_by_the_size_of_each_page() {
    let mut pass = begin_pass(
        &config(0, 0),
        unforced(),
        Some(Store::new()),
        cursor(1_700_000_000, 60, "miseAJour"),
    )
    .unwrap();
    pass.on_page_at(items(0, 5, 0), NOW).unwrap();
    assert_eq!(pass.offset, 65);
    pass.on_page_at(items(5, 30, 0), NOW).unwrap();
    assert_eq!(pass.offset, 95);
    assert_eq!(pass.count, 2);
    assert_eq!(pass.total_ajout, 35);
    assert_eq!(pass.total_modifie, 0);
    pass.on_page_at(items(0, 3, 0), NOW).unwrap();
    assert_eq!(pass.offset, 98);
    assert_eq!(pass.total_ajout, 35);
    assert_eq!(pass.total_modifie, 3);
    assert_eq!(pass.next_request(&config(0, 0)).offset, 98);
}

#[test]
fn cursor_offset_follows_only_in_specific_state() {
    let mut pass = begin_pass(
        &config(0, 0),
        unforced(),
        Some(Store::new()),
        cursor(1_700_000_000, 60, "miseAJour"),
    )
    .unwrap();
    pass.on_page_at(items(0, 5, 0), NOW).unwrap();
    assert_eq!(pass.cursor.offset, 60);

    let mut pass = begin_pass(
        &config(0, 0),
        forced(1_700_000_000, 0),
        Some(Store::new()),
        cursor(1_700_000_000, 0, "specifique"),
    )
    .unwrap();
    pass.on_page_at(items(0, 5, 0), NOW).unwrap();
    assert_eq!(pass.cursor.offset, 5);
    pass.on_page_at(items(5, 5, 0), NOW).unwrap();
    assert_eq!(pass.cursor.offset, 10);
}

#[test]
fn candidate_watermark_is_the_last_positive_one() {
    let mut pass = begin_pass(&config(0, 0), unforced(), None, init_config_param(None)).unwrap();
    pass.on_page_at(items(0, 2, 1_700_000_100), NOW).unwrap();
    assert_eq!(pass.dernier_since, 1_700_000_100);
    pass.on_page_at(items(2, 2, 0), NOW).unwrap();
    assert_eq!(pass.dernier_since, 1_700_000_100);
    pass.on_page_at(items(4, 2, -7), NOW).unwrap();
    assert_eq!(pass.dernier_since, 1_700_000_100);
    pass.on_page_at(items(6, 2, 1_700_000_200), NOW).unwrap();
    assert_eq!(pass.dernier_since, 1_700_000_200);
}

#[test]
fn forced_pass_commits_the_servers_watermark_and_resets_the_offset() {
    let mut pass = begin_pass(
        &config(0, 0),
        forced(1_700_000_000, 0),
        Some(Store::new()),
        cursor(1_700_000_000, 0, "specifique"),
    )
    .unwrap();
    pass.on_page_at(items(0, 5, 1_700_000_300), NOW).unwrap();
    assert_eq!(pass.cursor.offset, 5);
    let r = pass.on_page_at(end(1_700_000_400), NOW);
    assert_eq!(r, Ok(Suite::Stop(Fin::EndOfEpoch)));
    assert_eq!(pass.cursor.offset, 0);
    assert_eq!(pass.cursor.date_dernier_traiment, 1_700_000_300);
    assert_eq!(pass.cursor.etat, "specifique");
    assert_eq!(pass.offset, 5);
}

#[test]
fn unforced_pass_commits_the_time_of_the_clock() {
    let mut pass = begin_pass(
        &config(0, 0),
        unforced(),
        Some(Store::new()),
        cursor(1_700_000_000, 60, "miseAJour"),
    )
    .unwrap();
    pass.on_page_at(items(0, 5, 1_700_000_300), NOW).unwrap();
    let r = pass.on_page_at(PageOutcome::End, NOW);
    assert_eq!(r, Ok(Suite::Stop(Fin::EndOfEpoch)));
    assert_eq!(pass.cursor.date_dernier_traiment, NOW);
    assert_eq!(pass.cursor.offset, 0);
    assert_eq!(pass.cursor.etat, "miseAJour");
}

#[test]
fn end_without_candidate_leaves_the_cursor() {
    let mut pass = begin_pass(
        &config(0, 0),
        unforced(),
        Some(Store::new()),
        cursor(1_700_000_000, 60, "miseAJour"),
    )
    .unwrap();
    let r = pass.on_page_at(end(1_700_000_400), NOW);
    assert_eq!(r, Ok(Suite::Stop(Fin::EndOfEpoch)));
    assert_eq!(pass.cursor.date_dernier_traiment, 1_700_000_000);
    assert_eq!(pass.cursor.offset, 60);
}

#[test]
fn invalid_candidate_is_fatal_and_changes_nothing() {
    let mut pass = begin_pass(
        &config(0, 0),
        forced(1_700_000_000, 0),
        Some(Store::new()),
        cursor(1_700_000_000, 0, "specifique"),
    )
    .unwrap();
    pass.on_page_at(items(0, 5, 50), NOW).unwrap();
    let r = pass.on_page_at(PageOutcome::End, NOW);
    assert_eq!(r, Err(SyncError::InvalidTimestamp(50)));
    assert_eq!(pass.cursor.date_dernier_traiment, 1_700_000_000);
    assert_eq!(pass.cursor.offset, 5);
}

#[test]
fn invalid_clock_is_fatal_for_an_unforced_pass_only() {
    let mut pass = begin_pass(
        &config(0, 0),
        unforced(),
        Some(Store::new()),
        cursor(1_700_000_000, 60, "miseAJour"),
    )
    .unwrap();
    pass.on_page_at(items(0, 5, 1_700_000_300), NOW).unwrap();
    let r = pass.on_page_at(PageOutcome::End, 4_102_444_800);
    assert_eq!(r, Err(SyncError::InvalidTimestamp(4_102_444_800)));
    assert_eq!(pass.cursor.date_dernier_traiment, 1_700_000_000);
    assert_eq!(pass.cursor.offset, 60);

    let mut pass = begin_pass(
        &config(0, 0),
        forced(1_700_000_000, 0),
        Some(Store::new()),
        cursor(1_700_000_000, 0, "specifique"),
    )
    .unwrap();
    pass.on_page_at(items(0, 5, 1_700_000_300), NOW).unwrap();
    let r = pass.on_page_at(PageOutcome::End, 4_102_444_800);
    assert_eq!(r, Ok(Suite::Stop(Fin::EndOfEpoch)));
    assert_eq!(pass.cursor.date_dernier_traiment, 1_700_000_300);
}

#[test]
fn checkpoint_is_due_every_save_interval_pages() {
    let mut pass = begin_pass(&config(2, 75), unforced(), None, init_config_param(None)).unwrap();
    let mut due = Vec::new();
    for i in 0..6 {
        match pass.on_page_at(items(i * 3, 3, 0), NOW).unwrap() {
            Suite::Continue { checkpoint, pause_ms } => {
                assert_eq!(pause_ms, 75);
                due.push(checkpoint);
            }
            other => panic!("{:?}", other),
        }
    }
    assert_eq!(due, vec![false, true, false, true, false, true]);
    assert_eq!(pass.store.len(), 18);
}

#[test]
fn default_save_interval_is_ten_pages() {
    let mut pass = begin_pass(&config(0, 0), unforced(), None, init_config_param(None)).unwrap();
    for i in 1..=20u32 {
        let r = pass.on_page_at(items(i, 1, 0), NOW).unwrap();
        assert_eq!(r, Suite::Continue { checkpoint: i % 10 == 0, pause_ms: 0 });
    }
}

#[test]
fn page_limit_stops_the_pass() {
    let mut pass = begin_pass(
        &config(1, 0),
        forced(1_700_000_000, 2),
        Some(Store::new()),
        cursor(1_700_000_000, 0, "specifique"),
    )
    .unwrap();
    let r = pass.on_page_at(items(0, 5, 1_700_000_300), NOW);
    assert_eq!(r, Ok(Suite::Continue { checkpoint: true, pause_ms: 0 }));
    let r = pass.on_page_at(items(5, 5, 1_700_000_300), NOW);
    assert_eq!(r, Ok(Suite::Stop(Fin::PageLimit)));
    assert_eq!(pass.count, 2);
    assert_eq!(pass.cursor.offset, 10);
    assert_eq!(pass.cursor.date_dernier_traiment, 1_700_000_000);
}

#[test]
fn page_limit_holds_for_an_unforced_pass_too() {
    let f = ConfigParamForce { date_opt: None, nb_count_max: 1, force: false };
    let mut pass = begin_pass(&config(0, 0), f, None, init_config_param(None)).unwrap();
    assert_eq!(pass.on_page_at(items(0, 5, 0), NOW), Ok(Suite::Stop(Fin::PageLimit)));
}

#[test]
fn failure_stops_the_pass_and_changes_nothing() {
    let mut pass = begin_pass(
        &config(0, 0),
        unforced(),
        Some(Store::new()),
        cursor(1_700_000_000, 60, "miseAJour"),
    )
    .unwrap();
    pass.on_page_at(items(0, 5, 1_700_000_300), NOW).unwrap();
    let r = pass.on_page_at(PageOutcome::Failure(FetchFailure::Transport), NOW);
    assert_eq!(r, Ok(Suite::Stop(Fin::Failure(FetchFailure::Transport))));
    assert_eq!(pass.store.len(), 5);
    assert_eq!(pass.offset, 65);
    assert_eq!(pass.cursor.date_dernier_traiment, 1_700_000_000);
    assert_eq!(pass.cursor.offset, 60);
    assert_eq!(pass.dernier_since, 1_700_000_300);
}

#[test]
fn not_found_on_the_first_call_leaves_the_store() {
    let mut store = Store::new();
    store.etat = "miseAJour".to_string();
    let mut pass =
        begin_pass(&config(0, 0), unforced(), Some(store), cursor(1_700_000_000, 0, "miseAJour"))
            .unwrap();
    let outcome = classify_reply(&ServerReply::Reply { status: 404, body: Some(String::new()) });
    let r = pass.on_page_at(outcome, NOW);
    assert_eq!(r, Ok(Suite::Stop(Fin::Failure(FetchFailure::NotFound))));
    assert_eq!(pass.store.len(), 0);
    assert_eq!(pass.store.etat, "miseAJour");
    assert_eq!(pass.count, 0);
    assert_eq!(pass.offset, 0);
    assert_eq!(pass.cursor.date_dernier_traiment, 1_700_000_000);
}

#[test]
fn offset_that_would_not_fit_is_refused() {
    let mut pass = begin_pass(
        &config(0, 0),
        unforced(),
        Some(Store::new()),
        cursor(1_700_000_000, i64::MAX - 2, "miseAJour"),
    )
    .unwrap();
    let r = pass.on_page_at(items(0, 3, 0), NOW);
    assert_eq!(r, Err(SyncError::OffsetOverflow));
    assert_eq!(pass.store.len(), 0);
    assert_eq!(pass.offset, (i64::MAX - 2) as u64);
    let r = pass.on_page_at(items(0, 2, 0), NOW);
    assert_eq!(r, Ok(Suite::Continue { checkpoint: false, pause_ms: 0 }));
    assert_eq!(pass.offset, i64::MAX as u64);
}

fn run_two_pages_then_end(force: ConfigParamForce, start: ConfigParam) -> (Pass, Vec<Suite>) {
    let mut pass = begin_pass(&config(2, 0), force, None, start).unwrap();
    let mut steps = Vec::new();
    steps.push(pass.on_page_at(items(0, 5, 0), NOW).unwrap());
    steps.push(pass.on_page_at(items(5, 5, 0), NOW).unwrap());
    steps.push(pass.on_page_at(end(1000), NOW).unwrap());
    (pass, steps)
}

#[test]
fn two_pages_then_empty_list_on_an_empty_store() {
    let (pass, steps) = run_two_pages_then_end(unforced(), init_config_param(None));
    assert_eq!(pass.store.len(), 10);
    assert_eq!(
        steps,
        vec![
            Suite::Continue { checkpoint: false, pause_ms: 0 },
            Suite::Continue { checkpoint: true, pause_ms: 0 },
            Suite::Stop(Fin::EndOfEpoch),
        ]
    );
    assert_eq!(pass.offset, 10);
    assert_eq!(pass.count, 2);
}

#[test]
fn two_pages_with_watermark_then_end_unforced() {
    let mut pass = begin_pass(
        &config(2, 0),
        unforced(),
        Some(Store::new()),
        cursor(1_700_000_000, 0, "specifique"),
    )
    .unwrap();
    pass.on_page_at(items(0, 5, 1000), NOW).unwrap();
    pass.on_page_at(items(5, 5, 1000), NOW).unwrap();
    assert_eq!(pass.cursor.offset, 10);
    assert_eq!(pass.store.len(), 10);
    let r = pass.on_page_at(end(1000), NOW);
    assert_eq!(r, Ok(Suite::Stop(Fin::EndOfEpoch)));
    assert_eq!(pass.cursor.date_dernier_traiment, NOW);
    assert_eq!(pass.cursor.offset, 0);
}

#[test]
fn two_pages_with_watermark_then_end_forced() {
    let mut pass = begin_pass(
        &config(2, 0),
        forced(1_700_000_000, 0),
        Some(Store::new()),
        cursor(1_700_000_000, 0, "specifique"),
    )
    .unwrap();
    let a = pass.on_page_at(items(0, 5, 1000), NOW).unwrap();
    let b = pass.on_page_at(items(5, 5, 1000), NOW).unwrap();
    assert_eq!(a, Suite::Continue { checkpoint: false, pause_ms: 0 });
    assert_eq!(b, Suite::Continue { checkpoint: true, pause_ms: 0 });
    let r = pass.on_page_at(end(1000), NOW);
    assert_eq!(r, Ok(Suite::Stop(Fin::EndOfEpoch)));
    assert_eq!(pass.store.len(), 10);
    assert_eq!(pass.cursor.date_dernier_traiment, 1000);
    assert_eq!(pass.cursor.offset, 0);
}

#[test]
fn empty_items_count_as_the_end() {
    let mut pass = begin_pass(
        &config(0, 0),
        forced(1_700_000_000, 0),
        Some(Store::new()),
        cursor(1_700_000_000, 0, "specifique"),
    )
    .unwrap();
    pass.on_page_at(items(0, 1, 1_700_000_300), NOW).unwrap();
    let r = pass.on_page_at(PageOutcome::Items(serde_json::Map::new(), 1_700_000_999), NOW);
    assert_eq!(r, Ok(Suite::Stop(Fin::EndOfEpoch)));
    assert_eq!(pass.cursor.date_dernier_traiment, 1_700_000_300);
    assert_eq!(pass.count, 1);
}

#[test]
fn on_page_reads_the_clock() {
    let mut pass = begin_pass(
        &config(0, 0),
        unforced(),
        Some(Store::new()),
        cursor(1_700_000_000, 60, "miseAJour"),
    )
    .unwrap();
    pass.on_page(items(0, 5, 1_700_000_300)).unwrap();
    assert_eq!(pass.offset, 65);
    let before = std::time::SystemTime::now()
        .duration_since(std::time::UNIX_EPOCH)
        .unwrap()
        .as_secs();
    let r = pass.on_page(PageOutcome::End);
    let after = std::time::SystemTime::now()
        .duration_since(std::time::UNIX_EPOCH)
        .unwrap()
        .as_secs();
    let seen = match r {
        Ok(Suite::Stop(Fin::EndOfEpoch)) => {
            assert_eq!(pass.cursor.offset, 0);
            pass.cursor.date_dernier_traiment
        }
        Err(SyncError::InvalidTimestamp(t)) => {
            assert!(t > 1_764_601_526);
            assert_eq!(pass.cursor.date_dernier_traiment, 1_700_000_000);
            t
        }
        other => panic!("{:?}", other),
    };
    assert!(before <= seen && seen <= after, "{} {} {}", before, seen, after);
}
