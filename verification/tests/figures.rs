use vaxbot::country::{Country, Entry};
use vaxbot::stats::{percent_of, VaccedCount, DIFF_LIMIT};

#[test]
fn populations_are_fixed() {
    assert_eq!(Country::UK.population(), 66800000);
    assert_eq!(Country::CAN.population(), 37590000);
}

#[test]
fn addresses_are_fixed() {
    assert_eq!(Country::UK.base_url(), "https://api.coronavirus.data.gov.uk/v2/data");
    assert_eq!(Country::CAN.base_url(), "https://api.covid19tracker.ca/summary");
}

#[test]
fn uk_query_repeats_the_metric_key_in_order() {
    assert_eq!(
        Country::UK.query(),
        vec![
            ("areaType", "overview"),
            ("metric", "cumPeopleVaccinatedFirstDoseByPublishDate"),
            ("metric", "cumPeopleVaccinatedCompleteByPublishDate"),
            ("metric", "newPeopleVaccinatedFirstDoseByPublishDate"),
            ("metric", "newPeopleVaccinatedCompleteByPublishDate"),
        ]
    );
}

#[test]
fn canada_query_is_empty() {
    assert!(Country::CAN.query().is_empty());
}

#[test]
fn uk_paths_lead_into_the_first_record() {
    assert_eq!(
        Country::UK.path(Entry::Doses),
        "body.0.cumPeopleVaccinatedFirstDoseByPublishDate"
    );
    assert_eq!(
        Country::UK.path(Entry::DosesChange),
        "body.0.newPeopleVaccinatedFirstDoseByPublishDate"
    );
    assert_eq!(
        Country::UK.path(Entry::Complete),
        "body.0.cumPeopleVaccinatedCompleteByPublishDate"
    );
    assert_eq!(
        Country::UK.path(Entry::CompleteChange),
        "body.0.newPeopleVaccinatedCompleteByPublishDate"
    );
    assert_eq!(Country::UK.path(Entry::Date), "body.0.date");
}

#[test]
fn uk_reads_the_metrics_that_it_asks_for() {
    let asked: Vec<&str> = Country::UK.query().iter().filter(|p| p.0 == "metric").map(|p| p.1).collect();
    for entry in [Entry::Doses, Entry::DosesChange, Entry::Complete, Entry::CompleteChange] {
        let path = Country::UK.path(entry);
        let key = path.strip_prefix("body.0.").unwrap();
        assert!(asked.contains(&key));
    }
    assert_eq!(asked.len(), 4);
}

#[test]
fn canada_paths_lead_into_the_first_record() {
    assert_eq!(Country::CAN.path(Entry::Doses), "data.0.total_vaccinations");
    assert_eq!(Country::CAN.path(Entry::DosesChange), "data.0.change_vaccinations");
    assert_eq!(Country::CAN.path(Entry::Complete), "data.0.total_vaccinated");
    assert_eq!(Country::CAN.path(Entry::CompleteChange), "data.0.change_vaccinated");
    assert_eq!(Country::CAN.path(Entry::Date), "data.0.latest_date");
}

#[test]
fn flags_are_fixed() {
    assert_eq!(Country::UK.flag(), "🇬🇧");
    assert_eq!(Country::CAN.flag(), "🇨🇦");
}

#[test]
fn share_is_in_hundredths_of_a_percent() {
    assert_eq!(percent_of(30000000, 66800000), 4491);
    assert_eq!(percent_of(20000000, 66800000), 2994);
    assert_eq!(percent_of(66800000, 66800000), 10000);
    assert_eq!(percent_of(0, 66800000), 0);
    assert_eq!(percent_of(6000000, 37590000), 1596);
    assert_eq!(percent_of(1, 1), 10000);
    assert_eq!(percent_of(4294967295, 1), 42949672950000);
}

#[test]
fn share_rounds_to_the_nearest_hundredth() {
    assert_eq!(percent_of(3339, 66800000), 0);
    assert_eq!(percent_of(3340, 66800000), 1);
    assert_eq!(percent_of(3341, 66800000), 1);
    assert_eq!(percent_of(10019, 66800000), 1);
    assert_eq!(percent_of(10020, 66800000), 2);
    assert_eq!(percent_of(1, 3), 3333);
    assert_eq!(percent_of(2, 3), 6667);
    assert_eq!(percent_of(-3339, 66800000), 0);
    assert_eq!(percent_of(-3340, 66800000), -1);
    assert_eq!(percent_of(-2, 3), -6667);
}

#[test]
fn share_agrees_with_division_in_floating_point() {
    let people = 66800000u32;
    for count in [0i64, 1, 999, 12345, 108607, 338565, 26073284, 30000000, 39585665, 66800000] {
        let share = count as f64 * 100.0 / people as f64;
        let written = format!("{:.2}", share);
        let hundredths = percent_of(count, people);
        assert_eq!(written, format!("{}.{:02}", hundredths / 100, hundredths % 100));
    }
}

#[test]
fn share_differs_from_floating_point_at_ties_only() {
    for people in [66800000u32, 37590000u32] {
        let mut count: i64 = 0;
        while count <= 70000000 {
            let tie = (count * 20000) % (2 * people as i64) == people as i64;
            if !tie {
                let share = count as f64 * (100 as f64 / people as f64);
                let hundredths = percent_of(count, people);
                assert_eq!(
                    format!("{:.2}", share),
                    format!("{}.{:02}", hundredths / 100, hundredths % 100)
                );
            }
            count += 1669;
        }
    }
    assert_eq!(percent_of(3340 * 3, 66800000), 2);
    assert_eq!(percent_of(3340 * 5, 66800000), 3);
}

#[test]
fn share_never_falls_as_the_count_grows() {
    let people = 37590000u32;
    let mut last = percent_of(-20000, people);
    let mut count = -20000i64;
    while count <= 20000 {
        let share = percent_of(count, people);
        assert!(share >= last);
        last = share;
        count += 1;
    }
    assert!(percent_of(DIFF_LIMIT, people) >= percent_of(DIFF_LIMIT - 1, people));
    assert!(percent_of(-DIFF_LIMIT, people) <= percent_of(1 - DIFF_LIMIT, people));
}

#[test]
fn share_is_computed_up_to_the_limit() {
    assert_eq!(DIFF_LIMIT, 8589934590);
    assert_eq!(percent_of(DIFF_LIMIT, 1), 85899345900000);
    assert_eq!(percent_of(-DIFF_LIMIT, 1), -85899345900000);
    assert_eq!(percent_of(DIFF_LIMIT, u32::MAX), 20000);
}

#[test]
fn new_puts_the_shares_beside_the_figures() {
    assert_eq!(
        VaccedCount::new(30000000, 1000, 66800000),
        VaccedCount { count: 30000000, count_prcnt: 4491, diff: 1000, diff_prcnt: 0 }
    );
    assert_eq!(
        VaccedCount::new(39585665, 108607, 66800000),
        VaccedCount { count: 39585665, count_prcnt: 5926, diff: 108607, diff_prcnt: 16 }
    );
    assert_eq!(
        VaccedCount::new(0, -668000, 66800000),
        VaccedCount { count: 0, count_prcnt: 0, diff: -668000, diff_prcnt: -100 }
    );
    assert_eq!(
        VaccedCount::new(u32::MAX, 0, 1),
        VaccedCount { count: 4294967295, count_prcnt: 42949672950000, diff: 0, diff_prcnt: 0 }
    );
}
