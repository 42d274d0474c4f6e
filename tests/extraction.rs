use registry_workflow::extract::{
    address_from_fragments, cut_before, detail_value, director_entry, filing_value, joined_text, pair_cells, parse_listing_row,
    second_piece_trimmed, should_fetch_next_page, split_two, FilingValue,
};

fn strings(v: &[&str]) -> Vec<String> {
    v.iter().map(|s| s.to_string()).collect()
}

#[test]
fn listing_row_status_and_numbers() {
    let row = parse_listing_row(
        "ACME LTD.".to_string(),
        "Status: Active",
        "Corporation Number: 123-456-7",
        "Business Number:  987654321RC0001 ",
    )
    .unwrap();
    assert_eq!(row.business_name, "ACME LTD.");
    assert_eq!(row.status, "Active");
    assert_eq!(row.corporation_number, "1234567");
    assert_eq!(row.business_number, "987654321RC0001");
}

#[test]
fn listing_row_without_colon_is_malformed() {
    assert!(parse_listing_row("X".to_string(), "Status Active", "Corporation Number: 1", "Business Number: 2").is_none());
}

#[test]
fn labelled_value_takes_the_second_piece() {
    assert_eq!(second_piece_trimmed("Time: 10:30", ':').unwrap(), "10");
    assert_eq!(second_piece_trimmed("Status:", ':').unwrap(), "");
    assert!(second_piece_trimmed("Status", ':').is_none());
    assert_eq!(split_two("2021-Filed-late", '-').unwrap(), ("2021".to_string(), "Filed".to_string()));
}

#[test]
fn next_page_only_below_cap() {
    assert!(should_fetch_next_page(true, 5, None));
    assert!(!should_fetch_next_page(false, 0, None));
    assert!(!should_fetch_next_page(true, 1, Some(1)));
    assert!(should_fetch_next_page(true, 0, Some(1)));
}

#[test]
fn status_row_yields_pairs() {
    let items = strings(&["2021 - Filed", "2022 - Overdue", "no hyphen here"]);
    match filing_value("Status of Annual Filings", "ignored".to_string(), &items) {
        FilingValue::LabeledList(pairs) => assert_eq!(
            pairs,
            vec![
                ("2021 ".to_string(), " Filed".to_string()),
                ("2022 ".to_string(), " Overdue".to_string()),
            ]
        ),
        FilingValue::Plain(_) => panic!("the status row is a list"),
    }
}

#[test]
fn other_rows_yield_plain_values() {
    let items = strings(&["2021 - Filed"]);
    match filing_value("Anniversary Date", "June 1".to_string(), &items) {
        FilingValue::Plain(v) => assert_eq!(v, "June 1"),
        FilingValue::LabeledList(_) => panic!("only the status row is a list"),
    }
}

#[test]
fn address_joins_non_empty_fragments() {
    let parts = strings(&["  123 Main St ", "\n", "Ottawa ON", "", " K1A 0B1"]);
    assert_eq!(address_from_fragments(&parts), "123 Main St, Ottawa ON, K1A 0B1");
    assert_eq!(address_from_fragments(&Vec::new()), "");
}

#[test]
fn director_name_and_address() {
    let lines = strings(&[" Jane Doe ", "1 Elm St", " Toronto ON "]);
    let (name, address) = director_entry(&lines).unwrap();
    assert_eq!(name, "Jane Doe");
    assert_eq!(address, "1 Elm St, Toronto ON");
    let (name, address) = director_entry(&strings(&["Solo"])).unwrap();
    assert_eq!(name, "Solo");
    assert_eq!(address, "");
    assert!(director_entry(&Vec::new()).is_none());
}

#[test]
fn cells_pair_up() {
    let cells = strings(&["2019-01-01", "OLD NAME", "2020-01-01", "NEW NAME"]);
    assert_eq!(
        pair_cells(&cells).unwrap(),
        vec![
            ("2019-01-01".to_string(), "OLD NAME".to_string()),
            ("2020-01-01".to_string(), "NEW NAME".to_string()),
        ]
    );
    assert!(pair_cells(&strings(&["lonely"])).is_none());
}

#[test]
fn text_nodes_run_together_trimmed() {
    assert_eq!(joined_text(&strings(&[" Corporate ", " Name"])), "CorporateName");
}

#[test]
fn detail_value_runs_trimmed_nodes_together() {
    let nodes = strings(&["  ", " ACME LTD. ", "Formerly OLD CO "]);
    assert_eq!(detail_value(&nodes), "ACME LTD.Formerly OLD CO");
    assert_eq!(detail_value(&Vec::new()), "");
}

#[test]
fn markup_is_cut_before_the_first_break() {
    assert_eq!(cut_before("<span>ACME</span> LTD.<br>Formerly X<br>Y", "<br>"), "<span>ACME</span> LTD.");
    assert_eq!(cut_before("no break", "<br>"), "no break");
    assert_eq!(cut_before("<br>", "<br>"), "");
}
