use registry_workflow::corporation::{parse_listing_page, CorporationDataExtract};
use registry_workflow::extract::{ExtractionError, FilingValue};

fn detail_page() -> String {
    let empty = r##"<div class="col-sm-12"></div>"##;
    let details = r##"<div class="col-sm-12">
        <div class="data-display-group"><b>Corporate Name</b><div class="col-sm-8"> <span>ACME</span> LTD.<br>Formerly OLD CO</div></div>
        <div class="data-display-group"><b> Status </b><div class="col-sm-8">Active</div></div>
    </div>"##;
    let address = r##"<div class="col-sm-12"><div><span>123 Main St</span> <span>Ottawa ON</span></div></div>"##;
    let directors = r##"<div class="col-sm-12">
        <div class="inline-group"><div><b>Minimum</b><span> 1 </span></div><div><b>Maximum</b><span>10</span></div></div>
        <ul><li class="full-width"><span>Jane Doe</span><span>1 Elm St</span><span>Toronto ON</span></li></ul>
    </div>"##;
    let filings = r##"<div class="col-sm-12">
        <div class="data-display-group"><b>Anniversary Date</b><div class="col-sm-9"> June   1 </div></div>
        <div class="data-display-group"><b>Status of Annual Filings</b><div class="col-sm-9"><ul><li>2021 - Filed</li><li>2022 - Overdue</li></ul></div></div>
    </div>"##;
    let history = r##"<div class="col-sm-12">
        <table><thead><tr><th>Name History</th></tr></thead>
        <tbody><tr><td>2019-01-01</td><td>OLD  NAME</td></tr></tbody></table>
        <section class="panel-info"><header>Amalgamation</header><div class="panel-body">
            <div class="data-display-group"><b>Date</b><div class="col-sm-6">2020-02-02</div></div>
        </div></section>
    </div>"##;
    format!(
        "<html><body>{empty}{empty}{details}{address}{empty}{directors}{empty}{filings}{history}</body></html>"
    )
}

#[test]
fn detail_page_becomes_a_record() {
    let d = CorporationDataExtract::extract_corporation_data(&detail_page()).ok().unwrap();
    assert_eq!(
        d.corp_details,
        vec![
            ("Corporate Name".to_string(), "ACMELTD.".to_string()),
            ("Status".to_string(), "Active".to_string()),
        ]
    );
    assert_eq!(d.address_details, "123 Main St, Ottawa ON");
    assert_eq!(
        d.director_details.director_count,
        vec![("Minimum".to_string(), "1".to_string()), ("Maximum".to_string(), "10".to_string())]
    );
    assert_eq!(
        d.director_details.director_personal_data,
        vec![("Jane Doe".to_string(), "1 Elm St, Toronto ON".to_string())]
    );
    assert_eq!(d.annual_filings_details.len(), 2);
    match &d.annual_filings_details[0] {
        (k, FilingValue::Plain(v)) => {
            assert_eq!(k, "Anniversary Date");
            assert_eq!(v, "June   1");
        }
        _ => panic!("a plain row"),
    }
    match &d.annual_filings_details[1] {
        (k, FilingValue::LabeledList(v)) => {
            assert_eq!(k, "Status of Annual Filings");
            assert_eq!(
                v,
                &vec![
                    ("2021 ".to_string(), " Filed".to_string()),
                    ("2022 ".to_string(), " Overdue".to_string()),
                ]
            );
        }
        _ => panic!("the status row is a list"),
    }
    let h = &d.corp_history_details;
    assert_eq!(h.name_history_heading, "Name History");
    assert_eq!(h.name_history, vec![("2019-01-01".to_string(), "OLD NAME".to_string())]);
    assert_eq!(h.panel_heading, "Amalgamation");
    assert_eq!(h.panel, vec![("Date".to_string(), "2020-02-02".to_string())]);
}

#[test]
fn missing_section_is_named() {
    let page = r##"<html><body><div class="col-sm-12"></div></body></html>"##;
    match CorporationDataExtract::extract_corporation_data(page) {
        Err(e) => assert_eq!(e, ExtractionError::MissingSection { index: 2 }),
        Ok(_) => panic!("a page without sections was read"),
    }
}

#[test]
fn listing_page_rows_and_next_link() {
    let page = r##"<html><body>
        <div class="col-md-11"><span><a href="#">ACME LTD.</a></span><span>Status: Active</span>
        <span>Corporation Number: 123-456-7</span><span>Business Number: 987</span></div>
        <a rel="next" href="?p=1">Next</a></body></html>"##;
    let p = parse_listing_page(page).ok().unwrap();
    assert!(p.has_next);
    assert_eq!(p.rows.len(), 1);
    assert_eq!(p.rows[0].business_name, "ACME LTD.");
    assert_eq!(p.rows[0].status, "Active");
    assert_eq!(p.rows[0].corporation_number, "1234567");
    assert_eq!(p.rows[0].business_number, "987");
    let last = parse_listing_page("<html><body></body></html>").ok().unwrap();
    assert!(!last.has_next);
    assert!(last.rows.is_empty());
}

#[test]
fn incomplete_sections_name_their_position() {
    let page = detail_page().replace("<b>Anniversary Date</b>", "");
    match CorporationDataExtract::extract_corporation_data(&page) {
        Err(e) => assert_eq!(e, ExtractionError::MissingElement { section: 7 }),
        Ok(_) => panic!("a filings row without a label was read"),
    }
    let page = detail_page().replace("<td>OLD  NAME</td>", "");
    match CorporationDataExtract::extract_corp_history_details(&page) {
        Err(e) => assert_eq!(e, ExtractionError::MalformedField { section: 8 }),
        Ok(_) => panic!("an unpaired cell was read"),
    }
}

#[test]
fn sections_read_one_by_one() {
    let page = detail_page();
    assert_eq!(CorporationDataExtract::extract_address_details(&page).ok().unwrap(), "123 Main St, Ottawa ON");
    assert_eq!(CorporationDataExtract::extract_corp_details(&page).ok().unwrap().len(), 2);
    assert_eq!(CorporationDataExtract::extract_director_details(&page).ok().unwrap().director_personal_data.len(), 1);
    assert_eq!(CorporationDataExtract::extract_annual_filings_details(&page).ok().unwrap().len(), 2);
}

#[test]
fn listing_row_without_link_fails() {
    let page = r##"<html><body><div class="col-md-11"><span>ACME LTD.</span><span>Status: Active</span>
        <span>Corporation Number: 1</span><span>Business Number: 2</span></div></body></html>"##;
    match parse_listing_page(page) {
        Err(e) => assert_eq!(e, ExtractionError::MalformedListingRow),
        Ok(_) => panic!("a row without a link was read"),
    }
}
