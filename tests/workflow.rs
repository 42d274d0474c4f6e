use registry_workflow::browser::{Action, StepEvent};
use registry_workflow::config::Config;
use registry_workflow::criteria::{
    str_equal, DateInput, RegisterType, SearchBusinessRegistryParams,
    SearchBusinessRegistryParamsShadow, SearchOperator, StatusKey, ValidationError,
};
use registry_workflow::payment::{classify_product, PaymentStep, ProductKind, RequestBusinessProfileReportParams};
use registry_workflow::retry::{DriverAction, RetryDecision, RetryDriver, RetryPolicy};
use registry_workflow::search::{SearchOutcome, SearchStep};

fn shadow(query: &str) -> SearchBusinessRegistryParamsShadow {
    SearchBusinessRegistryParamsShadow {
        query_word: query.to_string(),
        register_type_key: None,
        business_type_selection: None,
        status_key: None,
        date_input: None,
        search_operator: None,
        end_date: None,
    }
}

fn date(s: &str) -> DateInput {
    DateInput::try_from(s.to_string()).unwrap()
}

fn config() -> Config {
    Config {
        token: "secret".to_string(),
        port: 80,
        card_number: "4111111111111111".to_string(),
        card_name: "Jane Doe".to_string(),
        card_month: "12".to_string(),
        card_year: "30".to_string(),
        card_cvv: "123".to_string(),
        default_email: "default@example.com".to_string(),
    }
}

fn xpath_of(a: &Action) -> Option<String> {
    match a {
        Action::Click { target } | Action::PressEnter { target } | Action::Probe { target } => {
            Some(target.xpath.clone())
        }
        Action::TypeText { target, .. } | Action::FillAll { target, .. } => Some(target.xpath.clone()),
        Action::Pause { .. } | Action::ReadLocation => None,
    }
}

/// Runs the search machine, answering every probe with `probe_answer`;
/// returns the steps taken and the final step.
fn run_search(c: &SearchBusinessRegistryParams, probe_answer: StepEvent) -> (Vec<SearchStep>, SearchStep) {
    let mut steps = Vec::new();
    let mut step = SearchStep::first();
    while !step.is_final() {
        assert!(step.applies(c));
        steps.push(step);
        let action = step.action(c).expect("a non-final step acts");
        let event = match action {
            Action::Probe { .. } => probe_answer,
            _ => StepEvent::Completed,
        };
        step = step.next(c, event);
    }
    (steps, step)
}

#[test]
fn valid_criteria_are_accepted() {
    assert!(SearchBusinessRegistryParams::try_from(shadow("Acme")).is_ok());
    let mut s = shadow("Acme");
    s.register_type_key = Some(RegisterType::Corporations);
    s.business_type_selection = Some("-- Any type --".to_string());
    assert!(SearchBusinessRegistryParams::try_from(s).is_ok());
    let mut s = shadow("Acme");
    s.register_type_key = Some(RegisterType::All);
    s.business_type_selection = Some("Cooperative".to_string());
    assert!(SearchBusinessRegistryParams::try_from(s).is_ok());
    let mut s = shadow("Acme");
    s.business_type_selection = Some("Cooperative".to_string());
    assert!(SearchBusinessRegistryParams::try_from(s).is_ok());
}

#[test]
fn business_type_outside_register_is_rejected() {
    let mut s = shadow("Acme");
    s.register_type_key = Some(RegisterType::BusinessNames);
    s.business_type_selection = Some("Cooperative".to_string());
    match SearchBusinessRegistryParams::try_from(s) {
        Err(e) => assert_eq!(e, ValidationError::InvalidBusinessType { register_type: RegisterType::BusinessNames }),
        Ok(_) => panic!("accepted a business type outside the register"),
    }
}

#[test]
fn validated_criteria_keep_their_fields() {
    let mut s = shadow("Acme");
    s.status_key = Some(StatusKey::Inactive);
    s.date_input = Some(date("March 3, 2020"));
    let p = SearchBusinessRegistryParams::try_from(s).ok().unwrap();
    assert_eq!(p.query_word, "Acme");
    assert_eq!(p.status_key, Some(StatusKey::Inactive));
    assert_eq!(p.date_input.unwrap().as_str(), "March 3, 2020");
}

#[test]
fn month_day_year_dates_are_accepted() {
    assert_eq!(date("January 1, 2021").as_str(), "January 1, 2021");
    assert!(DateInput::try_from("December 31, 1999".to_string()).is_ok());
}

#[test]
fn malformed_dates_are_rejected() {
    for bad in ["jan 1 2021", "32, 2021", "", "January 123, 2021", "January 1, 21", "J 1, 2021", "January 1 2021"] {
        match DateInput::try_from(bad.to_string()) {
            Err(e) => assert_eq!(e, ValidationError::InvalidDate),
            Ok(_) => panic!("accepted {bad:?}"),
        }
    }
}

#[test]
fn labels_match_the_portal() {
    assert_eq!(RegisterType::All.label(), "-- All Registers --");
    assert_eq!(RegisterType::BusinessNames.label(), "Business Names");
    assert_eq!(StatusKey::All.label(), "-- All Statuses --");
    assert_eq!(SearchOperator::FromOrOn.label(), "From or On");
}

#[test]
fn end_date_is_ignored_without_between() {
    let build = |end: Option<&str>| {
        let mut s = shadow("Acme");
        s.date_input = Some(date("January 1, 2021"));
        s.search_operator = Some(SearchOperator::On);
        s.end_date = end.map(date);
        SearchBusinessRegistryParams::try_from(s).ok().unwrap()
    };
    let with_end = build(Some("June 5, 2022"));
    let without_end = build(None);
    assert!(with_end.effective_end_date().is_none());
    let (a, _) = run_search(&with_end, StepEvent::NotFound);
    let (b, _) = run_search(&without_end, StepEvent::NotFound);
    assert_eq!(a, b);
    assert!(!a.contains(&SearchStep::EnterEndDate));
}

#[test]
fn between_enters_the_end_date_and_confirms() {
    let mut s = shadow("Acme");
    s.search_operator = Some(SearchOperator::Between);
    s.end_date = Some(date("June 5, 2022"));
    let c = SearchBusinessRegistryParams::try_from(s).ok().unwrap();
    assert_eq!(c.effective_end_date().unwrap().as_str(), "June 5, 2022");
    let (steps, last) = run_search(&c, StepEvent::NotFound);
    assert_eq!(last, SearchStep::Listed);
    let i = steps.iter().position(|s| *s == SearchStep::EnterEndDate).unwrap();
    assert_eq!(steps[i - 1], SearchStep::SettleOperator);
    assert_eq!(steps[i + 1], SearchStep::ConfirmEndDate);
    match SearchStep::EnterEndDate.action(&c).unwrap() {
        Action::TypeText { target, text } => {
            assert_eq!(target.xpath, "//input[@name='RegistrationDate2']");
            assert_eq!(text, "June 5, 2022");
        }
        _ => panic!("end date is typed"),
    }
}

#[test]
fn search_with_results_normalizes_page_size() {
    let c = SearchBusinessRegistryParams::try_from(shadow("Acme")).ok().unwrap();
    let (steps, last) = run_search(&c, StepEvent::NotFound);
    assert_eq!(last, SearchStep::Listed);
    assert_eq!(
        steps,
        vec![
            SearchStep::EnterQuery,
            SearchStep::OpenAdvanced,
            SearchStep::SelectRegister,
            SearchStep::SettleRegister,
            SearchStep::Submit,
            SearchStep::SettleResults,
            SearchStep::ProbeNoResults,
            SearchStep::SelectPageSize,
            SearchStep::SettlePageSize,
            SearchStep::ReadLocation,
        ]
    );
    match SearchStep::EnterQuery.action(&c).unwrap() {
        Action::TypeText { target, text } => {
            assert_eq!(target.xpath, "//input[@name='QueryString']");
            assert_eq!(target.timeout_secs, 160);
            assert_eq!(text, "Acme");
        }
        _ => panic!("query is typed"),
    }
    let register = xpath_of(&SearchStep::SelectRegister.action(&c).unwrap()).unwrap();
    assert_eq!(register, "//option[contains(text(), '-- All Registers --')]");
    match SearchOutcome::from_final(last, "https://portal/listing".to_string()) {
        Some(SearchOutcome::Listed { url }) => assert_eq!(url, "https://portal/listing"),
        _ => panic!("a listed search has a location"),
    }
}

#[test]
fn no_results_scenario_stops_before_page_size_and_payment() {
    let mut s = shadow("Acme");
    s.register_type_key = Some(RegisterType::Corporations);
    s.status_key = Some(StatusKey::Active);
    let c = SearchBusinessRegistryParams::try_from(s).ok().unwrap();
    let (steps, last) = run_search(&c, StepEvent::Found);
    assert_eq!(last, SearchStep::NoResults);
    assert_eq!(*steps.last().unwrap(), SearchStep::ProbeNoResults);
    assert!(!steps.contains(&SearchStep::SelectPageSize));
    assert!(SearchStep::NoResults.action(&c).is_none());
    let register = xpath_of(&SearchStep::SelectRegister.action(&c).unwrap()).unwrap();
    assert_eq!(register, "//option[contains(text(), 'Corporations')]");
    let status = xpath_of(&SearchStep::SelectStatus.action(&c).unwrap()).unwrap();
    assert_eq!(status, "//option[contains(text(), 'Active')]");
    let outcome = SearchOutcome::from_final(last, String::new()).unwrap();
    assert!(outcome.is_no_results());
    assert!(PaymentStep::entry(&outcome).is_none());
}

fn request(product: &str, email: &str) -> RequestBusinessProfileReportParams {
    RequestBusinessProfileReportParams {
        search_business_params: SearchBusinessRegistryParams::try_from(shadow("Acme")).ok().unwrap(),
        selected_company: "ACME LTD.".to_string(),
        search_product: product.to_string(),
        email: email.to_string(),
    }
}

fn run_payment(p: &RequestBusinessProfileReportParams) -> Vec<(PaymentStep, Option<String>)> {
    let cfg = config();
    let kind = classify_product(&p.search_product);
    let listed = SearchOutcome::Listed { url: "https://portal/listing".to_string() };
    let mut step = PaymentStep::entry(&listed).unwrap();
    let mut seen = Vec::new();
    while !step.is_final() {
        let action = step.action(p, &cfg).unwrap();
        seen.push((step, xpath_of(&action)));
        step = step.next(kind);
    }
    seen
}

#[test]
fn certificate_of_status_goes_straight_to_emails() {
    let p = request("Certificate of Status", "a@example.com");
    let seen = run_payment(&p);
    let steps: Vec<PaymentStep> = seen.iter().map(|s| s.0).collect();
    assert!(!steps.contains(&PaymentStep::ChooseCurrentReport));
    assert!(!steps.contains(&PaymentStep::SelectAllDocuments));
    let i = steps.iter().position(|s| *s == PaymentStep::ContinueToProduct).unwrap();
    assert_eq!(steps[i + 1], PaymentStep::FillEmails);
    assert_eq!(steps[i + 2], PaymentStep::SubmitProduct);
    assert_eq!(seen[i + 2].1.as_deref(), Some("//span[contains(text(), 'Submit')]"));
    match PaymentStep::FillEmails.action(&p, &config()).unwrap() {
        Action::FillAll { target, text } => {
            assert_eq!(target.xpath, "//input[@type='email']");
            assert_eq!(text, "a@example.com");
        }
        _ => panic!("emails are filled"),
    }
}

#[test]
fn profile_report_and_document_copies_take_their_branches() {
    let report: Vec<PaymentStep> = run_payment(&request("Profile Report", "a@example.com")).iter().map(|s| s.0).collect();
    assert!(report.contains(&PaymentStep::ChooseCurrentReport));
    assert!(!report.contains(&PaymentStep::SelectAllDocuments));
    let copies = run_payment(&request("Document Copies", "a@example.com"));
    let steps: Vec<PaymentStep> = copies.iter().map(|s| s.0).collect();
    assert!(steps.contains(&PaymentStep::SelectAllDocuments));
    let submit = copies.iter().find(|s| s.0 == PaymentStep::SubmitProduct).unwrap();
    assert_eq!(submit.1.as_deref(), Some("//span[contains(text(), 'Request Documents')]"));
    assert_eq!(classify_product("Something else"), ProductKind::Other);
}

#[test]
fn payment_form_uses_configured_card() {
    let p = request("Certificate of Status", "a@example.com");
    let cfg = config();
    match PaymentStep::EnterCardNumber.action(&p, &cfg).unwrap() {
        Action::TypeText { target, text } => {
            assert_eq!(target.xpath, "//input[@name='trnCardNumber']");
            assert_eq!(text, "4111111111111111");
        }
        _ => panic!("card number is typed"),
    }
    let first = PaymentStep::PickCompany.action(&p, &cfg).unwrap();
    assert_eq!(xpath_of(&first).unwrap(), "//span[contains(text(), 'ACME LTD.')]");
    assert!(PaymentStep::Paid.action(&p, &cfg).is_none());
}

#[test]
fn default_email_fills_in() {
    let cfg = config();
    assert_eq!(cfg.email_or_default(None), "default@example.com");
    assert_eq!(cfg.email_or_default(Some("b@example.com".to_string())), "b@example.com");
}

fn run_driver(succeeds_on: Option<u32>) -> (u32, Vec<u64>, DriverAction) {
    let mut d = RetryDriver::new(RetryPolicy::standard());
    let mut waits = Vec::new();
    loop {
        d.start_attempt();
        let ok = succeeds_on == Some(d.attempts);
        match d.on_outcome(ok) {
            DriverAction::Attempt { wait_secs } => waits.push(wait_secs),
            other => return (d.attempts, waits, other),
        }
    }
}

#[test]
fn retry_gives_up_after_ten_attempts() {
    let (attempts, waits, last) = run_driver(None);
    assert_eq!(attempts, 10);
    assert_eq!(last, DriverAction::ReturnLastError);
    assert_eq!(waits, vec![1, 2, 4, 8, 10, 10, 10, 10, 10]);
}

#[test]
fn retry_stops_at_first_success() {
    let (attempts, waits, last) = run_driver(Some(3));
    assert_eq!(attempts, 3);
    assert_eq!(last, DriverAction::ReturnSuccess);
    assert_eq!(waits, vec![1, 2]);
    let (attempts, _, last) = run_driver(Some(10));
    assert_eq!(attempts, 10);
    assert_eq!(last, DriverAction::ReturnSuccess);
}

#[test]
fn retry_delays_double_and_cap() {
    let p = RetryPolicy::standard();
    assert_eq!(p.delay_after(1), 1);
    assert_eq!(p.delay_after(4), 8);
    assert_eq!(p.delay_after(5), 10);
    assert_eq!(p.delay_after(40), 10);
    assert_eq!(p.after_failure(9), RetryDecision::RetryAfter { delay_secs: 10 });
    assert_eq!(p.after_failure(10), RetryDecision::GiveUp);
}

#[test]
fn string_equality_is_exact() {
    assert!(str_equal("abc", "abc"));
    assert!(!str_equal("abc", "abd"));
    assert!(!str_equal("abc", "ab"));
}
