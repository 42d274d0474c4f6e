use vstd::prelude::*;
use crate::browser::{
    option_xpath, option_xpath_of, patient, patient_locator, Action,
    ActionView, Locator, LocatorView, StepEvent,
};
use crate::criteria::{
    operator_label, register_label, status_label, DateInput, RegisterType,
    SearchBusinessRegistryParams, SearchOperator, opt_view, opt_date,
};

verus! {

/// The steps of the search workflow, in the order the portal asks for them.
/// Each step but the two final ones performs exactly one action.
#[derive(Clone, Copy, Debug, PartialEq, Eq, Structural)]
pub enum SearchStep {
    EnterQuery,
    OpenAdvanced,
    SelectRegister,
    SettleRegister,
    SelectBusinessType,
    SelectStatus,
    EnterDate,
    SelectOperator,
    SettleOperator,
    EnterEndDate,
    ConfirmEndDate,
    Submit,
    SettleResults,
    ProbeNoResults,
    SelectPageSize,
    SettlePageSize,
    ReadLocation,
    /// Final: the portal reported that nothing matched.
    NoResults,
    /// Final: the listing is loaded with the normalized page size.
    Listed,
}

/// What a search produced: nothing, or where the loaded listing lives.
pub enum SearchOutcome {
    NoResults,
    Listed { url: String },
}

pub type Criteria = SearchBusinessRegistryParams;

pub open spec fn is_final(s: SearchStep) -> bool {
    s == SearchStep::NoResults || s == SearchStep::Listed
}

pub open spec fn after_operator(c: Criteria) -> SearchStep {
    if c.search_operator == Some(SearchOperator::Between) {
        SearchStep::SettleOperator
    } else {
        SearchStep::Submit
    }
}

pub open spec fn after_date(c: Criteria) -> SearchStep {
    if c.search_operator.is_some() {
        SearchStep::SelectOperator
    } else {
        after_operator(c)
    }
}

pub open spec fn after_status(c: Criteria) -> SearchStep {
    if c.date_input.is_some() {
        SearchStep::EnterDate
    } else {
        after_date(c)
    }
}

pub open spec fn after_business_type(c: Criteria) -> SearchStep {
    if c.status_key.is_some() {
        SearchStep::SelectStatus
    } else {
        after_status(c)
    }
}

pub open spec fn after_register(c: Criteria) -> SearchStep {
    if c.business_type_selection.is_some() {
        SearchStep::SelectBusinessType
    } else {
        after_business_type(c)
    }
}

/// The step that follows `s` once its action reported `e`. Optional steps
/// are skipped when their field is absent; the end-date steps are taken
/// only with the between operator; a found no-results marker ends the search.
pub open spec fn next_search_step(c: Criteria, s: SearchStep, e: StepEvent) -> SearchStep {
    match s {
        SearchStep::EnterQuery => SearchStep::OpenAdvanced,
        SearchStep::OpenAdvanced => SearchStep::SelectRegister,
        SearchStep::SelectRegister => SearchStep::SettleRegister,
        SearchStep::SettleRegister => after_register(c),
        SearchStep::SelectBusinessType => after_business_type(c),
        SearchStep::SelectStatus => after_status(c),
        SearchStep::EnterDate => after_date(c),
        SearchStep::SelectOperator => after_operator(c),
        SearchStep::SettleOperator => SearchStep::EnterEndDate,
        SearchStep::EnterEndDate => SearchStep::ConfirmEndDate,
        SearchStep::ConfirmEndDate => SearchStep::Submit,
        SearchStep::Submit => SearchStep::SettleResults,
        SearchStep::SettleResults => SearchStep::ProbeNoResults,
        SearchStep::ProbeNoResults => if e == StepEvent::Found {
            SearchStep::NoResults
        } else {
            SearchStep::SelectPageSize
        },
        SearchStep::SelectPageSize => SearchStep::SettlePageSize,
        SearchStep::SettlePageSize => SearchStep::ReadLocation,
        SearchStep::ReadLocation => SearchStep::Listed,
        SearchStep::NoResults => SearchStep::NoResults,
        SearchStep::Listed => SearchStep::Listed,
    }
}

pub open spec fn register_choice(c: Criteria) -> RegisterType {
    match c.register_type_key {
        Some(r) => r,
        None => RegisterType::All,
    }
}

pub open spec fn query_box() -> Seq<char> {
    "//input[@name='QueryString']"@
}

pub open spec fn advanced_link() -> Seq<char> {
    "//a[@aria-label=' Advanced']"@
}

pub open spec fn date_box() -> Seq<char> {
    "//input[@name='RegistrationDate']"@
}

pub open spec fn end_date_box() -> Seq<char> {
    "//input[@name='RegistrationDate2']"@
}

pub open spec fn search_button() -> Seq<char> {
    "//div[@class='appBox appBlock registerItemSearch-tabs-criteriaAndButtons-buttonPad appButtonPad appSearchButtonPad appNotReadOnly appIndex1 appChildCount3']/div/button"@
}

pub open spec fn no_results_marker() -> Seq<char> {
    "//div[@id='appSearchNoResults']"@
}

pub open spec fn page_size_option() -> Seq<char> {
    "//div[@class='appSearchPageSize']/select/option[contains(text(), '200')]"@
}

pub open spec fn text_or_empty(d: Option<DateInput>) -> Seq<char> {
    match d {
        Some(d) => d.text(),
        None => Seq::empty(),
    }
}

/// The action that step `s` performs; none for a final step.
pub open spec fn search_action(c: Criteria, s: SearchStep) -> Option<ActionView> {
    match s {
        SearchStep::EnterQuery => Some(ActionView::TypeText {
            target: LocatorView { xpath: query_box(), timeout_secs: 160, poll_secs: 1 },
            text: c.query_word@,
        }),
        SearchStep::OpenAdvanced => Some(ActionView::Click { target: patient(advanced_link()) }),
        SearchStep::SelectRegister => Some(ActionView::Click {
            target: patient(option_xpath(register_label(register_choice(c)))),
        }),
        SearchStep::SettleRegister => Some(ActionView::Pause { seconds: 2 }),
        SearchStep::SelectBusinessType => Some(ActionView::Click {
            target: patient(option_xpath(c.business_type_selection.unwrap()@)),
        }),
        SearchStep::SelectStatus => Some(ActionView::Click {
            target: patient(option_xpath(status_label(c.status_key.unwrap()))),
        }),
        SearchStep::EnterDate => Some(ActionView::TypeText {
            target: patient(date_box()),
            text: c.date_input.unwrap().text(),
        }),
        SearchStep::SelectOperator => Some(ActionView::Click {
            target: patient(option_xpath(operator_label(c.search_operator.unwrap()))),
        }),
        SearchStep::SettleOperator => Some(ActionView::Pause { seconds: 2 }),
        SearchStep::EnterEndDate => Some(ActionView::TypeText {
            target: patient(end_date_box()),
            text: text_or_empty(c.end_date),
        }),
        SearchStep::ConfirmEndDate => Some(ActionView::PressEnter { target: patient(end_date_box()) }),
        SearchStep::Submit => Some(ActionView::Click { target: patient(search_button()) }),
        SearchStep::SettleResults => Some(ActionView::Pause { seconds: 5 }),
        SearchStep::ProbeNoResults => Some(ActionView::Probe {
            target: LocatorView { xpath: no_results_marker(), timeout_secs: 5, poll_secs: 1 },
        }),
        SearchStep::SelectPageSize => Some(ActionView::Click { target: patient(page_size_option()) }),
        SearchStep::SettlePageSize => Some(ActionView::Pause { seconds: 15 }),
        SearchStep::ReadLocation => Some(ActionView::ReadLocation),
        SearchStep::NoResults => None,
        SearchStep::Listed => None,
    }
}

/// Whether step `s` can be reached for criteria `c`: the optional steps
/// need their field, and the end-date steps need the between operator.
pub open spec fn search_step_applies(c: Criteria, s: SearchStep) -> bool {
    match s {
        SearchStep::SelectBusinessType => c.business_type_selection.is_some(),
        SearchStep::SelectStatus => c.status_key.is_some(),
        SearchStep::EnterDate => c.date_input.is_some(),
        SearchStep::SelectOperator => c.search_operator.is_some(),
        SearchStep::SettleOperator | SearchStep::EnterEndDate | SearchStep::ConfirmEndDate =>
            c.search_operator == Some(SearchOperator::Between),
        _ => true,
    }
}

impl SearchStep {
    pub fn first() -> (r: SearchStep)
        ensures
            r == SearchStep::EnterQuery,
    {
        SearchStep::EnterQuery
    }

    pub fn is_final(&self) -> (r: bool)
        ensures
            r == is_final(*self),
    {
        match self {
            SearchStep::NoResults | SearchStep::Listed => true,
            _ => false,
        }
    }

    /// Whether this step can be reached for the criteria.
    pub fn applies(&self, c: &Criteria) -> (r: bool)
        ensures
            r == search_step_applies(*c, *self),
    {
        match self {
            SearchStep::SelectBusinessType => c.business_type_selection.is_some(),
            SearchStep::SelectStatus => c.status_key.is_some(),
            SearchStep::EnterDate => c.date_input.is_some(),
            SearchStep::SelectOperator => c.search_operator.is_some(),
            SearchStep::SettleOperator | SearchStep::EnterEndDate | SearchStep::ConfirmEndDate =>
                c.search_operator == Some(SearchOperator::Between),
            _ => true,
        }
    }

    /// The step after this one, given what its action reported.
    pub fn next(&self, c: &Criteria, e: StepEvent) -> (r: SearchStep)
        ensures
            r == next_search_step(*c, *self, e),
            search_step_applies(*c, *self) ==> search_step_applies(*c, r),
    {
        let after_operator = if c.search_operator == Some(SearchOperator::Between) {
            SearchStep::SettleOperator
        } else {
            SearchStep::Submit
        };
        let after_date = if c.search_operator.is_some() {
            SearchStep::SelectOperator
        } else {
            after_operator
        };
        let after_status = if c.date_input.is_some() {
            SearchStep::EnterDate
        } else {
            after_date
        };
        let after_business_type = if c.status_key.is_some() {
            SearchStep::SelectStatus
        } else {
            after_status
        };
        let after_register = if c.business_type_selection.is_some() {
            SearchStep::SelectBusinessType
        } else {
            after_business_type
        };
        match self {
            SearchStep::EnterQuery => SearchStep::OpenAdvanced,
            SearchStep::OpenAdvanced => SearchStep::SelectRegister,
            SearchStep::SelectRegister => SearchStep::SettleRegister,
            SearchStep::SettleRegister => after_register,
            SearchStep::SelectBusinessType => after_business_type,
            SearchStep::SelectStatus => after_status,
            SearchStep::EnterDate => after_date,
            SearchStep::SelectOperator => after_operator,
            SearchStep::SettleOperator => SearchStep::EnterEndDate,
            SearchStep::EnterEndDate => SearchStep::ConfirmEndDate,
            SearchStep::ConfirmEndDate => SearchStep::Submit,
            SearchStep::Submit => SearchStep::SettleResults,
            SearchStep::SettleResults => SearchStep::ProbeNoResults,
            SearchStep::ProbeNoResults => if e == StepEvent::Found {
                SearchStep::NoResults
            } else {
                SearchStep::SelectPageSize
            },
            SearchStep::SelectPageSize => SearchStep::SettlePageSize,
            SearchStep::SettlePageSize => SearchStep::ReadLocation,
            SearchStep::ReadLocation => SearchStep::Listed,
            SearchStep::NoResults => SearchStep::NoResults,
            SearchStep::Listed => SearchStep::Listed,
        }
    }

    /// The action this step performs, or none for a final step.
    pub fn action(&self, c: &Criteria) -> (r: Option<Action>)
        requires
            search_step_applies(*c, *self),
        ensures
            match r {
                Some(a) => search_action(*c, *self) == Some(a@),
                None => search_action(*c, *self).is_none(),
            },
    {
        match self {
            SearchStep::EnterQuery => Some(Action::TypeText {
                target: Locator {
                    xpath: String::from_str("//input[@name='QueryString']"),
                    timeout_secs: 160,
                    poll_secs: 1,
                },
                text: c.query_word.clone(),
            }),
            SearchStep::OpenAdvanced => Some(Action::Click {
                target: patient_locator("//a[@aria-label=' Advanced']"),
            }),
            SearchStep::SelectRegister => {
                let r = match c.register_type_key {
                    Some(r) => r,
                    None => RegisterType::All,
                };
                Some(Action::Click {
                    target: Locator { xpath: option_xpath_of(r.label()), timeout_secs: 20, poll_secs: 1 },
                })
            },
            SearchStep::SettleRegister => Some(Action::Pause { seconds: 2 }),
            SearchStep::SelectBusinessType => {
                let b = c.business_type_selection.as_ref().unwrap();
                Some(Action::Click {
                    target: Locator { xpath: option_xpath_of(b.as_str()), timeout_secs: 20, poll_secs: 1 },
                })
            },
            SearchStep::SelectStatus => {
                let s = c.status_key.unwrap();
                Some(Action::Click {
                    target: Locator { xpath: option_xpath_of(s.label()), timeout_secs: 20, poll_secs: 1 },
                })
            },
            SearchStep::EnterDate => {
                let d = c.date_input.as_ref().unwrap();
                Some(Action::TypeText {
                    target: patient_locator("//input[@name='RegistrationDate']"),
                    text: String::from_str(d.as_str()),
                })
            },
            SearchStep::SelectOperator => {
                let o = c.search_operator.unwrap();
                Some(Action::Click {
                    target: Locator { xpath: option_xpath_of(o.label()), timeout_secs: 20, poll_secs: 1 },
                })
            },
            SearchStep::SettleOperator => Some(Action::Pause { seconds: 2 }),
            SearchStep::EnterEndDate => {
                let text = match &c.end_date {
                    Some(d) => String::from_str(d.as_str()),
                    None => String::new(),
                };
                Some(Action::TypeText {
                    target: patient_locator("//input[@name='RegistrationDate2']"),
                    text,
                })
            },
            SearchStep::ConfirmEndDate => Some(Action::PressEnter {
                target: patient_locator("//input[@name='RegistrationDate2']"),
            }),
            SearchStep::Submit => Some(Action::Click {
                target: patient_locator(
                    "//div[@class='appBox appBlock registerItemSearch-tabs-criteriaAndButtons-buttonPad appButtonPad appSearchButtonPad appNotReadOnly appIndex1 appChildCount3']/div/button",
                ),
            }),
            SearchStep::SettleResults => Some(Action::Pause { seconds: 5 }),
            SearchStep::ProbeNoResults => Some(Action::Probe {
                target: Locator {
                    xpath: String::from_str("//div[@id='appSearchNoResults']"),
                    timeout_secs: 5,
                    poll_secs: 1,
                },
            }),
            SearchStep::SelectPageSize => Some(Action::Click {
                target: patient_locator(
                    "//div[@class='appSearchPageSize']/select/option[contains(text(), '200')]",
                ),
            }),
            SearchStep::SettlePageSize => Some(Action::Pause { seconds: 15 }),
            SearchStep::ReadLocation => Some(Action::ReadLocation),
            SearchStep::NoResults => None,
            SearchStep::Listed => None,
        }
    }
}

impl SearchOutcome {
    /// The outcome a finished search stands for; `location` is what the
    /// final read of the page location reported.
    pub fn from_final(step: SearchStep, location: String) -> (r: Option<SearchOutcome>)
        ensures
            step == SearchStep::NoResults ==> r matches Some(SearchOutcome::NoResults),
            step == SearchStep::Listed ==> (r matches Some(SearchOutcome::Listed { url }) && url@
                == location@),
            !is_final(step) ==> r.is_none(),
    {
        match step {
            SearchStep::NoResults => Some(SearchOutcome::NoResults),
            SearchStep::Listed => Some(SearchOutcome::Listed { url: location }),
            _ => None,
        }
    }

    pub fn is_no_results(&self) -> (r: bool)
        ensures
            r == (self matches SearchOutcome::NoResults),
    {
        match self {
            SearchOutcome::NoResults => true,
            SearchOutcome::Listed { .. } => false,
        }
    }
}

/// The two criteria agree on every field but the end date.
pub open spec fn differ_only_in_end_date(c1: Criteria, c2: Criteria) -> bool {
    &&& c1.query_word@ == c2.query_word@
    &&& c1.register_type_key == c2.register_type_key
    &&& opt_view(c1.business_type_selection) == opt_view(c2.business_type_selection)
    &&& c1.status_key == c2.status_key
    &&& opt_date(c1.date_input) == opt_date(c2.date_input)
    &&& c1.search_operator == c2.search_operator
}

/// The end date is read only under the between operator: with any other
/// operator, or none, two criteria that differ only in their end date take
/// the same steps and perform the same actions.
pub proof fn lemma_end_date_only_for_between(c1: Criteria, c2: Criteria, s: SearchStep, e: StepEvent)
    requires
        differ_only_in_end_date(c1, c2),
        c1.search_operator != Some(SearchOperator::Between),
    ensures
        next_search_step(c1, s, e) == next_search_step(c2, s, e),
        search_step_applies(c1, s) == search_step_applies(c2, s),
        search_step_applies(c1, s) ==> search_action(c1, s) == search_action(c2, s),
        s == SearchStep::EnterEndDate ==> !search_step_applies(c1, s),
{
    if c1.business_type_selection.is_some() {
        assert(c1.business_type_selection.unwrap()@ == c2.business_type_selection.unwrap()@);
    }
    if c1.date_input.is_some() {
        assert(c1.date_input.unwrap().text() == c2.date_input.unwrap().text());
    }
}

/// Once the no-results marker is found the search is over: the next step is
/// final, it performs no action, and no event leads anywhere else, so the
/// page size is never touched.
pub proof fn lemma_no_results_is_final(c: Criteria, e: StepEvent)
    ensures
        next_search_step(c, SearchStep::ProbeNoResults, StepEvent::Found) == SearchStep::NoResults,
        search_action(c, SearchStep::NoResults).is_none(),
        next_search_step(c, SearchStep::NoResults, e) == SearchStep::NoResults,
{
}

} // verus!
