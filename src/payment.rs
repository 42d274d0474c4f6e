use vstd::prelude::*;
use crate::browser::{
    label_xpath, label_xpath_of, option_xpath, option_xpath_of, patient, patient_locator,
    span_xpath, span_xpath_of, Action, ActionView, Locator, LocatorView,
};
use crate::config::Config;
use crate::criteria::{str_equal, SearchBusinessRegistryParams};
use crate::search::SearchOutcome;

verus! {

/// A purchase request: the search that finds the company, the company's
/// display name, the product to buy and the requester's email.
pub struct RequestBusinessProfileReportParams {
    pub search_business_params: SearchBusinessRegistryParams,
    pub selected_company: String,
    pub search_product: String,
    pub email: String,
}

/// The products the portal sells, and anything else it may list.
#[derive(Clone, Copy, Debug, PartialEq, Eq, Structural)]
pub enum ProductKind {
    ProfileReport,
    DocumentCopies,
    CertificateOfStatus,
    Other,
}

pub open spec fn product_kind(p: Seq<char>) -> ProductKind {
    if p == "Profile Report"@ {
        ProductKind::ProfileReport
    } else if p == "Document Copies"@ {
        ProductKind::DocumentCopies
    } else if p == "Certificate of Status"@ {
        ProductKind::CertificateOfStatus
    } else {
        ProductKind::Other
    }
}

pub fn classify_product(p: &str) -> (r: ProductKind)
    ensures
        r == product_kind(p@),
{
    if str_equal(p, "Profile Report") {
        ProductKind::ProfileReport
    } else if str_equal(p, "Document Copies") {
        ProductKind::DocumentCopies
    } else if str_equal(p, "Certificate of Status") {
        ProductKind::CertificateOfStatus
    } else {
        ProductKind::Other
    }
}

/// The steps of the checkout, from picking the company in the listing to
/// submitting the card form.
#[derive(Clone, Copy, Debug, PartialEq, Eq, Structural)]
pub enum PaymentStep {
    PickCompany,
    OpenSearchProducts,
    ChooseMinistry,
    ChooseProduct,
    ContinueToProduct,
    ChooseCurrentReport,
    SelectAllDocuments,
    SettleProductForm,
    FillEmails,
    SubmitProduct,
    ChooseCreditCard,
    SettlePaymentMethod,
    ConfirmOrder,
    MakePayment,
    SettleCardForm,
    EnterCardOwner,
    EnterCardNumber,
    EnterExpiryMonth,
    EnterExpiryYear,
    EnterCvv,
    SubmitPayment,
    /// Final: the payment form was submitted.
    Paid,
}

/// The step after `s`. Only the product decides between the branches:
/// a profile report picks the current report, document copies select all
/// documents, a certificate of status goes straight to the email fields,
/// and any other product skips the product form.
pub open spec fn next_payment_step(kind: ProductKind, s: PaymentStep) -> PaymentStep {
    match s {
        PaymentStep::PickCompany => PaymentStep::OpenSearchProducts,
        PaymentStep::OpenSearchProducts => PaymentStep::ChooseMinistry,
        PaymentStep::ChooseMinistry => PaymentStep::ChooseProduct,
        PaymentStep::ChooseProduct => PaymentStep::ContinueToProduct,
        PaymentStep::ContinueToProduct => match kind {
            ProductKind::ProfileReport => PaymentStep::ChooseCurrentReport,
            ProductKind::DocumentCopies => PaymentStep::SelectAllDocuments,
            ProductKind::CertificateOfStatus => PaymentStep::FillEmails,
            ProductKind::Other => PaymentStep::ChooseCreditCard,
        },
        PaymentStep::ChooseCurrentReport => PaymentStep::SettleProductForm,
        PaymentStep::SelectAllDocuments => PaymentStep::SettleProductForm,
        PaymentStep::SettleProductForm => PaymentStep::FillEmails,
        PaymentStep::FillEmails => PaymentStep::SubmitProduct,
        PaymentStep::SubmitProduct => PaymentStep::ChooseCreditCard,
        PaymentStep::ChooseCreditCard => PaymentStep::SettlePaymentMethod,
        PaymentStep::SettlePaymentMethod => PaymentStep::ConfirmOrder,
        PaymentStep::ConfirmOrder => PaymentStep::MakePayment,
        PaymentStep::MakePayment => PaymentStep::SettleCardForm,
        PaymentStep::SettleCardForm => PaymentStep::EnterCardOwner,
        PaymentStep::EnterCardOwner => PaymentStep::EnterCardNumber,
        PaymentStep::EnterCardNumber => PaymentStep::EnterExpiryMonth,
        PaymentStep::EnterExpiryMonth => PaymentStep::EnterExpiryYear,
        PaymentStep::EnterExpiryYear => PaymentStep::EnterCvv,
        PaymentStep::EnterCvv => PaymentStep::SubmitPayment,
        PaymentStep::SubmitPayment => PaymentStep::Paid,
        PaymentStep::Paid => PaymentStep::Paid,
    }
}

pub open spec fn email_inputs() -> LocatorView {
    LocatorView { xpath: "//input[@type='email']"@, timeout_secs: 10, poll_secs: 1 }
}

/// The label of the button that submits the product form.
pub open spec fn submit_label(kind: ProductKind) -> Seq<char> {
    if kind == ProductKind::DocumentCopies {
        "Request Documents"@
    } else {
        "Submit"@
    }
}

pub open spec fn order_confirm_button() -> Seq<char> {
    "(//div[@class='appBoxChildren appBlockChildren'])[last()]/button[1]"@
}

/// The action that step `s` performs for request `p` paid with the card in
/// `cfg`; none once paid.
pub open spec fn payment_action(
    p: RequestBusinessProfileReportParams,
    cfg: Config,
    s: PaymentStep,
) -> Option<ActionView> {
    match s {
        PaymentStep::PickCompany => Some(ActionView::Click { target: patient(span_xpath(p.selected_company@)) }),
        PaymentStep::OpenSearchProducts => Some(ActionView::Click {
            target: patient(span_xpath("Request Search Products"@)),
        }),
        PaymentStep::ChooseMinistry => Some(ActionView::Click { target: patient(label_xpath("from the Ministry"@)) }),
        PaymentStep::ChooseProduct => Some(ActionView::Click { target: patient(label_xpath(p.search_product@)) }),
        PaymentStep::ContinueToProduct => Some(ActionView::Click { target: patient(span_xpath("Continue"@)) }),
        PaymentStep::ChooseCurrentReport => Some(ActionView::Click { target: patient(label_xpath("Current Report"@)) }),
        PaymentStep::SelectAllDocuments => Some(ActionView::Click {
            target: patient(label_xpath("Select all Documents"@)),
        }),
        PaymentStep::SettleProductForm => Some(ActionView::Pause { seconds: 5 }),
        PaymentStep::FillEmails => Some(ActionView::FillAll { target: email_inputs(), text: p.email@ }),
        PaymentStep::SubmitProduct => Some(ActionView::Click {
            target: patient(span_xpath(submit_label(product_kind(p.search_product@)))),
        }),
        PaymentStep::ChooseCreditCard => Some(ActionView::Click { target: patient(option_xpath("Credit Card"@)) }),
        PaymentStep::SettlePaymentMethod => Some(ActionView::Pause { seconds: 5 }),
        PaymentStep::ConfirmOrder => Some(ActionView::Click { target: patient(order_confirm_button()) }),
        PaymentStep::MakePayment => Some(ActionView::Click { target: patient("//button[@id='submit_btn']"@) }),
        PaymentStep::SettleCardForm => Some(ActionView::Pause { seconds: 5 }),
        PaymentStep::EnterCardOwner => Some(ActionView::TypeText {
            target: patient("//input[@name='trnCardOwner']"@),
            text: cfg.card_name@,
        }),
        PaymentStep::EnterCardNumber => Some(ActionView::TypeText {
            target: patient("//input[@name='trnCardNumber']"@),
            text: cfg.card_number@,
        }),
        PaymentStep::EnterExpiryMonth => Some(ActionView::TypeText {
            target: patient("//input[@id='trnExpMonth']"@),
            text: cfg.card_month@,
        }),
        PaymentStep::EnterExpiryYear => Some(ActionView::TypeText {
            target: patient("//input[@id='trnExpYear']"@),
            text: cfg.card_year@,
        }),
        PaymentStep::EnterCvv => Some(ActionView::TypeText {
            target: patient("//input[@name='trnCardCvd']"@),
            text: cfg.card_cvv@,
        }),
        PaymentStep::SubmitPayment => Some(ActionView::Click { target: patient("//button[@id='submitButton']"@) }),
        PaymentStep::Paid => None,
    }
}

/// Where the checkout starts after a search: nowhere when the search found
/// nothing, else at picking the company from the listing.
pub open spec fn payment_entry(o: SearchOutcome) -> Option<PaymentStep> {
    match o {
        SearchOutcome::NoResults => None,
        SearchOutcome::Listed { .. } => Some(PaymentStep::PickCompany),
    }
}

impl PaymentStep {
    /// The first checkout step for a search outcome, if any.
    pub fn entry(o: &SearchOutcome) -> (r: Option<PaymentStep>)
        ensures
            r == payment_entry(*o),
    {
        match o {
            SearchOutcome::NoResults => None,
            SearchOutcome::Listed { .. } => Some(PaymentStep::PickCompany),
        }
    }

    pub fn is_final(&self) -> (r: bool)
        ensures
            r == (*self == PaymentStep::Paid),
    {
        match self {
            PaymentStep::Paid => true,
            _ => false,
        }
    }

    pub fn next(&self, kind: ProductKind) -> (r: PaymentStep)
        ensures
            r == next_payment_step(kind, *self),
    {
        match self {
            PaymentStep::PickCompany => PaymentStep::OpenSearchProducts,
            PaymentStep::OpenSearchProducts => PaymentStep::ChooseMinistry,
            PaymentStep::ChooseMinistry => PaymentStep::ChooseProduct,
            PaymentStep::ChooseProduct => PaymentStep::ContinueToProduct,
            PaymentStep::ContinueToProduct => match kind {
                ProductKind::ProfileReport => PaymentStep::ChooseCurrentReport,
                ProductKind::DocumentCopies => PaymentStep::SelectAllDocuments,
                ProductKind::CertificateOfStatus => PaymentStep::FillEmails,
                ProductKind::Other => PaymentStep::ChooseCreditCard,
            },
            PaymentStep::ChooseCurrentReport => PaymentStep::SettleProductForm,
            PaymentStep::SelectAllDocuments => PaymentStep::SettleProductForm,
            PaymentStep::SettleProductForm => PaymentStep::FillEmails,
            PaymentStep::FillEmails => PaymentStep::SubmitProduct,
            PaymentStep::SubmitProduct => PaymentStep::ChooseCreditCard,
            PaymentStep::ChooseCreditCard => PaymentStep::SettlePaymentMethod,
            PaymentStep::SettlePaymentMethod => PaymentStep::ConfirmOrder,
            PaymentStep::ConfirmOrder => PaymentStep::MakePayment,
            PaymentStep::MakePayment => PaymentStep::SettleCardForm,
            PaymentStep::SettleCardForm => PaymentStep::EnterCardOwner,
            PaymentStep::EnterCardOwner => PaymentStep::EnterCardNumber,
            PaymentStep::EnterCardNumber => PaymentStep::EnterExpiryMonth,
            PaymentStep::EnterExpiryMonth => PaymentStep::EnterExpiryYear,
            PaymentStep::EnterExpiryYear => PaymentStep::EnterCvv,
            PaymentStep::EnterCvv => PaymentStep::SubmitPayment,
            PaymentStep::SubmitPayment => PaymentStep::Paid,
            PaymentStep::Paid => PaymentStep::Paid,
        }
    }

    /// The action this step performs, or none once paid.
    pub fn action(&self, p: &RequestBusinessProfileReportParams, cfg: &Config) -> (r: Option<Action>)
        ensures
            match r {
                Some(a) => payment_action(*p, *cfg, *self) == Some(a@),
                None => payment_action(*p, *cfg, *self).is_none(),
            },
    {
        match self {
            PaymentStep::PickCompany => Some(Action::Click {
                target: Locator { xpath: span_xpath_of(p.selected_company.as_str()), timeout_secs: 20, poll_secs: 1 },
            }),
            PaymentStep::OpenSearchProducts => Some(Action::Click {
                target: Locator { xpath: span_xpath_of("Request Search Products"), timeout_secs: 20, poll_secs: 1 },
            }),
            PaymentStep::ChooseMinistry => Some(Action::Click {
                target: Locator { xpath: label_xpath_of("from the Ministry"), timeout_secs: 20, poll_secs: 1 },
            }),
            PaymentStep::ChooseProduct => Some(Action::Click {
                target: Locator { xpath: label_xpath_of(p.search_product.as_str()), timeout_secs: 20, poll_secs: 1 },
            }),
            PaymentStep::ContinueToProduct => Some(Action::Click {
                target: Locator { xpath: span_xpath_of("Continue"), timeout_secs: 20, poll_secs: 1 },
            }),
            PaymentStep::ChooseCurrentReport => Some(Action::Click {
                target: Locator { xpath: label_xpath_of("Current Report"), timeout_secs: 20, poll_secs: 1 },
            }),
            PaymentStep::SelectAllDocuments => Some(Action::Click {
                target: Locator { xpath: label_xpath_of("Select all Documents"), timeout_secs: 20, poll_secs: 1 },
            }),
            PaymentStep::SettleProductForm => Some(Action::Pause { seconds: 5 }),
            PaymentStep::FillEmails => Some(Action::FillAll {
                target: Locator { xpath: String::from_str("//input[@type='email']"), timeout_secs: 10, poll_secs: 1 },
                text: p.email.clone(),
            }),
            PaymentStep::SubmitProduct => {
                let label = if classify_product(p.search_product.as_str()) == ProductKind::DocumentCopies {
                    "Request Documents"
                } else {
                    "Submit"
                };
                Some(Action::Click {
                    target: Locator { xpath: span_xpath_of(label), timeout_secs: 20, poll_secs: 1 },
                })
            },
            PaymentStep::ChooseCreditCard => Some(Action::Click {
                target: Locator { xpath: option_xpath_of("Credit Card"), timeout_secs: 20, poll_secs: 1 },
            }),
            PaymentStep::SettlePaymentMethod => Some(Action::Pause { seconds: 5 }),
            PaymentStep::ConfirmOrder => Some(Action::Click {
                target: patient_locator("(//div[@class='appBoxChildren appBlockChildren'])[last()]/button[1]"),
            }),
            PaymentStep::MakePayment => Some(Action::Click { target: patient_locator("//button[@id='submit_btn']") }),
            PaymentStep::SettleCardForm => Some(Action::Pause { seconds: 5 }),
            PaymentStep::EnterCardOwner => Some(Action::TypeText {
                target: patient_locator("//input[@name='trnCardOwner']"),
                text: cfg.card_name.clone(),
            }),
            PaymentStep::EnterCardNumber => Some(Action::TypeText {
                target: patient_locator("//input[@name='trnCardNumber']"),
                text: cfg.card_number.clone(),
            }),
            PaymentStep::EnterExpiryMonth => Some(Action::TypeText {
                target: patient_locator("//input[@id='trnExpMonth']"),
                text: cfg.card_month.clone(),
            }),
            PaymentStep::EnterExpiryYear => Some(Action::TypeText {
                target: patient_locator("//input[@id='trnExpYear']"),
                text: cfg.card_year.clone(),
            }),
            PaymentStep::EnterCvv => Some(Action::TypeText {
                target: patient_locator("//input[@name='trnCardCvd']"),
                text: cfg.card_cvv.clone(),
            }),
            PaymentStep::SubmitPayment => Some(Action::Click { target: patient_locator("//button[@id='submitButton']") }),
            PaymentStep::Paid => None,
        }
    }
}

/// A search that found nothing never starts the checkout.
pub proof fn lemma_no_results_no_payment(o: SearchOutcome)
    requires
        o matches SearchOutcome::NoResults,
    ensures
        payment_entry(o).is_none(),
{
}

/// A certificate of status goes from the product page straight to the
/// email fields and their submit button: it never picks the current report
/// nor selects all documents, whatever step the checkout is at.
pub proof fn lemma_certificate_skips_product_options(s: PaymentStep)
    requires
        s != PaymentStep::ChooseCurrentReport,
        s != PaymentStep::SelectAllDocuments,
        s != PaymentStep::SettleProductForm,
    ensures
        next_payment_step(ProductKind::CertificateOfStatus, PaymentStep::ContinueToProduct) == PaymentStep::FillEmails,
        next_payment_step(ProductKind::CertificateOfStatus, PaymentStep::FillEmails) == PaymentStep::SubmitProduct,
        next_payment_step(ProductKind::CertificateOfStatus, s) != PaymentStep::ChooseCurrentReport,
        next_payment_step(ProductKind::CertificateOfStatus, s) != PaymentStep::SelectAllDocuments,
        next_payment_step(ProductKind::CertificateOfStatus, s) != PaymentStep::SettleProductForm,
{
}

} // verus!
