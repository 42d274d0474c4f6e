use vstd::prelude::*;

verus! {

/// An XPath expression together with its wait policy: how long to keep
/// polling for a match in total, and how long to wait between polls.
pub struct Locator {
    pub xpath: String,
    pub timeout_secs: u64,
    pub poll_secs: u64,
}

pub struct LocatorView {
    pub xpath: Seq<char>,
    pub timeout_secs: u64,
    pub poll_secs: u64,
}

impl View for Locator {
    type V = LocatorView;

    open spec fn view(&self) -> LocatorView {
        LocatorView { xpath: self.xpath@, timeout_secs: self.timeout_secs, poll_secs: self.poll_secs }
    }
}

/// One thing to do to the page. Every element is reached through a locator
/// wait; `Pause` is a fixed delay for a transition that shows no DOM signal.
pub enum Action {
    /// Wait for the first match and click it.
    Click { target: Locator },
    /// Wait for the first match and type the text into it.
    TypeText { target: Locator, text: String },
    /// Wait for the matches and type the text into every one of them.
    FillAll { target: Locator, text: String },
    /// Wait for the first match and send it the Enter key.
    PressEnter { target: Locator },
    /// Sleep for a fixed number of seconds.
    Pause { seconds: u64 },
    /// Report whether a match appears before the locator's timeout.
    Probe { target: Locator },
    /// Report the page's current location.
    ReadLocation,
}

pub enum ActionView {
    Click { target: LocatorView },
    TypeText { target: LocatorView, text: Seq<char> },
    FillAll { target: LocatorView, text: Seq<char> },
    PressEnter { target: LocatorView },
    Pause { seconds: u64 },
    Probe { target: LocatorView },
    ReadLocation,
}

impl View for Action {
    type V = ActionView;

    open spec fn view(&self) -> ActionView {
        match self {
            Action::Click { target } => ActionView::Click { target: target@ },
            Action::TypeText { target, text } => ActionView::TypeText { target: target@, text: text@ },
            Action::FillAll { target, text } => ActionView::FillAll { target: target@, text: text@ },
            Action::PressEnter { target } => ActionView::PressEnter { target: target@ },
            Action::Pause { seconds } => ActionView::Pause { seconds: *seconds },
            Action::Probe { target } => ActionView::Probe { target: target@ },
            Action::ReadLocation => ActionView::ReadLocation,
        }
    }
}

/// What performing an action reported back.
#[derive(Clone, Copy, Debug, PartialEq, Eq, Structural)]
pub enum StepEvent {
    /// The action was carried out.
    Completed,
    /// A probe found a match.
    Found,
    /// A probe timed out without a match.
    NotFound,
}

/// The per-step wait used throughout the portal: twenty seconds, polling
/// every second.
pub open spec fn patient(xpath: Seq<char>) -> LocatorView {
    LocatorView { xpath, timeout_secs: 20, poll_secs: 1 }
}

pub fn patient_locator(xpath: &str) -> (r: Locator)
    ensures
        r@ == patient(xpath@),
{
    Locator { xpath: String::from_str(xpath), timeout_secs: 20, poll_secs: 1 }
}

/// `//option[contains(text(), '<label>')]`
pub open spec fn option_xpath(label: Seq<char>) -> Seq<char> {
    "//option[contains(text(), '"@ + label + "')]"@
}

/// `//span[contains(text(), '<text>')]`
pub open spec fn span_xpath(text: Seq<char>) -> Seq<char> {
    "//span[contains(text(), '"@ + text + "')]"@
}

/// `//label[contains(text(), '<text>')]`
pub open spec fn label_xpath(text: Seq<char>) -> Seq<char> {
    "//label[contains(text(), '"@ + text + "')]"@
}

fn wrap(prefix: &str, middle: &str, suffix: &str) -> (r: String)
    ensures
        r@ == prefix@ + middle@ + suffix@,
{
    String::from_str(prefix).concat(middle).concat(suffix)
}

pub fn option_xpath_of(label: &str) -> (r: String)
    ensures
        r@ == option_xpath(label@),
{
    wrap("//option[contains(text(), '", label, "')]")
}

pub fn span_xpath_of(text: &str) -> (r: String)
    ensures
        r@ == span_xpath(text@),
{
    wrap("//span[contains(text(), '", text, "')]")
}

pub fn label_xpath_of(text: &str) -> (r: String)
    ensures
        r@ == label_xpath(text@),
{
    wrap("//label[contains(text(), '", text, "')]")
}

} // verus!
