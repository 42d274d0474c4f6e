use vstd::prelude::*;

verus! {

/// Filing status filter of a search.
#[derive(Clone, Copy, Debug, PartialEq, Eq, Structural)]
pub enum StatusKey {
    Active,
    Inactive,
    All,
}

/// Which register a search runs against.
#[derive(Clone, Copy, Debug, PartialEq, Eq, Hash, Structural)]
pub enum RegisterType {
    All,
    Corporations,
    BusinessNames,
    Partnerships,
}

/// How the registration date filter compares.
#[derive(Clone, Copy, Debug, PartialEq, Eq, Structural)]
pub enum SearchOperator {
    On,
    Before,
    FromOrOn,
    Between,
}

/// Why a set of criteria was refused before any browser work.
#[derive(Clone, Copy, Debug, PartialEq, Eq, Structural)]
pub enum ValidationError {
    /// A date is not written as "Month Day, Year".
    InvalidDate,
    /// The business type is not offered under the chosen register.
    InvalidBusinessType { register_type: RegisterType },
}

pub open spec fn is_upper(c: char) -> bool {
    'A' <= c && c <= 'Z'
}

pub open spec fn is_lower(c: char) -> bool {
    'a' <= c && c <= 'z'
}

pub open spec fn is_digit(c: char) -> bool {
    '0' <= c && c <= '9'
}

pub open spec fn all_digits(s: Seq<char>) -> bool {
    forall|i: int| 0 <= i < s.len() ==> is_digit(#[trigger] s[i])
}

/// A capital letter followed by one or more lower-case letters.
pub open spec fn is_month_word(m: Seq<char>) -> bool {
    m.len() >= 2 && is_upper(m[0]) && forall|i: int| 1 <= i < m.len() ==> is_lower(#[trigger] m[i])
}

/// One or two digits, a comma, a space and four digits.
pub open spec fn is_day_year(t: Seq<char>) -> bool {
    exists|d: int|
        1 <= d <= 2 && t.len() == d + 6 && all_digits(#[trigger] t.subrange(0, d)) && t[d] == ','
            && t[d + 1] == ' ' && all_digits(t.subrange(d + 2, d + 6))
}

/// The text is written as "Month Day, Year", e.g. "January 1, 2021".
pub open spec fn is_month_day_year(s: Seq<char>) -> bool {
    exists|k: int|
        0 < k < s.len() && is_month_word(#[trigger] s.subrange(0, k)) && s[k] == ' '
            && is_day_year(s.subrange(k + 1, s.len() as int))
}

/// Relies on regex::Regex::is_match for the anchored pattern
/// `^[A-Z][a-z]+ [0-9]{1,2}, [0-9]{4}$`, which matches exactly the texts
/// that `is_month_day_year` describes.
#[verifier::external_body]
fn matches_month_day_year(s: &str) -> (r: bool)
    ensures
        r == is_month_day_year(s@),
{
    regex::Regex::new(r"^([A-Z][a-z]+) ([0-9]{1,2}), ([0-9]{4})$").map(|re| re.is_match(s)).unwrap_or(false)
}

/// A date written as "Month Day, Year".
#[derive(Clone, Debug)]
pub struct DateInput {
    text: String,
}

impl DateInput {
    pub closed spec fn text(&self) -> Seq<char> {
        self.text@
    }

    pub open spec fn wf(&self) -> bool {
        is_month_day_year(self.text())
    }

    /// Accepts the text exactly when it is written as "Month Day, Year".
    pub fn try_from(value: String) -> (r: Result<DateInput, ValidationError>)
        ensures
            is_month_day_year(value@) <==> r.is_ok(),
            r matches Ok(d) ==> d.text() == value@ && d.wf(),
            r matches Err(e) ==> e == ValidationError::InvalidDate,
    {
        if matches_month_day_year(value.as_str()) {
            Ok(DateInput { text: value })
        } else {
            Err(ValidationError::InvalidDate)
        }
    }

    pub fn as_str(&self) -> (r: &str)
        ensures
            r@ == self.text(),
    {
        self.text.as_str()
    }
}

/// The label the portal shows for a register.
pub open spec fn register_label(r: RegisterType) -> Seq<char> {
    match r {
        RegisterType::All => "-- All Registers --"@,
        RegisterType::Corporations => "Corporations"@,
        RegisterType::BusinessNames => "Business Names"@,
        RegisterType::Partnerships => "Partnerships"@,
    }
}

/// The label the portal shows for a status.
pub open spec fn status_label(s: StatusKey) -> Seq<char> {
    match s {
        StatusKey::Active => "Active"@,
        StatusKey::Inactive => "Inactive"@,
        StatusKey::All => "-- All Statuses --"@,
    }
}

/// The label the portal shows for a date operator.
pub open spec fn operator_label(o: SearchOperator) -> Seq<char> {
    match o {
        SearchOperator::On => "On"@,
        SearchOperator::Before => "Before"@,
        SearchOperator::FromOrOn => "From or On"@,
        SearchOperator::Between => "Between"@,
    }
}

impl RegisterType {
    pub fn label(&self) -> (r: &'static str)
        ensures
            r@ == register_label(*self),
    {
        match self {
            RegisterType::All => "-- All Registers --",
            RegisterType::Corporations => "Corporations",
            RegisterType::BusinessNames => "Business Names",
            RegisterType::Partnerships => "Partnerships",
        }
    }
}

impl StatusKey {
    pub fn label(&self) -> (r: &'static str)
        ensures
            r@ == status_label(*self),
    {
        match self {
            StatusKey::Active => "Active",
            StatusKey::Inactive => "Inactive",
            StatusKey::All => "-- All Statuses --",
        }
    }
}

impl SearchOperator {
    pub fn label(&self) -> (r: &'static str)
        ensures
            r@ == operator_label(*self),
    {
        match self {
            SearchOperator::On => "On",
            SearchOperator::Before => "Before",
            SearchOperator::FromOrOn => "From or On",
            SearchOperator::Between => "Between",
        }
    }
}

/// The sentinel business type that stands for "any type".
pub open spec fn any_business_type() -> Seq<char> {
    "-- Any type --"@
}

/// The business types the portal offers under a specific register.
pub open spec fn allowed_business_types(r: RegisterType) -> Seq<Seq<char>> {
    match r {
        RegisterType::All => seq![],
        _ => seq![any_business_type()],
    }
}

/// A business type may be combined with a register: any type goes with no
/// register or with all registers; under a specific register it must be the
/// sentinel or one of that register's types.
pub open spec fn business_type_fits(r: Option<RegisterType>, b: Option<Seq<char>>) -> bool {
    match (r, b) {
        (Some(rt), Some(bt)) => rt == RegisterType::All || bt == any_business_type()
            || allowed_business_types(rt).contains(bt),
        _ => true,
    }
}

/// Character-wise equality of two strings.
pub fn str_equal(a: &str, b: &str) -> (r: bool)
    ensures
        r == (a@ == b@),
{
    let n: usize = a.unicode_len();
    if n != b.unicode_len() {
        return false;
    }
    let mut i: usize = 0;
    while i < n
        invariant
            n == a@.len(),
            n == b@.len(),
            0 <= i <= n,
            forall|j: int| 0 <= j < i ==> a@[j] == b@[j],
        decreases n - i,
    {
        if a.get_char(i) != b.get_char(i) {
            return false;
        }
        i = i + 1;
    }
    assert(a@ =~= b@);
    true
}

fn business_types_of(r: RegisterType) -> (v: Vec<&'static str>)
    ensures
        v@.len() == allowed_business_types(r).len(),
        forall|i: int| 0 <= i < v@.len() ==> (#[trigger] v@[i])@ == allowed_business_types(r)[i],
{
    match r {
        RegisterType::All => Vec::new(),
        _ => {
            let mut v: Vec<&'static str> = Vec::new();
            v.push("-- Any type --");
            v
        },
    }
}

fn is_listed_business_type(r: RegisterType, b: &str) -> (res: bool)
    ensures
        res == allowed_business_types(r).contains(b@),
{
    let types = business_types_of(r);
    let mut i: usize = 0;
    while i < types.len()
        invariant
            0 <= i <= types@.len(),
            types@.len() == allowed_business_types(r).len(),
            forall|k: int| 0 <= k < types@.len() ==> (#[trigger] types@[k])@ == allowed_business_types(r)[k],
            forall|k: int| 0 <= k < i ==> allowed_business_types(r)[k] != b@,
        decreases types@.len() - i,
    {
        if str_equal(types[i], b) {
            assert(allowed_business_types(r)[i as int] == b@);
            return true;
        }
        i = i + 1;
    }
    proof {
        if allowed_business_types(r).contains(b@) {
            let k = choose|k: int| 0 <= k < allowed_business_types(r).len() && allowed_business_types(r)[k] == b@;
            assert(allowed_business_types(r)[k] != b@);
        }
    }
    false
}

/// Search criteria as they arrive, before the register/business-type check.
pub struct SearchBusinessRegistryParamsShadow {
    pub query_word: String,
    pub register_type_key: Option<RegisterType>,
    pub business_type_selection: Option<String>,
    pub status_key: Option<StatusKey>,
    pub date_input: Option<DateInput>,
    pub search_operator: Option<SearchOperator>,
    pub end_date: Option<DateInput>,
}

/// Validated search criteria; immutable for the length of a workflow attempt.
pub struct SearchBusinessRegistryParams {
    pub query_word: String,
    pub register_type_key: Option<RegisterType>,
    pub business_type_selection: Option<String>,
    pub status_key: Option<StatusKey>,
    pub date_input: Option<DateInput>,
    pub search_operator: Option<SearchOperator>,
    pub end_date: Option<DateInput>,
}

pub open spec fn opt_view(o: Option<String>) -> Option<Seq<char>> {
    match o {
        Some(s) => Some(s@),
        None => None,
    }
}

pub open spec fn opt_date(o: Option<DateInput>) -> Option<Seq<char>> {
    match o {
        Some(d) => Some(d.text()),
        None => None,
    }
}

impl SearchBusinessRegistryParams {
    /// Every field of `self` equals the corresponding field of `v`.
    pub open spec fn same_as(&self, v: SearchBusinessRegistryParamsShadow) -> bool {
        &&& self.query_word@ == v.query_word@
        &&& self.register_type_key == v.register_type_key
        &&& opt_view(self.business_type_selection) == opt_view(v.business_type_selection)
        &&& self.status_key == v.status_key
        &&& opt_date(self.date_input) == opt_date(v.date_input)
        &&& self.search_operator == v.search_operator
        &&& opt_date(self.end_date) == opt_date(v.end_date)
    }

    /// Accepts the criteria exactly when the business type fits the register.
    pub fn try_from(value: SearchBusinessRegistryParamsShadow) -> (r: Result<Self, ValidationError>)
        ensures
            business_type_fits(value.register_type_key, opt_view(value.business_type_selection))
                <==> r.is_ok(),
            r matches Ok(p) ==> p.same_as(value),
            r matches Err(e) ==> value.register_type_key matches Some(rt) && e
                == (ValidationError::InvalidBusinessType { register_type: rt }),
    {
        if let Some(rt) = value.register_type_key {
            if let Some(b) = &value.business_type_selection {
                if rt != RegisterType::All && !str_equal(b.as_str(), "-- Any type --")
                    && !is_listed_business_type(rt, b.as_str()) {
                    return Err(ValidationError::InvalidBusinessType { register_type: rt });
                }
            }
        }
        Ok(SearchBusinessRegistryParams {
            query_word: value.query_word,
            register_type_key: value.register_type_key,
            business_type_selection: value.business_type_selection,
            status_key: value.status_key,
            date_input: value.date_input,
            search_operator: value.search_operator,
            end_date: value.end_date,
        })
    }

    /// The date operator's end date, which only the between operator reads.
    pub fn effective_end_date(&self) -> (r: Option<&DateInput>)
        ensures
            self.search_operator != Some(SearchOperator::Between) ==> r.is_none(),
            self.search_operator == Some(SearchOperator::Between) ==> match r {
                Some(d) => opt_date(self.end_date) == Some(d.text()),
                None => self.end_date.is_none(),
            },
    {
        match self.search_operator {
            Some(SearchOperator::Between) => self.end_date.as_ref(),
            _ => None,
        }
    }
}

} // verus!
