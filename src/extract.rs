use vstd::prelude::*;
use crate::criteria::str_equal;

verus! {

/// Why a fetched page could not be turned into a record. Every error of
/// the detail page names the position of the section it arose in.
#[derive(Clone, Copy, Debug, PartialEq, Eq, Structural)]
pub enum ExtractionError {
    /// The page has no section at this position.
    MissingSection { index: usize },
    /// An element the section always holds is missing.
    MissingElement { section: usize },
    /// A table of the section has a cell without a partner.
    MalformedField { section: usize },
    /// A listing row lacks one of its four spans, the name link, or a colon
    /// in a labelled line.
    MalformedListingRow,
}

/// Unicode White_Space, the set `char::is_whitespace` tests for.
pub open spec fn is_space(c: char) -> bool {
    ('\u{9}' <= c && c <= '\u{d}') || c == ' ' || c == '\u{85}' || c == '\u{a0}' || c == '\u{1680}'
        || ('\u{2000}' <= c && c <= '\u{200a}') || c == '\u{2028}' || c == '\u{2029}' || c
        == '\u{202f}' || c == '\u{205f}' || c == '\u{3000}'
}

pub open spec fn trim_start(s: Seq<char>) -> Seq<char>
    decreases s.len(),
{
    if s.len() > 0 && is_space(s[0]) {
        trim_start(s.drop_first())
    } else {
        s
    }
}

pub open spec fn trim_end(s: Seq<char>) -> Seq<char>
    decreases s.len(),
{
    if s.len() > 0 && is_space(s.last()) {
        trim_end(s.drop_last())
    } else {
        s
    }
}

/// The text without leading and trailing white space.
pub open spec fn trim(s: Seq<char>) -> Seq<char> {
    trim_end(trim_start(s))
}

/// Relies on str::trim, documented to remove leading and trailing
/// characters with the Unicode White_Space property.
#[verifier::external_body]
pub(crate) fn trimmed(s: &str) -> (r: &str)
    ensures
        r@ == trim(s@),
{
    s.trim()
}

/// Relies on str::replace, documented to replace every match of the
/// pattern: here every hyphen by nothing.
#[verifier::external_body]
fn without_hyphens(s: &str) -> (r: String)
    ensures
        r@ == s@.filter(|c: char| c != '-'),
{
    s.replace('-', "")
}

/// What follows the first `sep`, if there is one.
pub open spec fn after_first(s: Seq<char>, sep: char) -> Option<Seq<char>>
    decreases s.len(),
{
    if s.len() == 0 {
        None
    } else if s[0] == sep {
        Some(s.drop_first())
    } else {
        after_first(s.drop_first(), sep)
    }
}

/// What comes before the first `sep`, or all of it.
pub open spec fn before_first(s: Seq<char>, sep: char) -> Seq<char>
    decreases s.len(),
{
    if s.len() == 0 {
        s
    } else if s[0] == sep {
        Seq::empty()
    } else {
        seq![s[0]] + before_first(s.drop_first(), sep)
    }
}

/// The second piece of `s` split at `sep`, if `s` holds `sep`.
pub open spec fn second_piece(s: Seq<char>, sep: char) -> Option<Seq<char>> {
    match after_first(s, sep) {
        Some(rest) => Some(before_first(rest, sep)),
        None => None,
    }
}

proof fn lemma_pieces_step(s: Seq<char>, i: int, sep: char)
    requires
        0 <= i < s.len(),
        s[i] != sep,
    ensures
        after_first(s.subrange(i, s.len() as int), sep) == after_first(s.subrange(i + 1, s.len() as int), sep),
        before_first(s.subrange(i, s.len() as int), sep) == seq![s[i]] + before_first(
            s.subrange(i + 1, s.len() as int),
            sep,
        ),
{
    assert(s.subrange(i, s.len() as int).drop_first() =~= s.subrange(i + 1, s.len() as int));
}

/// The index of the first `sep` at or after `from`, or the length.
fn find_from(s: &str, sep: char, from: usize) -> (r: usize)
    requires
        from <= s@.len(),
    ensures
        from <= r <= s@.len(),
        r < s@.len() ==> s@[r as int] == sep,
        forall|j: int| from <= j < r ==> s@[j] != sep,
{
    let n: usize = s.unicode_len();
    let mut i: usize = from;
    while i < n
        invariant
            n == s@.len(),
            from <= i <= n,
            forall|j: int| from <= j < i ==> s@[j] != sep,
        decreases n - i,
    {
        if s.get_char(i) == sep {
            return i;
        }
        i = i + 1;
    }
    i
}

proof fn lemma_skip_to(s: Seq<char>, from: int, to: int, sep: char)
    requires
        0 <= from <= to <= s.len(),
        forall|j: int| from <= j < to ==> s[j] != sep,
    ensures
        after_first(s.subrange(from, s.len() as int), sep) == after_first(s.subrange(to, s.len() as int), sep),
        before_first(s.subrange(from, s.len() as int), sep) == s.subrange(from, to) + before_first(
            s.subrange(to, s.len() as int),
            sep,
        ),
    decreases to - from,
{
    if from < to {
        lemma_pieces_step(s, from, sep);
        lemma_skip_to(s, from + 1, to, sep);
        assert(seq![s[from]] + s.subrange(from + 1, to) =~= s.subrange(from, to));
    } else {
        assert(s.subrange(from, to) =~= Seq::<char>::empty());
    }
}

/// The first and second pieces of `s` split at `sep`; none when `s` holds
/// no `sep`.
pub fn split_two(s: &str, sep: char) -> (r: Option<(String, String)>)
    ensures
        match second_piece(s@, sep) {
            Some(p) => r matches Some(t) && t.0@ == before_first(s@, sep) && t.1@ == p,
            None => r.is_none(),
        },
{
    let n: usize = s.unicode_len();
    let i: usize = find_from(s, sep, 0);
    proof {
        lemma_skip_to(s@, 0, i as int, sep);
        assert(s@.subrange(0, n as int) =~= s@);
    }
    if i == n {
        assert(s@.subrange(n as int, n as int) =~= Seq::<char>::empty());
        return None;
    }
    let j: usize = find_from(s, sep, i + 1);
    proof {
        let rest = s@.subrange(i + 1, n as int);
        assert(s@.subrange(i as int, n as int).drop_first() =~= rest);
        assert(after_first(s@, sep) == Some(rest));
        assert(before_first(s@.subrange(i as int, n as int), sep) =~= Seq::<char>::empty());
        assert(before_first(s@, sep) =~= s@.subrange(0, i as int));
        assert forall|k: int| 0 <= k < j - (i + 1) implies rest[k] != sep by {
            assert(rest[k] == s@[k + i + 1]);
        }
        lemma_skip_to(rest, 0, j - (i + 1), sep);
        assert(rest.subrange(0, rest.len() as int) =~= rest);
        assert(rest.subrange(0, j - (i + 1)) =~= s@.subrange(i + 1, j as int));
        if j < n {
            assert(rest[j - (i + 1)] == sep);
            assert(before_first(rest.subrange(j - (i + 1), rest.len() as int), sep) =~= Seq::<char>::empty());
        } else {
            assert(rest.subrange(j - (i + 1), rest.len() as int) =~= Seq::<char>::empty());
        }
        assert(before_first(rest, sep) =~= s@.subrange(i + 1, j as int));
    }
    let first = String::from_str(s.substring_char(0, i));
    let second = String::from_str(s.substring_char(i + 1, j));
    Some((first, second))
}

/// The second piece of `s` split at `sep`, trimmed; none when `s` holds no
/// `sep`.
pub fn second_piece_trimmed(s: &str, sep: char) -> (r: Option<String>)
    ensures
        match second_piece(s@, sep) {
            Some(p) => r matches Some(t) && t@ == trim(p),
            None => r.is_none(),
        },
{
    match split_two(s, sep) {
        Some((_, second)) => Some(String::from_str(trimmed(second.as_str()))),
        None => None,
    }
}

/// One row of the paginated listing.
pub struct ListingRow {
    pub business_name: String,
    pub status: String,
    pub corporation_number: String,
    pub business_number: String,
}

/// The value of a `Label: value` line: the text between the first colon
/// and the next one (or the end), trimmed.
pub open spec fn labelled_value(line: Seq<char>) -> Option<Seq<char>> {
    match second_piece(line, ':') {
        Some(p) => Some(trim(p)),
        None => None,
    }
}

/// A corporation number with its separators taken out.
pub open spec fn digits_only(s: Seq<char>) -> Seq<char> {
    s.filter(|c: char| c != '-')
}

/// Builds a listing row from the business name and the three labelled
/// lines that follow it ("Status: Active", "Corporation Number: 123-456",
/// "Business Number: ..."); none when a line has no colon.
pub fn parse_listing_row(
    business_name: String,
    status_line: &str,
    number_line: &str,
    business_number_line: &str,
) -> (r: Option<ListingRow>)
    ensures
        (labelled_value(status_line@).is_some() && labelled_value(number_line@).is_some()
            && labelled_value(business_number_line@).is_some()) <==> r.is_some(),
        r matches Some(row) ==> {
            &&& row.business_name@ == business_name@
            &&& Some(row.status@) == labelled_value(status_line@)
            &&& row.corporation_number@ == digits_only(labelled_value(number_line@).unwrap())
            &&& Some(row.business_number@) == labelled_value(business_number_line@)
        },
{
    let status = match second_piece_trimmed(status_line, ':') {
        Some(v) => v,
        None => return None,
    };
    let number = match second_piece_trimmed(number_line, ':') {
        Some(v) => v,
        None => return None,
    };
    let business_number = match second_piece_trimmed(business_number_line, ':') {
        Some(v) => v,
        None => return None,
    };
    Some(ListingRow {
        business_name,
        status,
        corporation_number: without_hyphens(number.as_str()),
        business_number,
    })
}

/// Whether another listing page should be fetched: the current page links
/// to a next one and the rows gathered so far are below the cap (no cap when
/// none is given).
pub open spec fn wants_next_page(has_next: bool, gathered: nat, cap: Option<usize>) -> bool {
    has_next && match cap {
        Some(c) => gathered < c,
        None => true,
    }
}

pub fn should_fetch_next_page(has_next: bool, gathered: usize, cap: Option<usize>) -> (r: bool)
    ensures
        r == wants_next_page(has_next, gathered as nat, cap),
{
    has_next && match cap {
        Some(c) => gathered < c,
        None => true,
    }
}

pub open spec fn views(v: Seq<String>) -> Seq<Seq<char>> {
    v.map_values(|p: String| p@)
}

pub open spec fn pair_views(v: Seq<(String, String)>) -> Seq<(Seq<char>, Seq<char>)> {
    v.map_values(|p: (String, String)| (p.0@, p.1@))
}

/// The parts written one after another with `sep` between each two.
pub open spec fn join_with(parts: Seq<Seq<char>>, sep: Seq<char>) -> Seq<char>
    decreases parts.len(),
{
    if parts.len() == 0 {
        Seq::empty()
    } else if parts.len() == 1 {
        parts[0]
    } else {
        join_with(parts.drop_last(), sep) + sep + parts.last()
    }
}

pub open spec fn trim_each(parts: Seq<Seq<char>>) -> Seq<Seq<char>> {
    parts.map_values(|p: Seq<char>| trim(p))
}

/// The trimmed parts that are not empty once trimmed, in order.
pub open spec fn kept_trimmed(parts: Seq<Seq<char>>) -> Seq<Seq<char>>
    decreases parts.len(),
{
    if parts.len() == 0 {
        Seq::empty()
    } else if trim(parts.last()).len() == 0 {
        kept_trimmed(parts.drop_last())
    } else {
        kept_trimmed(parts.drop_last()).push(trim(parts.last()))
    }
}

/// Joins the parts with `sep` between each two.
pub fn join_strings(parts: &Vec<String>, sep: &str) -> (r: String)
    ensures
        r@ == join_with(views(parts@), sep@),
{
    let mut acc = String::new();
    let mut i: usize = 0;
    while i < parts.len()
        invariant
            0 <= i <= parts@.len(),
            acc@ == join_with(views(parts@.subrange(0, i as int)), sep@),
        decreases parts@.len() - i,
    {
        proof {
            let next = views(parts@.subrange(0, i as int + 1));
            assert(next.drop_last() =~= views(parts@.subrange(0, i as int)));
            assert(next.last() == parts@[i as int]@);
            if i == 0 {
                assert(views(parts@.subrange(0, 0)) =~= Seq::<Seq<char>>::empty());
                assert(next.len() == 1);
            }
        }
        if i > 0 {
            acc.append(sep);
        }
        acc.append(parts[i].as_str());
        if i == 0 {
            assert(acc@ =~= parts@[0]@);
        }
        i = i + 1;
    }
    assert(parts@.subrange(0, parts@.len() as int) =~= parts@);
    acc
}

/// Each part trimmed.
pub fn trim_all(parts: &Vec<String>) -> (r: Vec<String>)
    ensures
        r@.len() == parts@.len(),
        views(r@) == trim_each(views(parts@)),
{
    let mut out: Vec<String> = Vec::new();
    let mut i: usize = 0;
    while i < parts.len()
        invariant
            0 <= i <= parts@.len(),
            out@.len() == i,
            views(out@) =~= trim_each(views(parts@.subrange(0, i as int))),
        decreases parts@.len() - i,
    {
        let ghost before = out@;
        let t = String::from_str(trimmed(parts[i].as_str()));
        out.push(t);
        assert(views(parts@.subrange(0, i as int + 1)) =~= views(parts@.subrange(0, i as int)).push(parts@[i as int]@));
        assert(views(out@) =~= views(before).push(t@));
        assert(trim_each(views(parts@.subrange(0, i as int + 1))) =~= trim_each(views(parts@.subrange(0, i as int))).push(trim(parts@[i as int]@)));
        i = i + 1;
    }
    assert(parts@.subrange(0, parts@.len() as int) =~= parts@);
    out
}

/// The trimmed text nodes run together: how a label or a cell is read.
pub fn joined_text(nodes: &Vec<String>) -> (r: String)
    ensures
        r@ == join_with(trim_each(views(nodes@)), Seq::empty()),
{
    let t = trim_all(nodes);
    proof {
        reveal_strlit("");
        assert(""@ =~= Seq::<char>::empty());
    }
    join_strings(&t, "")
}

/// An address: the text fragments trimmed, the empty ones dropped, the rest
/// joined with ", ".
pub fn address_from_fragments(fragments: &Vec<String>) -> (r: String)
    ensures
        r@ == join_with(kept_trimmed(views(fragments@)), ", "@),
{
    address_like_join(fragments, ", ")
}

/// A director's roster entry: the first trimmed line is the name, the
/// other trimmed lines joined with ", " the address. None for no lines.
pub fn director_entry(lines: &Vec<String>) -> (r: Option<(String, String)>)
    ensures
        lines@.len() == 0 <==> r.is_none(),
        r matches Some(e) ==> e.0@ == trim(lines@[0]@) && e.1@ == join_with(
            trim_each(views(lines@).drop_first()),
            ", "@,
        ),
{
    if lines.len() == 0 {
        return None;
    }
    let t = trim_all(lines);
    let name = t[0].clone();
    let mut rest: Vec<String> = Vec::new();
    let mut i: usize = 1;
    while i < t.len()
        invariant
            1 <= i <= t@.len(),
            t@.len() == lines@.len(),
            views(t@) == trim_each(views(lines@)),
            views(rest@) =~= views(t@).subrange(1, i as int),
        decreases t@.len() - i,
    {
        let c = t[i].clone();
        rest.push(c);
        assert(views(t@).subrange(1, i as int + 1) =~= views(t@).subrange(1, i as int).push(t@[i as int]@));
        assert(views(rest@) =~= views(t@).subrange(1, i as int).push(t@[i as int]@));
        i = i + 1;
    }
    assert(views(t@).subrange(1, t@.len() as int) =~= trim_each(views(lines@).drop_first()));
    assert(views(t@)[0] == t@[0]@);
    Some((name, join_strings(&rest, ", ")))
}

/// Consecutive cells taken two by two as label and value; none when a
/// cell is left without a partner.
pub open spec fn cell_pairs(cells: Seq<Seq<char>>) -> Seq<(Seq<char>, Seq<char>)> {
    Seq::new(cells.len() / 2, |i: int| (cells[2 * i], cells[2 * i + 1]))
}

pub fn pair_cells(cells: &Vec<String>) -> (r: Option<Vec<(String, String)>>)
    ensures
        cells@.len() % 2 == 0 <==> r.is_some(),
        r matches Some(v) ==> pair_views(v@) == cell_pairs(views(cells@)),
{
    if cells.len() % 2 != 0 {
        return None;
    }
    let mut out: Vec<(String, String)> = Vec::new();
    let mut i: usize = 0;
    while i < cells.len() / 2
        invariant
            pair_views(out@).len() == out@.len(),
            cells@.len() % 2 == 0,
            0 <= i <= cells@.len() / 2,
            pair_views(out@) =~= cell_pairs(views(cells@)).subrange(0, i as int),
        decreases cells@.len() / 2 - i,
    {
        let a = cells[2 * i].clone();
        let b = cells[2 * i + 1].clone();
        let ghost before = out@;
        out.push((a, b));
        assert(cell_pairs(views(cells@)).subrange(0, i as int + 1) =~= cell_pairs(views(cells@)).subrange(
            0,
            i as int,
        ).push((cells@[2 * i as int]@, cells@[2 * i as int + 1]@)));
        assert(pair_views(out@) =~= pair_views(before).push((a@, b@)));
        i = i + 1;
    }
    assert(cell_pairs(views(cells@)).subrange(0, (cells@.len() / 2) as int) =~= cell_pairs(views(cells@)));
    Some(out)
}

/// The label-value pairs of a status list: each item split at its hyphens
/// gives its first piece as label and its second as value; an item without
/// a hyphen gives no pair.
pub open spec fn hyphen_pairs(items: Seq<Seq<char>>) -> Seq<(Seq<char>, Seq<char>)>
    decreases items.len(),
{
    if items.len() == 0 {
        Seq::empty()
    } else {
        match second_piece(items.last(), '-') {
            Some(v) => hyphen_pairs(items.drop_last()).push((before_first(items.last(), '-'), v)),
            None => hyphen_pairs(items.drop_last()),
        }
    }
}

pub fn pairs_from_items(items: &Vec<String>) -> (r: Vec<(String, String)>)
    ensures
        pair_views(r@) == hyphen_pairs(views(items@)),
{
    let mut out: Vec<(String, String)> = Vec::new();
    let mut i: usize = 0;
    while i < items.len()
        invariant
            0 <= i <= items@.len(),
            pair_views(out@) =~= hyphen_pairs(views(items@.subrange(0, i as int))),
        decreases items@.len() - i,
    {
        proof {
            let next = views(items@.subrange(0, i as int + 1));
            assert(next.drop_last() =~= views(items@.subrange(0, i as int)));
            assert(next.last() == items@[i as int]@);
        }
        match split_two(items[i].as_str(), '-') {
            Some(p) => out.push(p),
            None => {},
        }
        i = i + 1;
    }
    assert(items@.subrange(0, items@.len() as int) =~= items@);
    out
}

/// The value of an annual-filings row: plain text, or the label-value
/// pairs of a status list.
pub enum FilingValue {
    Plain(String),
    LabeledList(Vec<(String, String)>),
}

/// The label of the one annual-filings row whose value is a list.
pub open spec fn filing_status_label() -> Seq<char> {
    "Status of Annual Filings"@
}

/// The value of an annual-filings row with the given label: for the filing
/// status row the pairs of its list items, for every other row the plain
/// text.
pub fn filing_value(label: &str, plain: String, items: &Vec<String>) -> (r: FilingValue)
    ensures
        label@ == filing_status_label() ==> (r matches FilingValue::LabeledList(v) && pair_views(v@)
            == hyphen_pairs(views(items@))),
        label@ != filing_status_label() ==> (r matches FilingValue::Plain(t) && t@ == plain@),
{
    if str_equal(label, "Status of Annual Filings") {
        FilingValue::LabeledList(pairs_from_items(items))
    } else {
        FilingValue::Plain(plain)
    }
}

/// The pieces of `s` split at every `sep`, as `str::split` gives them.
pub open spec fn pieces(s: Seq<char>, sep: char) -> Seq<Seq<char>>
    decreases s.len(),
{
    if s.len() == 0 {
        seq![Seq::empty()]
    } else if s.last() == sep {
        pieces(s.drop_last(), sep).push(Seq::empty())
    } else {
        let p = pieces(s.drop_last(), sep);
        p.update(p.len() - 1, p.last().push(s.last()))
    }
}

proof fn lemma_pieces_nonempty(s: Seq<char>, sep: char)
    ensures
        pieces(s, sep).len() >= 1,
    decreases s.len(),
{
    if s.len() > 0 {
        lemma_pieces_nonempty(s.drop_last(), sep);
    }
}

/// Splits `s` at every `sep`.
pub fn split_all(s: &str, sep: char) -> (r: Vec<String>)
    ensures
        views(r@) == pieces(s@, sep),
{
    let n: usize = s.unicode_len();
    let mut out: Vec<String> = Vec::new();
    let mut cur = String::new();
    let mut i: usize = 0;
    proof {
        assert(s@.subrange(0, 0) =~= Seq::<char>::empty());
        assert(views(out@).push(cur@) =~= seq![Seq::<char>::empty()]);
    }
    while i < n
        invariant
            n == s@.len(),
            0 <= i <= n,
            views(out@).push(cur@) =~= pieces(s@.subrange(0, i as int), sep),
        decreases n - i,
    {
        let ghost prefix = s@.subrange(0, i as int + 1);
        proof {
            assert(prefix.drop_last() =~= s@.subrange(0, i as int));
            assert(prefix.last() == s@[i as int]);
            lemma_pieces_nonempty(s@.subrange(0, i as int), sep);
        }
        let ghost before_out = views(out@);
        let ghost before_cur = cur@;
        if s.get_char(i) == sep {
            let done = cur;
            out.push(done);
            cur = String::new();
            assert(views(out@) =~= before_out.push(before_cur));
        } else {
            let one = s.substring_char(i, i + 1);
            assert(one@ =~= seq![s@[i as int]]);
            cur.append(one);
            assert(cur@ =~= before_cur.push(s@[i as int]));
            assert(views(out@).push(cur@) =~= (before_out.push(before_cur)).update(
                before_out.len() as int,
                before_cur.push(s@[i as int]),
            ));
        }
        i = i + 1;
    }
    assert(s@.subrange(0, n as int) =~= s@);
    out.push(cur);
    out
}

/// A text node with the white space around each of its space-separated
/// words trimmed and the words joined by single spaces.
pub open spec fn respaced(node: Seq<char>) -> Seq<char> {
    join_with(trim_each(pieces(node, ' ')), " "@)
}

pub open spec fn respaced_all(nodes: Seq<Seq<char>>) -> Seq<Seq<char>> {
    nodes.map_values(|n: Seq<char>| respaced(n))
}

/// The plain value of an annual-filings row: each text node respaced, the
/// nodes run together, the whole trimmed.
pub open spec fn plain_filing_text(nodes: Seq<Seq<char>>) -> Seq<char> {
    trim(join_with(respaced_all(nodes), Seq::empty()))
}

pub fn plain_filing_value(nodes: &Vec<String>) -> (r: String)
    ensures
        r@ == plain_filing_text(views(nodes@)),
{
    let mut parts: Vec<String> = Vec::new();
    let mut i: usize = 0;
    while i < nodes.len()
        invariant
            0 <= i <= nodes@.len(),
            views(parts@) =~= respaced_all(views(nodes@.subrange(0, i as int))),
        decreases nodes@.len() - i,
    {
        let words = split_all(nodes[i].as_str(), ' ');
        let t = trim_all(&words);
        let joined = join_strings(&t, " ");
        let ghost before = views(parts@);
        parts.push(joined);
        assert(views(parts@) =~= before.push(joined@));
        assert(views(nodes@.subrange(0, i as int + 1)) =~= views(nodes@.subrange(0, i as int)).push(nodes@[i as int]@));
        i = i + 1;
    }
    assert(nodes@.subrange(0, nodes@.len() as int) =~= nodes@);
    proof {
        reveal_strlit("");
        assert(""@ =~= Seq::<char>::empty());
    }
    let all = join_strings(&parts, "");
    String::from_str(trimmed(all.as_str()))
}

/// The space-separated words of all the text nodes, in order.
pub open spec fn all_pieces(nodes: Seq<Seq<char>>) -> Seq<Seq<char>>
    decreases nodes.len(),
{
    if nodes.len() == 0 {
        Seq::empty()
    } else {
        all_pieces(nodes.drop_last()) + pieces(nodes.last(), ' ')
    }
}

/// A table cell read as its words: the text nodes split at spaces, the
/// pieces trimmed, the empty ones dropped, the rest joined by single spaces.
pub open spec fn cell_text(nodes: Seq<Seq<char>>) -> Seq<char> {
    join_with(kept_trimmed(all_pieces(nodes)), " "@)
}

pub fn cell_value(nodes: &Vec<String>) -> (r: String)
    ensures
        r@ == cell_text(views(nodes@)),
{
    let mut words: Vec<String> = Vec::new();
    let mut i: usize = 0;
    while i < nodes.len()
        invariant
            0 <= i <= nodes@.len(),
            views(words@) =~= all_pieces(views(nodes@.subrange(0, i as int))),
        decreases nodes@.len() - i,
    {
        let mut ps = split_all(nodes[i].as_str(), ' ');
        let ghost before = views(words@);
        let ghost added = views(ps@);
        words.append(&mut ps);
        assert(views(words@) =~= before + added);
        assert(views(nodes@.subrange(0, i as int + 1)).drop_last() =~= views(nodes@.subrange(0, i as int)));
        i = i + 1;
    }
    assert(nodes@.subrange(0, nodes@.len() as int) =~= nodes@);
    address_like_join(&words, " ")
}

/// The parts trimmed, the empty ones dropped, the rest joined with `sep`.
fn address_like_join(parts: &Vec<String>, sep: &str) -> (r: String)
    ensures
        r@ == join_with(kept_trimmed(views(parts@)), sep@),
{
    let kept = kept_trimmed_strings(parts);
    join_strings(&kept, sep)
}

fn kept_trimmed_strings(parts: &Vec<String>) -> (r: Vec<String>)
    ensures
        views(r@) == kept_trimmed(views(parts@)),
{
    let mut kept: Vec<String> = Vec::new();
    let mut i: usize = 0;
    while i < parts.len()
        invariant
            0 <= i <= parts@.len(),
            views(kept@) =~= kept_trimmed(views(parts@.subrange(0, i as int))),
        decreases parts@.len() - i,
    {
        let t = trimmed(parts[i].as_str());
        proof {
            let next = views(parts@.subrange(0, i as int + 1));
            assert(next.drop_last() =~= views(parts@.subrange(0, i as int)));
            assert(next.last() == parts@[i as int]@);
        }
        if t.unicode_len() > 0 {
            kept.push(String::from_str(t));
        }
        i = i + 1;
    }
    assert(parts@.subrange(0, parts@.len() as int) =~= parts@);
    kept
}

/// The value of a detail row: the trimmed text nodes run together, the
/// whole trimmed.
pub open spec fn detail_text(nodes: Seq<Seq<char>>) -> Seq<char> {
    trim(join_with(trim_each(nodes), Seq::empty()))
}

pub fn detail_value(nodes: &Vec<String>) -> (r: String)
    ensures
        r@ == detail_text(views(nodes@)),
{
    let text = joined_text(nodes);
    String::from_str(trimmed(text.as_str()))
}

/// `s` up to the first occurrence of `m`, or all of `s`.
pub open spec fn cut_at(s: Seq<char>, m: Seq<char>) -> Seq<char>
    decreases s.len(),
{
    if m.len() == 0 || s.len() < m.len() {
        s
    } else if s.subrange(0, m.len() as int) == m {
        Seq::empty()
    } else {
        seq![s[0]] + cut_at(s.drop_first(), m)
    }
}

/// `s` up to the first occurrence of the non-empty marker `m`.
pub fn cut_before(s: &str, m: &str) -> (r: String)
    requires
        m@.len() > 0,
    ensures
        r@ == cut_at(s@, m@),
{
    let n: usize = s.unicode_len();
    let k: usize = m.unicode_len();
    let mut i: usize = 0;
    assert(s@.subrange(0, 0) + s@.subrange(0, n as int) =~= s@);
    while i < n && k <= n - i
        invariant
            n == s@.len(),
            k == m@.len(),
            k > 0,
            0 <= i <= n,
            cut_at(s@, m@) == s@.subrange(0, i as int) + cut_at(s@.subrange(i as int, n as int), m@),
        decreases n - i,
    {
        let window = s.substring_char(i, i + k);
        let ghost rest = s@.subrange(i as int, n as int);
        assert(rest.subrange(0, k as int) =~= window@);
        if str_equal(window, m) {
            assert(cut_at(rest, m@) == Seq::<char>::empty());
            assert(s@.subrange(0, i as int) + Seq::<char>::empty() =~= s@.subrange(0, i as int));
            return String::from_str(s.substring_char(0, i));
        }
        assert(rest.drop_first() =~= s@.subrange(i as int + 1, n as int));
        assert(s@.subrange(0, i as int) + (seq![s@[i as int]] + cut_at(s@.subrange(i as int + 1, n as int), m@))
            =~= s@.subrange(0, i as int + 1) + cut_at(s@.subrange(i as int + 1, n as int), m@));
        i = i + 1;
    }
    assert(s@.subrange(0, i as int) + s@.subrange(i as int, n as int) =~= s@);
    String::from_str(s)
}

} // verus!
