use vstd::prelude::*;
use crate::criteria::str_equal;
use crate::dom::{inner_of, nested_views, outer_of, select_inner, select_outer, select_texts, texts_of};
use crate::extract::{
    cell_pairs, cell_text, cell_value, cut_at, cut_before, detail_text, detail_value, digits_only, director_entry,
    filing_status_label, filing_value, hyphen_pairs, join_with, joined_text, kept_trimmed,
    labelled_value, pair_cells, pair_views, parse_listing_row, plain_filing_text, plain_filing_value,
    trim, trim_each, trimmed, views, address_from_fragments, ExtractionError, FilingValue, ListingRow,
};

verus! {

/// The director section: the small table of counts and the roster of
/// (name, address) entries.
pub struct DirectorDetails {
    pub director_count: Vec<(String, String)>,
    pub director_personal_data: Vec<(String, String)>,
}

/// The corporate-history section: the name-history table under its heading
/// and one further titled panel of label/value rows.
pub struct CorpHistory {
    pub name_history_heading: String,
    pub name_history: Vec<(String, String)>,
    pub panel_heading: String,
    pub panel: Vec<(String, String)>,
}

/// A corporation's detail page as a record.
pub struct CorporationData {
    pub corp_details: Vec<(String, String)>,
    pub address_details: String,
    pub director_details: DirectorDetails,
    pub annual_filings_details: Vec<(String, FilingValue)>,
    pub corp_history_details: CorpHistory,
}

/// Where a corporation's detail page lives.
pub struct CorporationDataExtract {
    pub url: String,
}

/// The positions of the detail page's sections among its
/// `div.col-sm-12` blocks. A change of the page's markup is mended here.
pub const DETAILS_SECTION: usize = 2;
pub const ADDRESS_SECTION: usize = 3;
pub const DIRECTORS_SECTION: usize = 5;
pub const FILINGS_SECTION: usize = 7;
pub const HISTORY_SECTION: usize = 8;

/// The markup of the page's section at position `i`, if there is one.
pub open spec fn section_of(html: Seq<char>, i: usize) -> Option<Seq<char>> {
    let s = outer_of(html, "div.col-sm-12"@);
    if i < s.len() {
        Some(s[i as int])
    } else {
        None
    }
}

/// The error of a section that is absent, or present but incomplete.
pub open spec fn section_err(html: Seq<char>, i: usize) -> ExtractionError {
    if section_of(html, i).is_none() {
        ExtractionError::MissingSection { index: i }
    } else {
        ExtractionError::MissingElement { section: i }
    }
}

/// The label/value rows of a block.
pub open spec fn rows_of(block: Seq<char>) -> Seq<Seq<char>> {
    outer_of(block, "div.data-display-group"@)
}

/// Trimmed text nodes run together.
pub open spec fn joined(nodes: Seq<Seq<char>>) -> Seq<char> {
    join_with(trim_each(nodes), Seq::empty())
}

fn section(html: &str, index: usize) -> (r: Result<String, ExtractionError>)
    ensures
        match section_of(html@, index) {
            Some(s) => r matches Ok(t) && t@ == s,
            None => r matches Err(e) && e == (ExtractionError::MissingSection { index }),
        },
{
    let secs = select_outer(html, "div.col-sm-12");
    if index < secs.len() {
        assert(views(secs@)[index as int] == secs@[index as int]@);
        Ok(secs[index].clone())
    } else {
        Err(ExtractionError::MissingSection { index })
    }
}

// ---- details ----

/// The label that is cut at its value's first line break.
pub open spec fn corporate_name_label() -> Seq<char> {
    "Corporate Name"@
}

/// The part of a row's value block before its first `<br>`, as markup.
pub open spec fn name_markup(row: Seq<char>) -> Seq<char> {
    cut_at(inner_of(row, "div.col-sm-8"@)[0], "<br>"@)
}

/// The text nodes of that part: the cut markup parsed as a fragment, read
/// through the fragment's root element.
pub open spec fn name_nodes(row: Seq<char>) -> Seq<Seq<Seq<char>>> {
    texts_of(name_markup(row), "html"@)
}

pub open spec fn detail_row_ok(row: Seq<char>) -> bool {
    &&& inner_of(row, "b"@).len() > 0
    &&& texts_of(row, "div.col-sm-8"@).len() > 0
    &&& inner_of(row, "div.col-sm-8"@).len() > 0
    &&& (inner_of(row, "b"@)[0] == corporate_name_label() ==> name_nodes(row).len() > 0)
}

/// A detail row: its trimmed bold label and its value, the trimmed text of
/// its value block run together and trimmed; for the corporate name only
/// the text before the block's first line break.
pub open spec fn detail_row(row: Seq<char>) -> (Seq<char>, Seq<char>) {
    let label = inner_of(row, "b"@)[0];
    if label == corporate_name_label() {
        (trim(label), detail_text(name_nodes(row)[0]))
    } else {
        (trim(label), detail_text(texts_of(row, "div.col-sm-8"@)[0]))
    }
}

pub open spec fn corp_details_ok(html: Seq<char>) -> bool {
    match section_of(html, DETAILS_SECTION) {
        Some(s) => forall|i: int| 0 <= i < rows_of(s).len() ==> detail_row_ok(#[trigger] rows_of(s)[i]),
        None => false,
    }
}

pub open spec fn corp_details_hold(html: Seq<char>, v: Vec<(String, String)>) -> bool {
    pair_views(v@) == rows_of(section_of(html, DETAILS_SECTION).unwrap()).map_values(
        |row: Seq<char>| detail_row(row),
    )
}

// ---- address ----

pub open spec fn address_ok(html: Seq<char>) -> bool {
    match section_of(html, ADDRESS_SECTION) {
        Some(s) => texts_of(s, "div"@).len() > 1,
        None => false,
    }
}

/// The address: the text fragments of the section's first inner block (the
/// section itself is the first `div` of its own markup), trimmed, the
/// blank ones dropped, joined with ", ".
pub open spec fn address_spec(html: Seq<char>) -> Seq<char> {
    join_with(kept_trimmed(texts_of(section_of(html, ADDRESS_SECTION).unwrap(), "div"@)[1]), ", "@)
}

// ---- directors ----

pub open spec fn inline_group(s: Seq<char>) -> Seq<char> {
    outer_of(s, "div.inline-group"@)[0]
}

/// The blocks inside the counts group; the group is the first `div` of its
/// own markup and is left out.
pub open spec fn count_blocks(s: Seq<char>) -> Seq<Seq<char>> {
    let all = outer_of(inline_group(s), "div"@);
    all.subrange(1, all.len() as int)
}

pub open spec fn has_label(block: Seq<char>) -> bool {
    inner_of(block, "b"@).len() > 0
}

pub open spec fn count_block_ok(block: Seq<char>) -> bool {
    has_label(block) ==> inner_of(block, "span"@).len() > 0
}

/// One (label, count) pair per block that has a label, in order.
pub open spec fn count_pairs(blocks: Seq<Seq<char>>) -> Seq<(Seq<char>, Seq<char>)>
    decreases blocks.len(),
{
    if blocks.len() == 0 {
        Seq::empty()
    } else if has_label(blocks.last()) {
        count_pairs(blocks.drop_last()).push(
            (trim(inner_of(blocks.last(), "b"@)[0]), trim(inner_of(blocks.last(), "span"@)[0])),
        )
    } else {
        count_pairs(blocks.drop_last())
    }
}

pub open spec fn roster(s: Seq<char>) -> Seq<Seq<Seq<char>>> {
    texts_of(s, "li.full-width"@)
}

/// A roster entry: the first trimmed line is the name, the other trimmed
/// lines joined with ", " the address.
pub open spec fn roster_entry(lines: Seq<Seq<char>>) -> (Seq<char>, Seq<char>) {
    (trim(lines[0]), join_with(trim_each(lines.drop_first()), ", "@))
}

pub open spec fn directors_ok(html: Seq<char>) -> bool {
    match section_of(html, DIRECTORS_SECTION) {
        Some(s) => {
            &&& outer_of(s, "div.inline-group"@).len() > 0
            &&& outer_of(inline_group(s), "div"@).len() > 0
            &&& forall|i: int| 0 <= i < count_blocks(s).len() ==> count_block_ok(#[trigger] count_blocks(s)[i])
            &&& forall|i: int| 0 <= i < roster(s).len() ==> (#[trigger] roster(s)[i]).len() > 0
        },
        None => false,
    }
}

pub open spec fn directors_hold(html: Seq<char>, d: DirectorDetails) -> bool {
    let s = section_of(html, DIRECTORS_SECTION).unwrap();
    &&& pair_views(d.director_count@) == count_pairs(count_blocks(s))
    &&& pair_views(d.director_personal_data@) == roster(s).map_values(|l: Seq<Seq<char>>| roster_entry(l))
}

// ---- annual filings ----

pub open spec fn filing_row_ok(row: Seq<char>) -> bool {
    texts_of(row, "b"@).len() > 0 && texts_of(row, "div.col-sm-9"@).len() > 0 && outer_of(
        row,
        "div.col-sm-9"@,
    ).len() > 0
}

pub open spec fn filing_key(row: Seq<char>) -> Seq<char> {
    joined(texts_of(row, "b"@)[0])
}

/// The list items of a row's value block, each read as its trimmed text.
pub open spec fn filing_items(row: Seq<char>) -> Seq<Seq<char>> {
    texts_of(outer_of(row, "div.col-sm-9"@)[0], "li"@).map_values(|n: Seq<Seq<char>>| joined(n))
}

/// The value of a filings row: for the filing-status row the pairs of its
/// list items, for any other row its plain text.
pub open spec fn filing_is(f: FilingValue, row: Seq<char>) -> bool {
    if filing_key(row) == filing_status_label() {
        match f {
            FilingValue::LabeledList(v) => pair_views(v@) == hyphen_pairs(filing_items(row)),
            FilingValue::Plain(_) => false,
        }
    } else {
        match f {
            FilingValue::Plain(t) => t@ == plain_filing_text(texts_of(row, "div.col-sm-9"@)[0]),
            FilingValue::LabeledList(_) => false,
        }
    }
}

pub open spec fn filings_ok(html: Seq<char>) -> bool {
    match section_of(html, FILINGS_SECTION) {
        Some(s) => forall|i: int| 0 <= i < rows_of(s).len() ==> filing_row_ok(#[trigger] rows_of(s)[i]),
        None => false,
    }
}

pub open spec fn filings_hold(html: Seq<char>, v: Vec<(String, FilingValue)>) -> bool {
    let rows = rows_of(section_of(html, FILINGS_SECTION).unwrap());
    &&& v@.len() == rows.len()
    &&& forall|i: int|
        0 <= i < v@.len() ==> (#[trigger] v@[i]).0@ == filing_key(rows[i]) && filing_is(v@[i].1, rows[i])
}

// ---- history ----

pub open spec fn table_of(s: Seq<char>) -> Seq<char> {
    outer_of(s, "table"@)[0]
}

pub open spec fn history_head_ok(s: Seq<char>) -> bool {
    outer_of(s, "table"@).len() > 0 && texts_of(table_of(s), "thead"@).len() > 0
}

pub open spec fn history_cells(s: Seq<char>) -> Seq<Seq<char>> {
    texts_of(table_of(s), "td"@).map_values(|n: Seq<Seq<char>>| cell_text(n))
}

pub open spec fn panel_of(s: Seq<char>) -> Seq<char> {
    outer_of(s, "section.panel-info"@)[0]
}

pub open spec fn panel_body(s: Seq<char>) -> Seq<char> {
    outer_of(panel_of(s), "div.panel-body"@)[0]
}

pub open spec fn panel_row_ok(row: Seq<char>) -> bool {
    texts_of(row, "b"@).len() > 0 && texts_of(row, "div.col-sm-6"@).len() > 0
}

/// A panel row: its trimmed label and trimmed value.
pub open spec fn panel_row(row: Seq<char>) -> (Seq<char>, Seq<char>) {
    (trim(joined(texts_of(row, "b"@)[0])), trim(joined(texts_of(row, "div.col-sm-6"@)[0])))
}

pub open spec fn panel_ok(s: Seq<char>) -> bool {
    &&& outer_of(s, "section.panel-info"@).len() > 0
    &&& texts_of(panel_of(s), "header"@).len() > 0
    &&& outer_of(panel_of(s), "div.panel-body"@).len() > 0
    &&& forall|i: int| 0 <= i < rows_of(panel_body(s)).len() ==> panel_row_ok(#[trigger] rows_of(panel_body(s))[i])
}

pub open spec fn history_ok(html: Seq<char>) -> bool {
    match section_of(html, HISTORY_SECTION) {
        Some(s) => history_head_ok(s) && history_cells(s).len() % 2 == 0 && panel_ok(s),
        None => false,
    }
}

pub open spec fn history_err(html: Seq<char>) -> ExtractionError {
    match section_of(html, HISTORY_SECTION) {
        None => ExtractionError::MissingSection { index: HISTORY_SECTION },
        Some(s) => if history_head_ok(s) && history_cells(s).len() % 2 != 0 {
            ExtractionError::MalformedField { section: HISTORY_SECTION }
        } else {
            ExtractionError::MissingElement { section: HISTORY_SECTION }
        },
    }
}

pub open spec fn history_hold(html: Seq<char>, h: CorpHistory) -> bool {
    let s = section_of(html, HISTORY_SECTION).unwrap();
    &&& h.name_history_heading@ == joined(texts_of(table_of(s), "thead"@)[0])
    &&& pair_views(h.name_history@) == cell_pairs(history_cells(s))
    &&& h.panel_heading@ == joined(texts_of(panel_of(s), "header"@)[0])
    &&& pair_views(h.panel@) == rows_of(panel_body(s)).map_values(|row: Seq<char>| panel_row(row))
}

// ---- whole page ----

pub open spec fn corporation_ok(html: Seq<char>) -> bool {
    corp_details_ok(html) && address_ok(html) && directors_ok(html) && filings_ok(html) && history_ok(html)
}

/// The error of the first section, in page order, that fails.
pub open spec fn corporation_err(html: Seq<char>) -> ExtractionError {
    if !corp_details_ok(html) {
        section_err(html, DETAILS_SECTION)
    } else if !address_ok(html) {
        section_err(html, ADDRESS_SECTION)
    } else if !directors_ok(html) {
        section_err(html, DIRECTORS_SECTION)
    } else if !filings_ok(html) {
        section_err(html, FILINGS_SECTION)
    } else {
        history_err(html)
    }
}

/// The label/value rows of a panel body, both trimmed.
fn panel_rows(body: &String) -> (r: Result<Vec<(String, String)>, ExtractionError>)
    ensures
        (forall|i: int| 0 <= i < rows_of(body@).len() ==> panel_row_ok(#[trigger] rows_of(body@)[i]))
            <==> r.is_ok(),
        r matches Ok(v) ==> pair_views(v@) == rows_of(body@).map_values(|row: Seq<char>| panel_row(row)),
        r matches Err(e) ==> e == (ExtractionError::MissingElement { section: HISTORY_SECTION }),
{
    let rows = select_outer(body.as_str(), "div.data-display-group");
    let mut out: Vec<(String, String)> = Vec::new();
    let mut i: usize = 0;
    while i < rows.len()
        invariant
            views(rows@) == rows_of(body@),
            0 <= i <= rows@.len(),
            out@.len() == i,
            forall|k: int| 0 <= k < i ==> panel_row_ok(#[trigger] rows_of(body@)[k]),
            forall|k: int| 0 <= k < i ==> (#[trigger] out@[k]).0@ == panel_row(rows_of(body@)[k]).0
                && out@[k].1@ == panel_row(rows_of(body@)[k]).1,
        decreases rows@.len() - i,
    {
        assert(views(rows@)[i as int] == rows@[i as int]@);
        let labels = select_texts(rows[i].as_str(), "b");
        let values = select_texts(rows[i].as_str(), "div.col-sm-6");
        if labels.len() == 0 || values.len() == 0 {
            assert(!panel_row_ok(rows_of(body@)[i as int]));
            return Err(ExtractionError::MissingElement { section: HISTORY_SECTION });
        }
        assert(nested_views(labels@)[0] == views(labels@[0]@));
        assert(nested_views(values@)[0] == views(values@[0]@));
        let key = joined_text(&labels[0]);
        let value = joined_text(&values[0]);
        out.push((String::from_str(trimmed(key.as_str())), String::from_str(trimmed(value.as_str()))));
        i = i + 1;
    }
    assert(pair_views(out@) =~= rows_of(body@).map_values(|row: Seq<char>| panel_row(row)));
    Ok(out)
}

impl CorporationDataExtract {
    /// The flat label/value rows of the details section.
    pub fn extract_corp_details(html: &str) -> (r: Result<Vec<(String, String)>, ExtractionError>)
        ensures
            corp_details_ok(html@) <==> r.is_ok(),
            r matches Ok(v) ==> corp_details_hold(html@, v),
            r matches Err(e) ==> e == section_err(html@, DETAILS_SECTION),
    {
        let sec = section(html, DETAILS_SECTION)?;
        let rows = select_outer(sec.as_str(), "div.data-display-group");
        let mut out: Vec<(String, String)> = Vec::new();
        let mut i: usize = 0;
        while i < rows.len()
            invariant
                section_of(html@, DETAILS_SECTION) == Some(sec@),
                views(rows@) == rows_of(sec@),
                0 <= i <= rows@.len(),
                out@.len() == i,
                forall|k: int| 0 <= k < i ==> detail_row_ok(#[trigger] rows_of(sec@)[k]),
                forall|k: int| 0 <= k < i ==> (#[trigger] out@[k]).0@ == detail_row(rows_of(sec@)[k]).0
                    && out@[k].1@ == detail_row(rows_of(sec@)[k]).1,
            decreases rows@.len() - i,
        {
            assert(views(rows@)[i as int] == rows@[i as int]@);
            let labels = select_inner(rows[i].as_str(), "b");
            let values = select_texts(rows[i].as_str(), "div.col-sm-8");
            let blocks = select_inner(rows[i].as_str(), "div.col-sm-8");
            if labels.len() == 0 || values.len() == 0 || blocks.len() == 0 {
                assert(views(labels@).len() == labels@.len());
                assert(nested_views(values@).len() == values@.len());
                assert(views(blocks@).len() == blocks@.len());
                assert(!detail_row_ok(rows_of(sec@)[i as int]));
                assert(rows_of(sec@).len() == rows@.len());
                assert(section_of(html@, DETAILS_SECTION).unwrap() == sec@);
                return Err(ExtractionError::MissingElement { section: DETAILS_SECTION });
            }
            assert(views(labels@)[0] == labels@[0]@);
            assert(nested_views(values@)[0] == views(values@[0]@));
            assert(views(blocks@)[0] == blocks@[0]@);
            let value = if str_equal(labels[0].as_str(), "Corporate Name") {
                proof {
                    reveal_strlit("<br>");
                }
                let cut = cut_before(blocks[0].as_str(), "<br>");
                let nodes = select_texts(cut.as_str(), "html");
                if nodes.len() == 0 {
                    assert(nested_views(nodes@).len() == nodes@.len());
                    assert(!detail_row_ok(rows_of(sec@)[i as int]));
                    assert(rows_of(sec@).len() == rows@.len());
                    assert(section_of(html@, DETAILS_SECTION).unwrap() == sec@);
                    return Err(ExtractionError::MissingElement { section: DETAILS_SECTION });
                }
                assert(nested_views(nodes@)[0] == views(nodes@[0]@));
                detail_value(&nodes[0])
            } else {
                detail_value(&values[0])
            };
            out.push((String::from_str(trimmed(labels[0].as_str())), value));
            i = i + 1;
        }
        assert(pair_views(out@) =~= rows_of(sec@).map_values(|row: Seq<char>| detail_row(row)));
        Ok(out)
    }

    /// The address: the non-blank text fragments of the address section's
    /// first inner block, trimmed and joined with ", ".
    pub fn extract_address_details(html: &str) -> (r: Result<String, ExtractionError>)
        ensures
            address_ok(html@) <==> r.is_ok(),
            r matches Ok(a) ==> a@ == address_spec(html@),
            r matches Err(e) ==> e == section_err(html@, ADDRESS_SECTION),
    {
        let sec = section(html, ADDRESS_SECTION)?;
        let blocks = select_texts(sec.as_str(), "div");
        if blocks.len() < 2 {
            return Err(ExtractionError::MissingElement { section: ADDRESS_SECTION });
        }
        assert(nested_views(blocks@)[1] == views(blocks@[1]@));
        Ok(address_from_fragments(&blocks[1]))
    }

    /// The director counts (one pair per block of the counts group that has
    /// a label) and the roster of directors (one entry per roster item).
    pub fn extract_director_details(html: &str) -> (r: Result<DirectorDetails, ExtractionError>)
        ensures
            directors_ok(html@) <==> r.is_ok(),
            r matches Ok(d) ==> directors_hold(html@, d),
            r matches Err(e) ==> e == section_err(html@, DIRECTORS_SECTION),
    {
        let sec = section(html, DIRECTORS_SECTION)?;
        let groups = select_outer(sec.as_str(), "div.inline-group");
        if groups.len() == 0 {
            return Err(ExtractionError::MissingElement { section: DIRECTORS_SECTION });
        }
        assert(views(groups@)[0] == groups@[0]@);
        let blocks = select_outer(groups[0].as_str(), "div");
        if blocks.len() == 0 {
            return Err(ExtractionError::MissingElement { section: DIRECTORS_SECTION });
        }
        let ghost bs = count_blocks(sec@);
        let mut director_count: Vec<(String, String)> = Vec::new();
        let mut i: usize = 1;
        while i < blocks.len()
            invariant
                section_of(html@, DIRECTORS_SECTION) == Some(sec@),
                outer_of(sec@, "div.inline-group"@).len() > 0,
                views(blocks@) == outer_of(inline_group(sec@), "div"@),
                blocks@.len() > 0,
                bs == count_blocks(sec@),
                bs.len() == blocks@.len() - 1,
                1 <= i <= blocks@.len(),
                forall|k: int| 0 <= k < i - 1 ==> count_block_ok(#[trigger] bs[k]),
                pair_views(director_count@) == count_pairs(bs.subrange(0, i - 1)),
            decreases blocks@.len() - i,
        {
            assert(views(blocks@)[i as int] == blocks@[i as int]@);
            assert(bs[i - 1] == blocks@[i as int]@);
            let labels = select_inner(blocks[i].as_str(), "b");
            let ghost prefix = bs.subrange(0, i as int);
            assert(prefix.drop_last() =~= bs.subrange(0, i - 1));
            assert(prefix.last() == bs[i - 1]);
            if labels.len() > 0 {
                let spans = select_inner(blocks[i].as_str(), "span");
                if spans.len() == 0 {
                    assert(!count_block_ok(bs[i - 1]));
                    return Err(ExtractionError::MissingElement { section: DIRECTORS_SECTION });
                }
                assert(views(labels@)[0] == labels@[0]@);
                assert(views(spans@)[0] == spans@[0]@);
                let key = String::from_str(trimmed(labels[0].as_str()));
                let value = String::from_str(trimmed(spans[0].as_str()));
                let ghost before = director_count@;
                director_count.push((key, value));
                assert(pair_views(director_count@) =~= pair_views(before).push((key@, value@)));
            }
            i = i + 1;
        }
        assert(bs.subrange(0, bs.len() as int) =~= bs);
        let entries = select_texts(sec.as_str(), "li.full-width");
        let mut director_personal_data: Vec<(String, String)> = Vec::new();
        let mut j: usize = 0;
        while j < entries.len()
            invariant
                section_of(html@, DIRECTORS_SECTION) == Some(sec@),
                nested_views(entries@) == roster(sec@),
                0 <= j <= entries@.len(),
                director_personal_data@.len() == j,
                forall|k: int| 0 <= k < j ==> (#[trigger] roster(sec@)[k]).len() > 0,
                forall|k: int|
                    0 <= k < j ==> (#[trigger] director_personal_data@[k]).0@ == roster_entry(roster(sec@)[k]).0
                        && director_personal_data@[k].1@ == roster_entry(roster(sec@)[k]).1,
            decreases entries@.len() - j,
        {
            assert(nested_views(entries@)[j as int] == views(entries@[j as int]@));
            match director_entry(&entries[j]) {
                Some(e) => director_personal_data.push(e),
                None => {
                    assert(roster(sec@)[j as int].len() == 0);
                    return Err(ExtractionError::MissingElement { section: DIRECTORS_SECTION });
                },
            }
            j = j + 1;
        }
        assert(pair_views(director_personal_data@) =~= roster(sec@).map_values(
            |l: Seq<Seq<char>>| roster_entry(l),
        ));
        Ok(DirectorDetails { director_count, director_personal_data })
    }

    /// The annual-filings rows, one entry per row in order, keyed by the
    /// row's label. The row labelled "Status of Annual Filings" holds the
    /// label/value pairs of its list items; every other row its plain text.
    pub fn extract_annual_filings_details(html: &str) -> (r: Result<Vec<(String, FilingValue)>, ExtractionError>)
        ensures
            filings_ok(html@) <==> r.is_ok(),
            r matches Ok(v) ==> filings_hold(html@, v),
            r matches Ok(v) ==> forall|i: int|
                0 <= i < v@.len() ==> ((#[trigger] v@[i]).0@ == filing_status_label() <==> v@[i].1 is LabeledList),
            r matches Err(e) ==> e == section_err(html@, FILINGS_SECTION),
    {
        let sec = section(html, FILINGS_SECTION)?;
        let rows = select_outer(sec.as_str(), "div.data-display-group");
        let mut out: Vec<(String, FilingValue)> = Vec::new();
        let mut i: usize = 0;
        while i < rows.len()
            invariant
                section_of(html@, FILINGS_SECTION) == Some(sec@),
                views(rows@) == rows_of(sec@),
                0 <= i <= rows@.len(),
                out@.len() == i,
                forall|k: int| 0 <= k < i ==> filing_row_ok(#[trigger] rows_of(sec@)[k]),
                forall|k: int|
                    0 <= k < i ==> (#[trigger] out@[k]).0@ == filing_key(rows_of(sec@)[k]) && filing_is(
                        out@[k].1,
                        rows_of(sec@)[k],
                    ),
            decreases rows@.len() - i,
        {
            assert(views(rows@)[i as int] == rows@[i as int]@);
            let labels = select_texts(rows[i].as_str(), "b");
            let values = select_texts(rows[i].as_str(), "div.col-sm-9");
            let blocks = select_outer(rows[i].as_str(), "div.col-sm-9");
            if labels.len() == 0 || values.len() == 0 || blocks.len() == 0 {
                assert(nested_views(labels@).len() == labels@.len());
                assert(nested_views(values@).len() == values@.len());
                assert(views(blocks@).len() == blocks@.len());
                assert(!filing_row_ok(rows_of(sec@)[i as int]));
                assert(rows_of(sec@).len() == rows@.len());
                assert(section_of(html@, FILINGS_SECTION).unwrap() == sec@);
                return Err(ExtractionError::MissingElement { section: FILINGS_SECTION });
            }
            assert(nested_views(labels@)[0] == views(labels@[0]@));
            assert(nested_views(values@)[0] == views(values@[0]@));
            assert(views(blocks@)[0] == blocks@[0]@);
            let key = joined_text(&labels[0]);
            let lis = select_texts(blocks[0].as_str(), "li");
            let mut items: Vec<String> = Vec::new();
            let mut k: usize = 0;
            while k < lis.len()
                invariant
                    blocks@.len() > 0,
                    nested_views(lis@) == texts_of(blocks@[0]@, "li"@),
                    0 <= k <= lis@.len(),
                    views(items@) =~= nested_views(lis@).subrange(0, k as int).map_values(
                        |n: Seq<Seq<char>>| joined(n),
                    ),
                decreases lis@.len() - k,
            {
                assert(nested_views(lis@)[k as int] == views(lis@[k as int]@));
                let t = joined_text(&lis[k]);
                let ghost before = views(items@);
                items.push(t);
                assert(views(items@) =~= before.push(t@));
                k = k + 1;
            }
            assert(nested_views(lis@).subrange(0, lis@.len() as int) =~= nested_views(lis@));
            assert(views(items@) =~= filing_items(rows_of(sec@)[i as int]));
            let plain = plain_filing_value(&values[0]);
            let value = filing_value(key.as_str(), plain, &items);
            out.push((key, value));
            i = i + 1;
        }
        Ok(out)
    }

    /// The name-history table (its heading, and its cells read as words and
    /// paired up as date and name) and the titled panel that follows it.
    pub fn extract_corp_history_details(html: &str) -> (r: Result<CorpHistory, ExtractionError>)
        ensures
            history_ok(html@) <==> r.is_ok(),
            r matches Ok(h) ==> history_hold(html@, h),
            r matches Err(e) ==> e == history_err(html@),
    {
        let sec = section(html, HISTORY_SECTION)?;
        let tables = select_outer(sec.as_str(), "table");
        if tables.len() == 0 {
            return Err(ExtractionError::MissingElement { section: HISTORY_SECTION });
        }
        assert(views(tables@)[0] == tables@[0]@);
        let heads = select_texts(tables[0].as_str(), "thead");
        if heads.len() == 0 {
            return Err(ExtractionError::MissingElement { section: HISTORY_SECTION });
        }
        assert(nested_views(heads@)[0] == views(heads@[0]@));
        let name_history_heading = joined_text(&heads[0]);
        let tds = select_texts(tables[0].as_str(), "td");
        let mut cells: Vec<String> = Vec::new();
        let mut i: usize = 0;
        while i < tds.len()
            invariant
                tables@.len() > 0,
                nested_views(tds@) == texts_of(tables@[0]@, "td"@),
                0 <= i <= tds@.len(),
                views(cells@) =~= nested_views(tds@).subrange(0, i as int).map_values(
                    |n: Seq<Seq<char>>| cell_text(n),
                ),
            decreases tds@.len() - i,
        {
            assert(nested_views(tds@)[i as int] == views(tds@[i as int]@));
            let c = cell_value(&tds[i]);
            let ghost before = views(cells@);
            cells.push(c);
            assert(views(cells@) =~= before.push(c@));
            i = i + 1;
        }
        assert(nested_views(tds@).subrange(0, tds@.len() as int) =~= nested_views(tds@));
        assert(views(cells@) =~= history_cells(sec@));
        let name_history = match pair_cells(&cells) {
            Some(p) => p,
            None => return Err(ExtractionError::MalformedField { section: HISTORY_SECTION }),
        };
        let panels = select_outer(sec.as_str(), "section.panel-info");
        if panels.len() == 0 {
            return Err(ExtractionError::MissingElement { section: HISTORY_SECTION });
        }
        assert(views(panels@)[0] == panels@[0]@);
        let headers = select_texts(panels[0].as_str(), "header");
        let bodies = select_outer(panels[0].as_str(), "div.panel-body");
        if headers.len() == 0 || bodies.len() == 0 {
            return Err(ExtractionError::MissingElement { section: HISTORY_SECTION });
        }
        assert(nested_views(headers@)[0] == views(headers@[0]@));
        assert(views(bodies@)[0] == bodies@[0]@);
        let panel_heading = joined_text(&headers[0]);
        assert(panels@[0]@ == panel_of(sec@));
        assert(bodies@[0]@ == panel_body(sec@));
        assert(history_head_ok(sec@));
        let panel = panel_rows(&bodies[0])?;
        Ok(CorpHistory { name_history_heading, name_history, panel_heading, panel })
    }

    /// The whole record of a fetched detail page: it succeeds exactly when
    /// all five sections can be read, each field being that section's
    /// result; else it fails with the error of the first failing section.
    pub fn extract_corporation_data(html: &str) -> (r: Result<CorporationData, ExtractionError>)
        ensures
            corporation_ok(html@) <==> r.is_ok(),
            r matches Ok(d) ==> {
                &&& corp_details_hold(html@, d.corp_details)
                &&& d.address_details@ == address_spec(html@)
                &&& directors_hold(html@, d.director_details)
                &&& filings_hold(html@, d.annual_filings_details)
                &&& history_hold(html@, d.corp_history_details)
            },
            r matches Err(e) ==> e == corporation_err(html@),
    {
        let corp_details = Self::extract_corp_details(html)?;
        let address_details = Self::extract_address_details(html)?;
        let director_details = Self::extract_director_details(html)?;
        let annual_filings_details = Self::extract_annual_filings_details(html)?;
        let corp_history_details = Self::extract_corp_history_details(html)?;
        Ok(CorporationData {
            corp_details,
            address_details,
            director_details,
            annual_filings_details,
            corp_history_details,
        })
    }
}

// ---- listing ----

/// One page of the legacy listing: its rows, and whether it links to a
/// next page.
pub struct ListingPage {
    pub rows: Vec<ListingRow>,
    pub has_next: bool,
}

pub open spec fn listing_rows(page: Seq<char>) -> Seq<Seq<char>> {
    outer_of(page, "div.col-md-11"@)
}

pub open spec fn row_spans(row: Seq<char>) -> Seq<Seq<char>> {
    inner_of(row, "span"@)
}

pub open spec fn first_span(row: Seq<char>) -> Seq<char> {
    outer_of(row, "span"@)[0]
}

/// A listing row is readable: four spans, a link in the first, and a colon
/// in each of the other three.
pub open spec fn listing_row_ok(row: Seq<char>) -> bool {
    &&& row_spans(row).len() >= 4
    &&& outer_of(row, "span"@).len() > 0
    &&& inner_of(first_span(row), "a"@).len() > 0
    &&& labelled_value(row_spans(row)[1]).is_some()
    &&& labelled_value(row_spans(row)[2]).is_some()
    &&& labelled_value(row_spans(row)[3]).is_some()
}

pub open spec fn listing_row_is(r: ListingRow, row: Seq<char>) -> bool {
    &&& r.business_name@ == inner_of(first_span(row), "a"@)[0]
    &&& Some(r.status@) == labelled_value(row_spans(row)[1])
    &&& r.corporation_number@ == digits_only(labelled_value(row_spans(row)[2]).unwrap())
    &&& Some(r.business_number@) == labelled_value(row_spans(row)[3])
}

/// Parses one listing page: it succeeds exactly when every `div.col-md-11`
/// row is readable; the rows are those of the page in order.
pub fn parse_listing_page(html: &str) -> (r: Result<ListingPage, ExtractionError>)
    ensures
        (forall|i: int| 0 <= i < listing_rows(html@).len() ==> listing_row_ok(#[trigger] listing_rows(html@)[i]))
            <==> r.is_ok(),
        r matches Ok(p) ==> {
            &&& p.rows@.len() == listing_rows(html@).len()
            &&& forall|i: int| 0 <= i < p.rows@.len() ==> listing_row_is(#[trigger] p.rows@[i], listing_rows(html@)[i])
            &&& p.has_next == (outer_of(html@, "a[rel=\"next\"]"@).len() > 0)
        },
        r matches Err(e) ==> e == ExtractionError::MalformedListingRow,
{
    let rows = select_outer(html, "div.col-md-11");
    let mut out: Vec<ListingRow> = Vec::new();
    let mut i: usize = 0;
    while i < rows.len()
        invariant
            views(rows@) == listing_rows(html@),
            0 <= i <= rows@.len(),
            out@.len() == i,
            forall|k: int| 0 <= k < i ==> listing_row_ok(#[trigger] listing_rows(html@)[k]),
            forall|k: int| 0 <= k < i ==> listing_row_is(#[trigger] out@[k], listing_rows(html@)[k]),
        decreases rows@.len() - i,
    {
        assert(views(rows@)[i as int] == rows@[i as int]@);
        let spans = select_inner(rows[i].as_str(), "span");
        let outer_spans = select_outer(rows[i].as_str(), "span");
        if spans.len() < 4 || outer_spans.len() == 0 {
            assert(!listing_row_ok(listing_rows(html@)[i as int]));
            return Err(ExtractionError::MalformedListingRow);
        }
        assert(views(outer_spans@)[0] == outer_spans@[0]@);
        let links = select_inner(outer_spans[0].as_str(), "a");
        if links.len() == 0 {
            assert(!listing_row_ok(listing_rows(html@)[i as int]));
            return Err(ExtractionError::MalformedListingRow);
        }
        assert(views(links@)[0] == links@[0]@);
        assert(views(spans@)[1] == spans@[1]@);
        assert(views(spans@)[2] == spans@[2]@);
        assert(views(spans@)[3] == spans@[3]@);
        match parse_listing_row(links[0].clone(), spans[1].as_str(), spans[2].as_str(), spans[3].as_str()) {
            Some(row) => out.push(row),
            None => {
                assert(!listing_row_ok(listing_rows(html@)[i as int]));
                return Err(ExtractionError::MalformedListingRow);
            },
        }
        i = i + 1;
    }
    let next = select_outer(html, "a[rel=\"next\"]");
    Ok(ListingPage { rows: out, has_next: next.len() > 0 })
}

} // verus!
