//! The catalog side: search address, candidate rows, ranking against an
//! archive, the operator's choice, and the tag text of a chosen candidate.
use vstd::prelude::*;
use vstd::string::*;
use crate::archive::Archive;
use crate::title::{undecorated, undecorated_title};
use crate::html::{
    attribute, css, css_selector, document_matches, element_attr, element_matches, element_text,
    html_document, inner_text, parse_html, select_in_document, select_in_element,
};
use crate::tag::{TagDictionary, translated};
use crate::text::{
    decimal, decimal_of, digit_char, digits, digits_of, same_text, strip_prefixes,
    strip_suffixes, trim_end_all, trim_start_all,
};

verus! {

/// One candidate row of a catalog search.
#[derive(Debug)]
pub struct GL {
    pub type_: String,
    pub datetime: String,
    pub tags: String,
    pub title: String,
    pub pages: String,
    pub url: String,
}

/// Why a catalog page or a candidate could not be used.
#[derive(Debug, PartialEq, Eq, Structural, Clone, Copy)]
pub enum CatalogError {
    /// A result row lacks one of the cells that the layout promises.
    MissingCell,
    /// A tag anchor of a detail page lacks its identifier.
    MissingTagId,
    /// A posted-at text is not of the form `YYYY-MM-DD HH:MM`.
    DateParse,
    /// A fixed selector was refused by the HTML library.
    Selector,
}

// ---------------------------------------------------------------- outside calls

/// The bytes that `application/x-www-form-urlencoded` keeps as they are.
pub open spec fn kept_in_form(b: u8) -> bool {
    b == 42 || b == 45 || b == 46 || (48 <= b <= 57) || (65 <= b <= 90) || b == 95 || (97
        <= b <= 122)
}

pub open spec fn hex_upper(d: nat) -> char {
    if d < 10 {
        digit_char(d)
    } else if d == 10 {
        'A'
    } else if d == 11 {
        'B'
    } else if d == 12 {
        'C'
    } else if d == 13 {
        'D'
    } else if d == 14 {
        'E'
    } else {
        'F'
    }
}

/// The form-urlencoded form of one byte: kept, `+` for a space, else `%XX`.
pub open spec fn form_byte(b: u8) -> Seq<char> {
    if kept_in_form(b) {
        seq![b as char]
    } else if b == 32 {
        seq!['+']
    } else {
        seq!['%', hex_upper((b / 16) as nat), hex_upper((b % 16) as nat)]
    }
}

/// The form-urlencoded form of a byte string.
pub open spec fn form_encoded(bs: Seq<u8>) -> Seq<char>
    decreases bs.len(),
{
    if bs.len() == 0 {
        Seq::empty()
    } else {
        form_encoded(bs.drop_last()) + form_byte(bs.last())
    }
}

/// Relies on `url::form_urlencoded::byte_serialize`: each byte kept, turned
/// into `+` (a space) or percent-encoded with upper-case hex digits.
#[verifier::external_body]
fn form_encode(bytes: &[u8]) -> (r: String)
    ensures
        r@ == form_encoded(bytes@),
{
    url::form_urlencoded::byte_serialize(bytes).collect::<String>()
}

/// The Damerau-Levenshtein distance between two character sequences.
pub uninterp spec fn damerau_distance(a: Seq<char>, b: Seq<char>) -> nat;

/// Relies on `strsim::damerau_levenshtein`: the distance over characters;
/// zero between equal strings, the other length when one side is empty.
#[verifier::external_body]
fn edit_distance(a: &str, b: &str) -> (r: usize)
    ensures
        r == damerau_distance(a@, b@),
        a@ == b@ ==> r == 0,
        a@.len() == 0 ==> r == b@.len(),
        b@.len() == 0 ==> r == a@.len(),
{
    strsim::damerau_levenshtein(a, b)
}

/// The Unix time, in seconds, of a `YYYY-MM-DD HH:MM` text read as UTC;
/// `None` when the text does not have that form.
pub uninterp spec fn utc_seconds(s: Seq<char>) -> Option<i64>;

/// Relies on `chrono::NaiveDateTime::parse_from_str` with `%Y-%m-%d %H:%M`,
/// and on the UTC timestamp of what it parsed.
#[verifier::external_body]
fn parse_posted_at(s: &str) -> (r: Option<i64>)
    ensures
        r == utc_seconds(s@),
{
    chrono::NaiveDateTime::parse_from_str(s, "%Y-%m-%d %H:%M").ok().map(
        |d| d.and_utc().timestamp(),
    )
}

// ---------------------------------------------------------------- search

pub open spec fn search_prefix() -> Seq<char> {
    "https://exhentai.org/?f_search="@
}

/// The catalog search address for a query.
pub fn search_url(query: &str) -> (r: String)
    ensures
        r@ == search_prefix() + form_encoded(query.spec_bytes()),
{
    proof {
        reveal_strlit("https://exhentai.org/?f_search=");
    }
    let encoded = form_encode(query.as_bytes());
    String::from_str("https://exhentai.org/?f_search=").concat(encoded.as_str())
}

// ---------------------------------------------------------------- result rows

/// The cells of one result row as the page gives them; `None` where the
/// expected element (or, for the address, its `href`) is missing.
pub struct RowCells {
    pub category: Option<String>,
    pub posted_at: Option<String>,
    pub url: Option<String>,
    pub title: Option<String>,
    pub pages: Option<String>,
    /// The `title` attribute of each tag node of the row, where it has one.
    pub tag_titles: Vec<Option<String>>,
}

/// Every cell that a candidate needs is present.
pub open spec fn row_complete(c: RowCells) -> bool {
    c.category is Some && c.posted_at is Some && c.url is Some && c.title is Some
        && c.pages is Some
}

/// The view of an optional text.
pub open spec fn opt_view(o: Option<String>) -> Option<Seq<char>> {
    match o {
        Some(s) => Some(s@),
        None => None,
    }
}

/// Each present tag title followed by a comma.
pub open spec fn titles_with_commas(ts: Seq<Option<Seq<char>>>) -> Seq<char>
    decreases ts.len(),
{
    if ts.len() == 0 {
        Seq::empty()
    } else {
        match ts.last() {
            Some(t) => titles_with_commas(ts.drop_last()) + t + seq![','],
            None => titles_with_commas(ts.drop_last()),
        }
    }
}

/// The tag string of a row: its present tag titles joined by commas.
pub open spec fn row_tags_of(ts: Seq<Option<Seq<char>>>) -> Seq<char> {
    let w = titles_with_commas(ts);
    if w.len() > 0 {
        w.drop_last()
    } else {
        w
    }
}

/// Candidate `g` is what the complete row `c` describes.
pub open spec fn candidate_of_row(g: GL, c: RowCells) -> bool {
    &&& c.category matches Some(v) && g.type_@ == v@
    &&& c.posted_at matches Some(v) && g.datetime@ == v@
    &&& c.url matches Some(v) && g.url@ == v@
    &&& c.title matches Some(v) && g.title@ == v@
    &&& c.pages matches Some(v) && g.pages@ == v@
    &&& g.tags@ == row_tags_of(c.tag_titles@.map_values(|o: Option<String>| opt_view(o)))
}

fn clone_cell(v: &Option<String>) -> (r: String)
    requires
        v is Some,
    ensures
        r@ == v->Some_0@,
{
    match v {
        Some(s) => s.clone(),
        None => String::new(),
    }
}

/// The tag string of a row's tag titles.
pub fn row_tags(ts: &Vec<Option<String>>) -> (r: String)
    ensures
        r@ == row_tags_of(ts@.map_values(|o: Option<String>| opt_view(o))),
{
    let ghost tm = ts@.map_values(|o: Option<String>| opt_view(o));
    let mut w = String::new();
    let mut i: usize = 0;
    proof {
        assert(tm.take(0) =~= Seq::<Option<Seq<char>>>::empty());
    }
    while i < ts.len()
        invariant
            tm == ts@.map_values(|o: Option<String>| opt_view(o)),
            i <= ts@.len(),
            w@ == titles_with_commas(tm.take(i as int)),
        decreases ts@.len() - i,
    {
        proof {
            assert(tm.take(i + 1).drop_last() =~= tm.take(i as int));
            assert(tm.take(i + 1).last() == opt_view(ts@[i as int]));
        }
        match &ts[i] {
            Some(t) => {
                proof {
                    reveal_strlit(",");
                }
                let ghost before = w@;
                w = w.concat(t.as_str()).concat(",");
                proof {
                    assert(w@ =~= before + t@ + seq![',']);
                }
            },
            None => {},
        }
        i = i + 1;
    }
    proof {
        assert(tm.take(ts@.len() as int) =~= tm);
    }
    let n = w.as_str().unicode_len();
    if n > 0 {
        let r = String::from_str(w.as_str().substring_char(0, n - 1));
        proof {
            assert(r@ =~= w@.drop_last());
        }
        r
    } else {
        w
    }
}

/// The candidate that a row describes; fails when a cell is missing.
pub fn candidate_from_cells(c: &RowCells) -> (r: Result<GL, CatalogError>)
    ensures
        row_complete(*c) ==> (r matches Ok(g) && candidate_of_row(g, *c)),
        !row_complete(*c) ==> r == Err::<GL, CatalogError>(CatalogError::MissingCell),
{
    if c.category.is_none() || c.posted_at.is_none() || c.url.is_none() || c.title.is_none()
        || c.pages.is_none() {
        return Err(CatalogError::MissingCell);
    }
    Ok(
        GL {
            type_: clone_cell(&c.category),
            datetime: clone_cell(&c.posted_at),
            tags: row_tags(&c.tag_titles),
            title: clone_cell(&c.title),
            pages: clone_cell(&c.pages),
            url: clone_cell(&c.url),
        },
    )
}

/// The candidates of a result table's rows: the first row is the header and
/// is skipped; every other row must be complete.
pub fn candidates_from_rows(rows: &Vec<RowCells>) -> (r: Result<Vec<GL>, CatalogError>)
    ensures
        (forall|i: int| 1 <= i < rows@.len() ==> row_complete(#[trigger] rows@[i])) ==> (r matches Ok(
            gs,
        ) && gs@.len() == (if rows@.len() == 0 {
            0
        } else {
            rows@.len() - 1
        }) && forall|i: int| 0 <= i < gs@.len() ==> candidate_of_row(#[trigger] gs@[i], rows@[i + 1])),
        (exists|i: int| 1 <= i < rows@.len() && !row_complete(#[trigger] rows@[i])) ==> r == Err::<
            Vec<GL>,
            CatalogError,
        >(CatalogError::MissingCell),
{
    let mut gs: Vec<GL> = Vec::new();
    if rows.len() == 0 {
        return Ok(gs);
    }
    let mut i: usize = 1;
    while i < rows.len()
        invariant
            1 <= i <= rows@.len(),
            gs@.len() == i - 1,
            forall|j: int| 1 <= j < i ==> row_complete(#[trigger] rows@[j]),
            forall|j: int| 0 <= j < gs@.len() ==> candidate_of_row(#[trigger] gs@[j], rows@[j + 1]),
        decreases rows@.len() - i,
    {
        match candidate_from_cells(&rows[i]) {
            Ok(g) => {
                gs.push(g);
            },
            Err(e) => {
                return Err(e);
            },
        }
        i = i + 1;
    }
    Ok(gs)
}

// ---------------------------------------------------------------- page layout

pub open spec fn rows_css() -> Seq<char> {
    "table.itg.gltc tr"@
}

pub open spec fn category_css() -> Seq<char> {
    "td:nth-child(1) div"@
}

pub open spec fn posted_css() -> Seq<char> {
    "td:nth-child(2) div:nth-child(3) div:nth-child(1)"@
}

pub open spec fn link_css() -> Seq<char> {
    "td:nth-child(3) a"@
}

pub open spec fn title_css() -> Seq<char> {
    "td:nth-child(3) a div:nth-child(1)"@
}

pub open spec fn pages_css() -> Seq<char> {
    "td:nth-child(4) div:nth-child(2)"@
}

pub open spec fn tag_nodes_css() -> Seq<char> {
    "td:nth-child(3) a div:nth-child(2) div.gt"@
}

pub open spec fn tag_anchors_css() -> Seq<char> {
    "div#taglist > table a"@
}

/// The selector of a fixed CSS text (meaningful where it parses).
pub open spec fn sel(text: Seq<char>) -> scraper::Selector {
    css_selector(text)->Some_0
}

/// Every selector of the result table's layout parses.
pub open spec fn row_selectors_parse() -> bool {
    &&& css_selector(rows_css()) is Some
    &&& css_selector(category_css()) is Some
    &&& css_selector(posted_css()) is Some
    &&& css_selector(link_css()) is Some
    &&& css_selector(title_css()) is Some
    &&& css_selector(pages_css()) is Some
    &&& css_selector(tag_nodes_css()) is Some
}

/// The text of the first descendant of `el` that `s` matches.
pub open spec fn first_match_text(el: scraper::ElementRef<'static>, s: scraper::Selector) -> Option<
    Seq<char>,
> {
    let m = element_matches(el, s);
    if m.len() == 0 {
        None
    } else {
        Some(element_text(m[0]))
    }
}

/// The `href` of the first link of the title cell of row `el`.
pub open spec fn row_link(el: scraper::ElementRef<'static>) -> Option<Seq<char>> {
    let m = element_matches(el, sel(link_css()));
    if m.len() == 0 {
        None
    } else {
        element_attr(m[0], "href"@)
    }
}

/// The `title` attributes of the tag nodes of row `el`.
pub open spec fn row_tag_titles(el: scraper::ElementRef<'static>) -> Seq<Option<Seq<char>>> {
    element_matches(el, sel(tag_nodes_css())).map_values(
        |n: scraper::ElementRef<'static>| element_attr(n, "title"@),
    )
}

/// The cells `c` are what row element `el` holds.
pub open spec fn cells_read_from(c: RowCells, el: scraper::ElementRef<'static>) -> bool {
    &&& opt_view(c.category) == first_match_text(el, sel(category_css()))
    &&& opt_view(c.posted_at) == first_match_text(el, sel(posted_css()))
    &&& opt_view(c.url) == row_link(el)
    &&& opt_view(c.title) == first_match_text(el, sel(title_css()))
    &&& opt_view(c.pages) == first_match_text(el, sel(pages_css()))
    &&& c.tag_titles@.map_values(|o: Option<String>| opt_view(o)) == row_tag_titles(el)
}

/// Row element `el` has every cell that a candidate needs.
pub open spec fn element_row_complete(el: scraper::ElementRef<'static>) -> bool {
    &&& first_match_text(el, sel(category_css())) is Some
    &&& first_match_text(el, sel(posted_css())) is Some
    &&& row_link(el) is Some
    &&& first_match_text(el, sel(title_css())) is Some
    &&& first_match_text(el, sel(pages_css())) is Some
}

/// Candidate `g` is what row element `el` describes.
pub open spec fn candidate_of_element(g: GL, el: scraper::ElementRef<'static>) -> bool {
    &&& Some(g.type_@) == first_match_text(el, sel(category_css()))
    &&& Some(g.datetime@) == first_match_text(el, sel(posted_css()))
    &&& Some(g.url@) == row_link(el)
    &&& Some(g.title@) == first_match_text(el, sel(title_css()))
    &&& Some(g.pages@) == first_match_text(el, sel(pages_css()))
    &&& g.tags@ == row_tags_of(row_tag_titles(el))
}

/// The rows of a search page's result table, header included.
pub open spec fn page_rows(page: Seq<char>) -> Seq<scraper::ElementRef<'static>> {
    document_matches(html_document(page), sel(rows_css()))
}

/// The identifiers of a detail page's tag anchors, in page order; `None`
/// when one of them has no `id`.
pub open spec fn page_tag_ids(page: Seq<char>) -> Option<Seq<Seq<char>>> {
    let anchors = document_matches(html_document(page), sel(tag_anchors_css()));
    if forall|i: int| 0 <= i < anchors.len() ==> (#[trigger] element_attr(anchors[i], "id"@)) is Some {
        Some(
            anchors.map_values(
                |a: scraper::ElementRef<'static>| element_attr(a, "id"@)->Some_0,
            ),
        )
    } else {
        None
    }
}

fn first_text(row: &scraper::ElementRef, selector: &str) -> (r: Result<
    Option<String>,
    CatalogError,
>)
    ensures
        css_selector(selector@) is None ==> r == Err::<Option<String>, CatalogError>(
            CatalogError::Selector,
        ),
        css_selector(selector@) matches Some(s) ==> (r matches Ok(o) && opt_view(o)
            == first_match_text(*row, s)),
{
    match css(selector) {
        None => Err(CatalogError::Selector),
        Some(sel) => {
            let found = select_in_element(row, &sel);
            if found.len() == 0 {
                Ok(None)
            } else {
                Ok(Some(inner_text(&found[0])))
            }
        },
    }
}

fn cells_of_row(row: &scraper::ElementRef) -> (r: Result<RowCells, CatalogError>)
    ensures
        r matches Err(e) ==> e == CatalogError::Selector && !row_selectors_parse(),
        row_selectors_parse() ==> (r matches Ok(c) && cells_read_from(c, *row)),
{
    proof {
        reveal_strlit("td:nth-child(1) div");
        reveal_strlit("td:nth-child(2) div:nth-child(3) div:nth-child(1)");
        reveal_strlit("td:nth-child(3) a div:nth-child(1)");
        reveal_strlit("td:nth-child(4) div:nth-child(2)");
        reveal_strlit("td:nth-child(3) a");
        reveal_strlit("td:nth-child(3) a div:nth-child(2) div.gt");
        reveal_strlit("href");
        reveal_strlit("title");
    }
    let category = first_text(row, "td:nth-child(1) div")?;
    let posted_at = first_text(row, "td:nth-child(2) div:nth-child(3) div:nth-child(1)")?;
    let title = first_text(row, "td:nth-child(3) a div:nth-child(1)")?;
    let pages = first_text(row, "td:nth-child(4) div:nth-child(2)")?;
    let url = match css("td:nth-child(3) a") {
        None => {
            return Err(CatalogError::Selector);
        },
        Some(sel) => {
            let links = select_in_element(row, &sel);
            if links.len() == 0 {
                None
            } else {
                attribute(&links[0], "href")
            }
        },
    };
    let tag_titles = match css("td:nth-child(3) a div:nth-child(2) div.gt") {
        None => {
            return Err(CatalogError::Selector);
        },
        Some(sel) => {
            let nodes = select_in_element(row, &sel);
            let mut titles: Vec<Option<String>> = Vec::new();
            let mut i: usize = 0;
            while i < nodes.len()
                invariant
                    i <= nodes@.len(),
                    titles@.len() == i,
                    forall|j: int|
                        0 <= j < i ==> opt_view(#[trigger] titles@[j]) == element_attr(
                            nodes@[j],
                            "title"@,
                        ),
                decreases nodes@.len() - i,
            {
                proof {
                    reveal_strlit("title");
                }
                titles.push(attribute(&nodes[i], "title"));
                i = i + 1;
            }
            proof {
                assert(titles@.map_values(|o: Option<String>| opt_view(o)) =~= nodes@.map_values(
                    |n: scraper::ElementRef<'static>| element_attr(n, "title"@),
                ));
            }
            titles
        },
    };
    Ok(RowCells { category, posted_at, url, title, pages, tag_titles })
}

/// Cells read from a row element are complete exactly when the row is.
proof fn lemma_cells_complete(c: RowCells, el: scraper::ElementRef<'static>)
    requires
        cells_read_from(c, el),
    ensures
        row_complete(c) == element_row_complete(el),
{
}

/// A candidate of cells read from a row element is a candidate of the row.
proof fn lemma_cells_candidate(c: RowCells, el: scraper::ElementRef<'static>, g: GL)
    requires
        cells_read_from(c, el),
        candidate_of_row(g, c),
    ensures
        candidate_of_element(g, el),
{
}

/// The candidates of a catalog search page: the rows of its result table
/// (`table.itg.gltc`), header skipped. Fails when a row lacks a cell.
pub fn candidates_from_page(page: &str) -> (r: Result<Vec<GL>, CatalogError>)
    ensures
        row_selectors_parse() ==> {
            let trs = page_rows(page@);
            &&& (forall|i: int| 1 <= i < trs.len() ==> element_row_complete(#[trigger] trs[i]))
                ==> (r matches Ok(gs) && gs@.len() == (if trs.len() == 0 {
                0
            } else {
                trs.len() - 1
            }) && forall|i: int|
                0 <= i < gs@.len() ==> candidate_of_element(#[trigger] gs@[i], trs[i + 1]))
            &&& (exists|i: int| 1 <= i < trs.len() && !element_row_complete(#[trigger] trs[i]))
                ==> r == Err::<Vec<GL>, CatalogError>(CatalogError::MissingCell)
        },
        r matches Err(e) ==> e == CatalogError::MissingCell || (e == CatalogError::Selector
            && !row_selectors_parse()),
{
    proof {
        reveal_strlit("table.itg.gltc tr");
    }
    let doc = parse_html(page);
    let sel = match css("table.itg.gltc tr") {
        None => {
            return Err(CatalogError::Selector);
        },
        Some(sel) => sel,
    };
    let trs = select_in_document(&doc, &sel);
    proof {
        assert(row_selectors_parse() ==> trs@ == page_rows(page@));
    }
    let mut rows: Vec<RowCells> = Vec::new();
    let mut i: usize = 0;
    while i < trs.len()
        invariant
            row_selectors_parse() ==> trs@ == page_rows(page@),
            i <= trs@.len(),
            rows@.len() == i,
            row_selectors_parse() ==> forall|j: int|
                0 <= j < i ==> cells_read_from(#[trigger] rows@[j], trs@[j]),
        decreases trs@.len() - i,
    {
        let cells = cells_of_row(&trs[i])?;
        rows.push(cells);
        i = i + 1;
    }
    let r = candidates_from_rows(&rows);
    proof {
        if row_selectors_parse() {
            assert forall|j: int| 0 <= j < rows@.len() implies row_complete(#[trigger] rows@[j])
                == element_row_complete(trs@[j]) by {
                lemma_cells_complete(rows@[j], trs@[j]);
            }
            if forall|k: int| 1 <= k < trs@.len() ==> element_row_complete(#[trigger] trs@[k]) {
                assert forall|k: int| 1 <= k < rows@.len() implies row_complete(
                    #[trigger] rows@[k],
                ) by {
                    assert(element_row_complete(trs@[k]));
                }
            }
            if exists|k: int| 1 <= k < trs@.len() && !element_row_complete(#[trigger] trs@[k]) {
                let k = choose|k: int| 1 <= k < trs@.len() && !element_row_complete(
                    #[trigger] trs@[k],
                );
                assert(!row_complete(rows@[k]));
            }
            if let Ok(gs) = &r {
                assert forall|j: int| 0 <= j < gs@.len() implies candidate_of_element(
                    #[trigger] gs@[j],
                    trs@[j + 1],
                ) by {
                    lemma_cells_candidate(rows@[j + 1], trs@[j + 1], gs@[j]);
                }
            }
        }
    }
    r
}

/// The identifiers of the tag anchors of a candidate's detail page
/// (`div#taglist > table a`), in page order. Fails when one lacks its `id`.
pub fn detail_tag_ids(page: &str) -> (r: Result<Vec<String>, CatalogError>)
    ensures
        css_selector(tag_anchors_css()) is None ==> r == Err::<Vec<String>, CatalogError>(
            CatalogError::Selector,
        ),
        css_selector(tag_anchors_css()) is Some ==> match page_tag_ids(page@) {
            Some(ids) => r matches Ok(v) && texts_of(v@) == ids,
            None => r == Err::<Vec<String>, CatalogError>(CatalogError::MissingTagId),
        },
{
    proof {
        reveal_strlit("div#taglist > table a");
        reveal_strlit("id");
    }
    let doc = parse_html(page);
    let sel = match css("div#taglist > table a") {
        None => {
            return Err(CatalogError::Selector);
        },
        Some(sel) => sel,
    };
    let anchors = select_in_document(&doc, &sel);
    let ghost all = document_matches(html_document(page@), sel);
    proof {
        assert(anchors@ == all);
    }
    let mut ids: Vec<String> = Vec::new();
    let mut i: usize = 0;
    while i < anchors.len()
        invariant
            css_selector(tag_anchors_css()) == Some(sel),
            anchors@ == document_matches(html_document(page@), sel),
            i <= anchors@.len(),
            ids@.len() == i,
            forall|j: int|
                0 <= j < i ==> element_attr(anchors@[j], "id"@) == Some(#[trigger] ids@[j]@),
        decreases anchors@.len() - i,
    {
        proof {
            reveal_strlit("id");
        }
        match attribute(&anchors[i], "id") {
            Some(id) => ids.push(id),
            None => {
                proof {
                    assert(element_attr(anchors@[i as int], "id"@) is None);
                    assert(page_tag_ids(page@) is None);
                }
                return Err(CatalogError::MissingTagId);
            },
        }
        i = i + 1;
    }
    proof {
        assert forall|j: int| 0 <= j < anchors@.len() implies (#[trigger] element_attr(
            anchors@[j],
            "id"@,
        )) is Some by {
            assert(element_attr(anchors@[j], "id"@) == Some(ids@[j]@));
        }
        assert(texts_of(ids@) =~= anchors@.map_values(
            |a: scraper::ElementRef<'static>| element_attr(a, "id"@)->Some_0,
        ));
    }
    Ok(ids)
}

// ---------------------------------------------------------------- ranking

/// Similarity in tenths of a percent (0 to 1000), from the two lengths and
/// the edit distance: `1 - d / max(len)`, rounded half up; two empty strings
/// are identical.
pub open spec fn similarity_of(a_len: nat, b_len: nat, d: nat) -> nat {
    let m = if a_len >= b_len { a_len } else { b_len };
    if m == 0 {
        1000
    } else if d >= m {
        0
    } else {
        ((2000 * (m - d) + m) as int / (2 * m) as int) as nat
    }
}

/// Similarity in tenths of a percent from lengths and a distance.
pub fn similarity_from_distance(a_len: usize, b_len: usize, d: usize) -> (r: u64)
    ensures
        r == similarity_of(a_len as nat, b_len as nat, d as nat),
        r <= 1000,
{
    let m: usize = if a_len >= b_len { a_len } else { b_len };
    if m == 0 {
        1000
    } else if d >= m {
        0
    } else {
        let num: u128 = 2000 * ((m - d) as u128) + m as u128;
        let den: u128 = 2 * (m as u128);
        proof {
            assert(num <= 2000 * m + m) by (nonlinear_arith)
                requires
                    num == 2000 * (m - d) + m,
                    d < m,
            ;
            assert(num / den <= 1000) by (nonlinear_arith)
                requires
                    num <= 2000 * m + m,
                    den == 2 * m,
                    m > 0,
            ;
        }
        (num / den) as u64
    }
}

/// Similarity, in tenths of a percent, between two titles.
pub fn similarity_tenths(a: &str, b: &str) -> (r: u64)
    ensures
        r == similarity_of(a@.len(), b@.len(), damerau_distance(a@, b@)),
        a@ == b@ ==> r == 1000,
{
    let d = edit_distance(a, b);
    proof {
        lemma_similarity_bounds(a@.len(), b@.len(), d as nat);
    }
    similarity_from_distance(a.unicode_len(), b.unicode_len(), d)
}

/// Two strings at distance zero score 1000; a distance that reaches the
/// longer length scores 0.
pub proof fn lemma_similarity_bounds(a_len: nat, b_len: nat, d: nat)
    ensures
        a_len == b_len ==> similarity_of(a_len, b_len, 0) == 1000,
        (d >= a_len && d >= b_len && (a_len > 0 || b_len > 0)) ==> similarity_of(
            a_len,
            b_len,
            d,
        ) == 0,
{
    let m = if a_len >= b_len { a_len } else { b_len };
    if a_len == b_len && m > 0 {
        assert((2000 * m + m) / (2 * m) == 1000) by (nonlinear_arith)
            requires m > 0;
    }
}

/// `"<whole>.<tenth>%"` for a similarity in tenths of a percent.
pub open spec fn percent_label_of(t: nat) -> Seq<char> {
    digits_of(t / 10) + seq!['.', digit_char(t % 10), '%']
}

/// The label of a similarity in tenths of a percent, such as `97.5%`.
pub fn percent_label(t: u64) -> (r: String)
    ensures
        r@ == percent_label_of(t as nat),
{
    let whole = digits(t / 10);
    let tenth = digits(t % 10);
    proof {
        reveal_strlit(".");
        reveal_strlit("%");
        assert(digits_of((t % 10) as nat) == seq![digit_char((t % 10) as nat)]);
    }
    let r = whole.concat(".").concat(tenth.as_str()).concat("%");
    proof {
        assert(r@ =~= percent_label_of(t as nat));
    }
    r
}

/// A page-count label, such as `24 pages`, states exactly the archive's page
/// count.
pub open spec fn pages_match(pages: Seq<char>, pagecount: int) -> bool {
    strip_suffixes(pages, " pages"@) == decimal_of(pagecount)
}

/// The page cell of a candidate: its label, marked when it matches.
pub open spec fn page_cell_of(pages: Seq<char>, pagecount: int) -> Seq<char> {
    if pages_match(pages, pagecount) {
        pages + "\u{2705}"@
    } else {
        pages
    }
}

/// One line of the comparison shown to the operator.
pub struct CandidateRow {
    /// 1-based position in the catalog's order.
    pub number: String,
    pub title: String,
    /// Similarity to the archive's title, such as `97.5%`.
    pub similarity: String,
    /// The page-count label, marked when it equals the archive's page count.
    pub pages: String,
    pub posted_at: String,
}

/// What the row of candidate `g`, shown at 1-based position `number`, holds
/// for archive `a`. The similarity is taken against the archive's title
/// without its decorations.
pub open spec fn row_shows(row: CandidateRow, number: int, a: Archive, g: GL) -> bool {
    &&& row.number@ == decimal_of(number)
    &&& row.title@ == g.title@
    &&& row.similarity@ == percent_label_of(
        similarity_of(
            undecorated(a.title@).len(),
            g.title@.len(),
            damerau_distance(undecorated(a.title@), g.title@),
        ),
    )
    &&& row.pages@ == page_cell_of(g.pages@, a.pagecount as int)
    &&& row.posted_at@ == g.datetime@
}

impl Archive {
    /// Whether candidate `g`'s page-count label states this archive's page
    /// count.
    pub fn page_matches(&self, g: &GL) -> (r: bool)
        ensures
            r == pages_match(g.pages@, self.pagecount as int),
    {
        proof {
            reveal_strlit(" pages");
        }
        let stripped = trim_end_all(g.pages.as_str(), " pages");
        let count = decimal(self.pagecount as i64);
        same_text(stripped, count.as_str())
    }

    /// The comparison of every candidate with this archive, in the catalog's
    /// order.
    pub fn comparison_rows(&self, gls: &Vec<GL>) -> (r: Vec<CandidateRow>)
        requires
            gls@.len() < i64::MAX,
        ensures
            r@.len() == gls@.len(),
            forall|i: int| 0 <= i < gls@.len() ==> row_shows(#[trigger] r@[i], i + 1, *self, gls@[i]),
    {
        let plain = undecorated_title(self.title.as_str());
        let mut rows: Vec<CandidateRow> = Vec::new();
        let mut i: usize = 0;
        while i < gls.len()
            invariant
                i <= gls@.len(),
                gls@.len() < i64::MAX,
                rows@.len() == i,
                plain@ == undecorated(self.title@),
                forall|j: int| 0 <= j < i ==> row_shows(#[trigger] rows@[j], j + 1, *self, gls@[j]),
            decreases gls@.len() - i,
        {
            let g = &gls[i];
            let sim = similarity_tenths(plain.as_str(), g.title.as_str());
            let pages = if self.page_matches(g) {
                proof {
                    reveal_strlit("\u{2705}");
                }
                g.pages.clone().concat("\u{2705}")
            } else {
                g.pages.clone()
            };
            let row = CandidateRow {
                number: decimal((i + 1) as i64),
                title: g.title.clone(),
                similarity: percent_label(sim),
                pages,
                posted_at: g.datetime.clone(),
            };
            rows.push(row);
            i = i + 1;
        }
        rows
    }
}

/// The operator's answer read as a choice: a 1-based index within
/// `[1, count]` picks that candidate (returned 0-based); anything else skips.
pub fn select_candidate(index: i32, count: usize) -> (r: Option<usize>)
    ensures
        r == (if 1 <= index && index as int <= count as int {
            Some((index - 1) as usize)
        } else {
            None::<usize>
        }),
{
    if 1 <= index && (index as usize) <= count {
        Some((index - 1) as usize)
    } else {
        None
    }
}

// ---------------------------------------------------------------- tags of a candidate

/// `s` with each underscore turned into a space.
pub open spec fn underscores_to_spaces(s: Seq<char>) -> Seq<char> {
    s.map_values(|c: char| if c == '_' { ' ' } else { c })
}

/// The dictionary key of a tag anchor's identifier: leading `ta_` removed,
/// underscores turned into spaces.
pub open spec fn raw_tag_key(id: Seq<char>) -> Seq<char> {
    underscores_to_spaces(strip_prefixes(id, "ta_"@))
}

/// Each identifier's tag, translated, followed by a comma.
pub open spec fn translated_list(dict: Map<Seq<char>, Seq<char>>, ids: Seq<Seq<char>>) -> Seq<char>
    decreases ids.len(),
{
    if ids.len() == 0 {
        Seq::empty()
    } else {
        translated_list(dict, ids.drop_last()) + translated(dict, raw_tag_key(ids.last()))
            + seq![',']
    }
}

/// The texts of a list of strings.
pub open spec fn texts_of(v: Seq<String>) -> Seq<Seq<char>> {
    v.map_values(|x: String| x@)
}

/// The tag text of a candidate: its translated tags, then `source:` with the
/// address without `https://`, then `timestamp:` with its posting time.
pub open spec fn candidate_tags_of(
    dict: Map<Seq<char>, Seq<char>>,
    ids: Seq<Seq<char>>,
    url: Seq<char>,
    ts: int,
) -> Seq<char> {
    translated_list(dict, ids) + "source:"@ + strip_prefixes(url, "https://"@) + ",timestamp:"@
        + decimal_of(ts)
}

/// The dictionary key of one tag anchor identifier.
pub fn tag_key_of_id(id: &str) -> (r: String)
    ensures
        r@ == raw_tag_key(id@),
{
    proof {
        reveal_strlit("ta_");
        reveal_strlit(" ");
    }
    let s = trim_start_all(id, "ta_");
    let n = s.unicode_len();
    let mut r = String::new();
    let mut i: usize = 0;
    while i < n
        invariant
            n == s@.len(),
            i <= n,
            r@ == underscores_to_spaces(s@.take(i as int)),
        decreases n - i,
    {
        let c = s.get_char(i);
        proof {
            reveal_strlit(" ");
            assert(s@.take(i + 1) =~= s@.take(i as int).push(c));
        }
        let piece: &str = if c == '_' {
            " "
        } else {
            s.substring_char(i, i + 1)
        };
        proof {
            assert(piece@ =~= seq![if c == '_' { ' ' } else { c }]);
        }
        r = r.concat(piece);
        proof {
            assert(r@ =~= underscores_to_spaces(s@.take(i + 1)));
        }
        i = i + 1;
    }
    proof {
        assert(s@.take(n as int) =~= s@);
    }
    r
}

/// The tag text of candidate `url`, from the identifiers of its tag anchors
/// and its posting time in seconds.
pub fn candidate_tag_text(dict: &TagDictionary, ids: &Vec<String>, url: &str, timestamp: i64) -> (r:
    String)
    ensures
        r@ == candidate_tags_of(dict@, texts_of(ids@), url@, timestamp as int),
{
    proof {
        reveal_strlit(",");
        reveal_strlit("source:");
        reveal_strlit("https://");
        reveal_strlit(",timestamp:");
    }
    let mut r = String::new();
    let mut i: usize = 0;
    proof {
        assert(texts_of(ids@).take(0) =~= Seq::<Seq<char>>::empty());
    }
    while i < ids.len()
        invariant
            i <= ids@.len(),
            r@ == translated_list(dict@, texts_of(ids@).take(i as int)),
        decreases ids@.len() - i,
    {
        proof {
            assert(texts_of(ids@).take(i + 1).drop_last() =~= texts_of(ids@).take(i as int));
            assert(texts_of(ids@).take(i + 1).last() == ids@[i as int]@);
        }
        let key = tag_key_of_id(ids[i].as_str());
        let t = dict.translate(key.as_str());
        let ghost before = r@;
        r = r.concat(t.as_str()).concat(",");
        proof {
            reveal_strlit(",");
            assert(r@ =~= before + translated(dict@, raw_tag_key(ids@[i as int]@)) + seq![',']);
        }
        i = i + 1;
    }
    proof {
        assert(texts_of(ids@).take(ids@.len() as int) =~= texts_of(ids@));
    }
    let host_path = trim_start_all(url, "https://");
    let ts = decimal(timestamp);
    r.concat("source:").concat(host_path).concat(",timestamp:").concat(ts.as_str())
}

impl GL {
    /// The tag text of this candidate from the identifiers of its detail
    /// page's tag anchors; fails when its posting time cannot be read.
    pub fn tags_from_ids(&self, ids: &Vec<String>, dict: &TagDictionary) -> (r: Result<
        String,
        CatalogError,
    >)
        ensures
            match utc_seconds(self.datetime@) {
                None => r == Err::<String, CatalogError>(CatalogError::DateParse),
                Some(ts) => r matches Ok(s) && s@ == candidate_tags_of(
                    dict@,
                    texts_of(ids@),
                    self.url@,
                    ts as int,
                ),
            },
    {
        match parse_posted_at(self.datetime.as_str()) {
            None => Err(CatalogError::DateParse),
            Some(ts) => Ok(candidate_tag_text(dict, ids, self.url.as_str(), ts)),
        }
    }

    /// The tag text of this candidate from its detail page: fails when the
    /// page's tag anchors cannot be read or its posting time has no parse.
    pub fn tags_from_detail_page(&self, page: &str, dict: &TagDictionary) -> (r: Result<
        String,
        CatalogError,
    >)
        ensures
            css_selector(tag_anchors_css()) is None ==> r == Err::<String, CatalogError>(
                CatalogError::Selector,
            ),
            css_selector(tag_anchors_css()) is Some ==> match page_tag_ids(page@) {
                None => r == Err::<String, CatalogError>(CatalogError::MissingTagId),
                Some(ids) => match utc_seconds(self.datetime@) {
                    None => r == Err::<String, CatalogError>(CatalogError::DateParse),
                    Some(ts) => r matches Ok(s) && s@ == candidate_tags_of(
                        dict@,
                        ids,
                        self.url@,
                        ts as int,
                    ),
                },
            },
    {
        let ids = detail_tag_ids(page)?;
        self.tags_from_ids(&ids, dict)
    }
}

} // verus!
