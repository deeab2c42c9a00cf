use eh_tagger::archive::{archives_url, Archive};
use eh_tagger::eh::{
    candidate_from_cells, candidate_tag_text, candidates_from_page, candidates_from_rows,
    detail_tag_ids, percent_label, row_tags, search_url, select_candidate,
    similarity_from_distance, similarity_tenths, tag_key_of_id, CatalogError, RowCells, GL,
};
use eh_tagger::reconcile::{after_choice, after_search, after_write_back, Action, Unresolved};
use eh_tagger::retry::{Attempt, RetryDecision, RetryState};
use eh_tagger::tag::{parse_data, DictionaryError, NamespaceSource, TagDictionary, TagSource};
use eh_tagger::text::decimal;
use eh_tagger::title::{extract_title, undecorated_title};
use eh_tagger::unhandle::Ledger;

fn archive(tags: &str, title: &str, pagecount: i32) -> Archive {
    Archive {
        arcid: "abc123".to_string(),
        extension: "zip".to_string(),
        isnew: "false".to_string(),
        lastreadtime: 0,
        pagecount,
        progress: 0,
        tags: tags.to_string(),
        title: title.to_string(),
    }
}

fn candidate(title: &str, pages: &str, datetime: &str, url: &str) -> GL {
    GL {
        type_: "Manga".to_string(),
        datetime: datetime.to_string(),
        tags: String::new(),
        title: title.to_string(),
        pages: pages.to_string(),
        url: url.to_string(),
    }
}

#[test]
fn extract_bracketed_title() {
    assert_eq!(extract_title("[Group] Title [English]"), "Title");
    assert_eq!(extract_title("[X]   Word   [Y]"), "Word");
    assert_eq!(extract_title("(C99) Title"), "Title");
}

#[test]
fn extract_after_double_group() {
    assert_eq!(extract_title("[A][B] Title [Y]"), "Title");
}

#[test]
fn extract_single_char_retries_on_rest() {
    // The first capture is `x`; the search goes on after it.
    assert_eq!(extract_title("[a] x [b] Longer"), "Longer");
    // The retry finds only one character again: no match.
    assert_eq!(extract_title("[a] x [b] y"), "");
    // The retry finds nothing: no match.
    assert_eq!(extract_title("[a] x"), "");
}

#[test]
fn extract_stops_at_separators() {
    assert_eq!(extract_title("[G] Title\u{FF5C}Other"), "Title");
    assert_eq!(extract_title("[G] Title(Extra)"), "Title");
    assert_eq!(extract_title("[G] My Comic [Extra]"), "My");
}

#[test]
fn extract_without_segments_is_empty() {
    assert_eq!(extract_title("plain title without segments"), "");
    assert_eq!(extract_title(""), "");
    assert_eq!(extract_title("[unclosed Title"), "");
}

#[test]
fn empty_tags_predicate() {
    assert!(archive("", "t", 1).is_empty_tags());
    assert!(archive("date_added_2021", "t", 1).is_empty_tags());
    assert!(!archive("date_added_2021,artist:foo", "t", 1).is_empty_tags());
    assert!(!archive("artist:foo", "t", 1).is_empty_tags());
}

#[test]
fn regex_title_uses_archive_title() {
    assert_eq!(archive("", "[Group] My Comic [Extra]", 20).regex_title(), "My");
}

#[test]
fn similarity_identical_and_disjoint() {
    assert_eq!(similarity_tenths("My Comic", "My Comic"), 1000);
    assert_eq!(similarity_tenths("", ""), 1000);
    assert_eq!(similarity_tenths("abc", "xyz"), 0);
    assert_eq!(similarity_tenths("", "flower"), 0);
}

#[test]
fn similarity_rounds_to_tenths() {
    // distance 1 over 3 characters: 66.67% -> 66.7%
    assert_eq!(similarity_tenths("abc", "abd"), 667);
    assert_eq!(similarity_from_distance(3, 3, 1), 667);
    assert_eq!(similarity_from_distance(8, 4, 2), 750);
    assert_eq!(percent_label(667), "66.7%");
    assert_eq!(percent_label(1000), "100.0%");
    assert_eq!(percent_label(5), "0.5%");
}

#[test]
fn decimal_forms() {
    assert_eq!(decimal(0), "0");
    assert_eq!(decimal(1672531200), "1672531200");
    assert_eq!(decimal(-42), "-42");
    assert_eq!(decimal(i64::MIN), "-9223372036854775808");
}

#[test]
fn ledger_keeps_append_order() {
    let mut ledger = Ledger::new();
    let titles = ["[a] One", "[b] Two", "[c] Three"];
    for t in titles.iter() {
        ledger.append(archive("", t, 1));
    }
    assert_eq!(ledger.len(), 3);
    let got: Vec<String> = ledger.entries().iter().map(|a| a.title.clone()).collect();
    assert_eq!(got, vec!["[a] One", "[b] Two", "[c] Three"]);
    let reloaded = Ledger::from_entries(ledger.entries().clone());
    let again: Vec<String> = reloaded.entries().iter().map(|a| a.title.clone()).collect();
    assert_eq!(again, got);
}

#[test]
fn unknown_tag_passes_through() {
    let mut dict = TagDictionary::new();
    dict.insert("artist:foo".to_string(), "Artist:Foo".to_string());
    assert_eq!(dict.translate("artist:bar"), "artist:bar");
    assert_eq!(dict.translate(&dict.translate("artist:bar")), "artist:bar");
    assert_eq!(dict.translate("artist:foo"), "Artist:Foo");
    dict.insert("artist:foo".to_string(), "Artist:Newer".to_string());
    assert_eq!(dict.translate("artist:foo"), "Artist:Newer");
}

#[test]
fn dictionary_from_sources_applies_overrides() {
    let sources = vec![
        NamespaceSource {
            namespace: "reclass".to_string(),
            display_name: "Category".to_string(),
            tags: Some(vec![
                TagSource { key: "artistacg".to_string(), name: Some("Artist CG".to_string()) },
                TagSource { key: "doujinshi".to_string(), name: Some("Doujin".to_string()) },
                TagSource { key: "skipped".to_string(), name: None },
            ]),
        },
        NamespaceSource {
            namespace: "female".to_string(),
            display_name: "F".to_string(),
            tags: None,
        },
    ];
    let dict = TagDictionary::from_sources(&sources);
    assert_eq!(dict.translate("category:artist cg"), "Category:Artist CG");
    assert_eq!(dict.translate("category:doujinshi"), "Category:Doujin");
    assert_eq!(dict.translate("category:skipped"), "category:skipped");
}

#[test]
fn parse_data_reads_snapshot() {
    let text = r#"{"data":[{"namespace":"reclass","frontMatters":{"name":"Category"},
        "data":{"gamecg":{"name":"Game CG"},"imageset":{"name":"Images"},"bad":3}},
        {"namespace":"artist","frontMatters":{"name":"Artist"},"data":{"foo_bar":{}}},
        {"namespace":"x"}]}"#;
    let value: serde_json::Value = serde_json::from_str(text).unwrap();
    let dict = parse_data(&value).unwrap();
    assert_eq!(dict.translate("category:game cg"), "Category:Game CG");
    assert_eq!(dict.translate("category:image set"), "Category:Images");
    assert_eq!(dict.translate("category:bad"), "category:bad");
    // A tag object without a name is malformed and skipped.
    assert_eq!(dict.translate("artist:foo_bar"), "artist:foo_bar");
}

#[test]
fn parse_data_gives_exactly_the_rows() {
    let text = r#"{"data": [{"namespace": "reclass", "frontMatters": {"name": "分类"},
        "data": {"doujinshi": {"name": "同人志"}, "artistacg": {"name": "画师CG"}}}]}"#;
    let value: serde_json::Value = serde_json::from_str(text).unwrap();
    let dict = parse_data(&value).unwrap();
    assert_eq!(dict.translate("category:doujinshi"), "分类:同人志");
    assert_eq!(dict.translate("category:artist cg"), "分类:画师CG");
    assert_eq!(dict.translate("reclass:doujinshi"), "reclass:doujinshi");
    assert_eq!(dict.translate("category:artistacg"), "category:artistacg");
}

#[test]
fn parse_data_without_array_is_malformed() {
    let value: serde_json::Value = serde_json::from_str(r#"{"other":1}"#).unwrap();
    assert_eq!(parse_data(&value).err(), Some(DictionaryError::MalformedDictionary));
    let value: serde_json::Value = serde_json::from_str(r#"{"data":{}}"#).unwrap();
    assert_eq!(parse_data(&value).err(), Some(DictionaryError::MalformedDictionary));
}

#[test]
fn search_url_encodes_query() {
    assert_eq!(search_url("My Comic"), "https://exhentai.org/?f_search=My+Comic");
    assert_eq!(search_url("a&b/c*-._"), "https://exhentai.org/?f_search=a%26b%2Fc*-._");
    assert_eq!(search_url("\u{00e9}"), "https://exhentai.org/?f_search=%C3%A9");
}

#[test]
fn archive_urls() {
    assert_eq!(archives_url("192.168.0.1:3000"), "http://192.168.0.1:3000/api/archives");
    assert_eq!(
        archive("", "t", 1).metadata_url("host:1"),
        "http://host:1/api/archives/abc123/metadata"
    );
    assert_eq!(archive("date_added_1", "t", 1).merged_tags("a:b"), "date_added_1,a:b");
}

#[test]
fn tag_keys_of_anchor_ids() {
    assert_eq!(tag_key_of_id("ta_female:big_breasts"), "female:big breasts");
    assert_eq!(tag_key_of_id("ta_ta_x"), "x");
    assert_eq!(tag_key_of_id("plain"), "plain");
}

#[test]
fn row_tags_join_present_titles() {
    assert_eq!(row_tags(&vec![Some("a".to_string()), None, Some("b".to_string())]), "a,b");
    assert_eq!(row_tags(&vec![]), "");
    assert_eq!(row_tags(&vec![Some(String::new()), Some("b".to_string())]), ",b");
}

fn full_row(title: &str) -> RowCells {
    RowCells {
        category: Some("Manga".to_string()),
        posted_at: Some("2023-01-01 00:00".to_string()),
        url: Some("https://exhentai.org/g/1/abc/".to_string()),
        title: Some(title.to_string()),
        pages: Some("20 pages".to_string()),
        tag_titles: vec![Some("female:x".to_string())],
    }
}

#[test]
fn rows_skip_header_and_need_every_cell() {
    let header = RowCells {
        category: None,
        posted_at: None,
        url: None,
        title: None,
        pages: None,
        tag_titles: vec![],
    };
    let gs = candidates_from_rows(&vec![header, full_row("One"), full_row("Two")]).unwrap();
    assert_eq!(gs.len(), 2);
    assert_eq!(gs[0].title, "One");
    assert_eq!(gs[1].tags, "female:x");
    let mut broken = full_row("Three");
    broken.pages = None;
    assert_eq!(candidate_from_cells(&broken).err(), Some(CatalogError::MissingCell));
    assert!(candidates_from_rows(&vec![full_row("h"), broken]).is_err());
    assert_eq!(candidates_from_rows(&vec![full_row("h")]).unwrap().len(), 0);
}

const SEARCH_PAGE: &str = r#"<html><body><table class="itg gltc"><tbody>
<tr><th>Type</th><th>Published</th><th>Title</th><th>Uploader</th></tr>
<tr><td><div>Manga</div></td>
<td><div>x</div><div>y</div><div><div>2023-01-01 00:00</div></div></td>
<td><a href="https://exhentai.org/g/1/abc/"><div>My Comic</div><div><div class="gt" title="female:a"></div><div class="gt" title="male:b"></div></div></a></td>
<td><div>u</div><div>20 pages</div></td></tr>
</tbody></table></body></html>"#;

#[test]
fn search_page_gives_candidates() {
    let gs = candidates_from_page(SEARCH_PAGE).unwrap();
    assert_eq!(gs.len(), 1);
    assert_eq!(gs[0].type_, "Manga");
    assert_eq!(gs[0].datetime, "2023-01-01 00:00");
    assert_eq!(gs[0].url, "https://exhentai.org/g/1/abc/");
    assert_eq!(gs[0].title, "My Comic");
    assert_eq!(gs[0].pages, "20 pages");
    assert_eq!(gs[0].tags, "female:a,male:b");
    let empty = r#"<table class="itg gltc"><tr><th>h</th></tr></table>"#;
    assert_eq!(candidates_from_page(empty).unwrap().len(), 0);
}

#[test]
fn detail_page_gives_tag_ids() {
    let page = r#"<div id="taglist"><table><tr><td><a id="ta_female:big_breasts">b</a><a id="ta_language:english">e</a></td></tr></table></div>"#;
    assert_eq!(
        detail_tag_ids(page).unwrap(),
        vec!["ta_female:big_breasts".to_string(), "ta_language:english".to_string()]
    );
    let bad = r#"<div id="taglist"><table><tr><td><a>b</a></td></tr></table></div>"#;
    assert_eq!(detail_tag_ids(bad).err(), Some(CatalogError::MissingTagId));
}

#[test]
fn end_to_end_resolved_archive() {
    let a = archive("date_added_1700000000", "[Group] My Comic [Extra]", 20);
    assert!(a.is_empty_tags());
    match a.first_action() {
        Action::Search(p) => assert_eq!(p, "My"),
        _ => panic!("expected a search"),
    }
    let gs = vec![candidate("My Comic", "20 pages", "2023-01-01 00:00", "https://exhentai.org/g/1/abc/")];
    assert!(matches!(after_search::<()>(Ok(gs.len())), Action::AskChoice(1)));
    let rows = a.comparison_rows(&gs);
    assert_eq!(rows[0].number, "1");
    assert_eq!(rows[0].pages, "20 pages\u{2705}");
    assert_eq!(rows[0].posted_at, "2023-01-01 00:00");
    assert_eq!(rows[0].similarity, "100.0%");
    assert_eq!(similarity_tenths("My Comic", &gs[0].title), 1000);
    assert!(a.page_matches(&gs[0]));
    assert!(matches!(after_choice(1, gs.len()), Action::FetchTags(0)));
    let mut dict = TagDictionary::new();
    dict.insert("female:big breasts".to_string(), "F:Big".to_string());
    let ids = vec!["ta_female:big_breasts".to_string(), "ta_other:x".to_string()];
    let tags = gs[0].tags_from_ids(&ids, &dict).unwrap();
    assert_eq!(tags, "F:Big,other:x,source:exhentai.org/g/1/abc/,timestamp:1672531200");
    match a.after_tags::<()>(Ok(tags)) {
        Action::WriteBack(m) => assert_eq!(
            m,
            "date_added_1700000000,F:Big,other:x,source:exhentai.org/g/1/abc/,timestamp:1672531200"
        ),
        _ => panic!("expected a write-back"),
    }
    assert!(matches!(after_write_back(true), Action::Done));
}

#[test]
fn end_to_end_no_candidates_is_recorded() {
    assert!(matches!(
        after_search::<()>(Ok(0)),
        Action::Record(Unresolved::NoSearchResults)
    ));
    assert!(matches!(after_search::<()>(Err(())), Action::Record(Unresolved::FetchFailed)));
    let a = archive("", "no segments", 3);
    assert!(matches!(a.first_action(), Action::Record(Unresolved::NoTitleMatch)));
    assert!(matches!(archive("artist:x", "[a] b", 1).first_action(), Action::Pass));
}

#[test]
fn end_to_end_write_back_failure_aborts() {
    assert!(matches!(after_write_back(false), Action::Abort));
}

#[test]
fn operator_choice_bounds() {
    assert_eq!(select_candidate(0, 3), None);
    assert_eq!(select_candidate(1, 3), Some(0));
    assert_eq!(select_candidate(3, 3), Some(2));
    assert_eq!(select_candidate(4, 3), None);
    assert_eq!(select_candidate(-1, 3), None);
    assert!(matches!(after_choice(0, 2), Action::Record(Unresolved::OperatorSkip)));
}

#[test]
fn bad_date_is_a_parse_error() {
    let g = candidate("t", "1 pages", "01/01/2023", "https://exhentai.org/g/2/x/");
    assert_eq!(g.tags_from_ids(&vec![], &TagDictionary::new()).err(), Some(CatalogError::DateParse));
    let g = candidate("t", "1 pages", "1970-01-02 00:01", "https://e/g/");
    assert_eq!(g.tags_from_ids(&vec![], &TagDictionary::new()).unwrap(), "source:e/g/,timestamp:86460");
    assert_eq!(
        candidate_tag_text(&TagDictionary::new(), &vec!["ta_a_b".to_string()], "u", 5),
        "a b,source:u,timestamp:5"
    );
}

#[test]
fn retry_gives_up_after_three_attempts() {
    let s = RetryState::new();
    let (s, d) = s.next(Attempt::BadStatus);
    assert_eq!(d, RetryDecision::Retry);
    let (s, d) = s.next(Attempt::Transport);
    assert_eq!(d, RetryDecision::Retry);
    let (_, d) = s.next(Attempt::Transport);
    assert_eq!(d, RetryDecision::GiveUp { transport: true });
    let (s2, d) = RetryState::new().next(Attempt::Success);
    assert_eq!(d, RetryDecision::Accept);
    assert_eq!(s2.failures, 0);
    let s = RetryState { failures: 2, saw_transport: false };
    assert_eq!(s.next(Attempt::BadStatus).1, RetryDecision::GiveUp { transport: false });
}

#[test]
fn retry_keeps_an_earlier_transport_failure() {
    let (s, _) = RetryState::new().next(Attempt::Transport);
    let (s, _) = s.next(Attempt::BadStatus);
    let (_, d) = s.next(Attempt::BadStatus);
    assert_eq!(d, RetryDecision::GiveUp { transport: true });
}

#[test]
fn page_labels_match_the_page_count() {
    let a = archive("", "[G] Some Title", 20);
    let gs = vec![
        candidate("x", "20 pages", "2023-01-01 00:00", "https://e/1/"),
        candidate("y", "21 pages", "2023-01-01 00:00", "https://e/2/"),
        candidate("z", "20 pages pages", "2023-01-01 00:00", "https://e/3/"),
    ];
    assert!(a.page_matches(&gs[0]));
    assert!(!a.page_matches(&gs[1]));
    assert!(a.page_matches(&gs[2]));
    let rows = a.comparison_rows(&gs);
    assert_eq!(rows.len(), 3);
    assert_eq!(rows[1].number, "2");
    assert_eq!(rows[1].pages, "21 pages");
    assert_eq!(rows[1].similarity, percent_label(similarity_tenths("Some Title", "y")));
    assert_eq!(rows[2].title, "z");
}

#[test]
fn undecorated_titles() {
    assert_eq!(undecorated_title("[Group] My Comic [Extra]"), "My Comic");
    assert_eq!(undecorated_title("(C99) [A (B)] Name (Vol. 2) [English]"), "Name");
    assert_eq!(undecorated_title("  plain  "), "plain");
    assert_eq!(undecorated_title("[unclosed title"), "[unclosed title");
    assert_eq!(undecorated_title("[only]"), "");
}
