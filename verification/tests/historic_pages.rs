use cept_pages::historic::{
    create_historic_overview, historic_link_from_str, historic_pretty_link_from_str,
    HistoricPageGenerator,
};
use cept_pages::PageError;

fn find(haystack: &[u8], needle: &[u8]) -> bool {
    haystack.windows(needle.len()).any(|w| w == needle)
}

#[test]
fn link_target_strips_the_separator() {
    assert_eq!(historic_link_from_str("20511/223"), "20511223");
    assert_eq!(historic_link_from_str("0"), "0");
    assert_eq!(historic_link_from_str("25800/0000"), "258000000");
}

#[test]
fn label_uses_the_first_segment() {
    assert_eq!(historic_pretty_link_from_str("20511/223"), "(*20511#)");
    assert_eq!(historic_pretty_link_from_str("1050"), "(*1050#)");
}

#[test]
fn placeholder_first_segment_shows_the_second() {
    assert_eq!(historic_link_from_str("00000/88"), "0000088");
    assert_eq!(historic_pretty_link_from_str("00000/88"), "(*88#)");
}

#[test]
fn unmapped_page_id_is_a_recoverable_error() {
    assert!(matches!(
        HistoricPageGenerator::create("99z"),
        Err(PageError::UnknownPage)
    ));
    assert!(matches!(
        HistoricPageGenerator::create("12a"),
        Err(PageError::UnknownPage)
    ));
    assert!(matches!(
        HistoricPageGenerator::create(""),
        Err(PageError::UnknownPage)
    ));
}

#[test]
fn main_page_links_and_flags() {
    let g = HistoricPageGenerator::create("8a").unwrap();
    let meta = &g.page.meta;
    assert_eq!(meta.publisher_name.as_deref(), Some("!BTX"));
    assert_eq!(meta.publisher_color, 7);
    assert!(meta.clear_screen);
    assert!(!meta.cls2);
    assert!(!meta.parallel_mode);
    assert!(meta.inputs.is_none());
    let links: Vec<(&str, &str)> = meta
        .links
        .iter()
        .map(|(k, t)| (k.as_str(), t.as_str()))
        .collect();
    assert_eq!(
        links,
        vec![("0", "0"), ("10", "710"), ("11", "711"), ("#", "711")]
    );
}

#[test]
fn main_page_starts_with_the_title_bar() {
    let g = HistoricPageGenerator::create("8a").unwrap();
    let bytes = g.page.cept.bytes();
    let title_prefix: &[u8] = &[
        0x1f, 0x42, 0x41, 0x9b, 0x31, 0x40, 0x1b, 0x23, 0x20, 0x54, 0x1b, 0x28, 0x40, 0x0f, 0x1b,
        0x22, 0x41, 0x9b, 0x30, 0x40, 0x9e, 0x1b, 0x23, 0x21, 0x54, 0x0a, 0x1b, 0x23, 0x21, 0x54,
        0x9b, 0x31, 0x40, 0x8d, 0x0d,
    ];
    assert!(bytes.len() > title_prefix.len());
    assert_eq!(&bytes[..title_prefix.len()], title_prefix);
    assert!(find(bytes, b"Historische Seiten"));
    assert!(find(bytes, b"0 Zur\x19\x48\x75ck"));
}

#[test]
fn overview_links_cover_every_entry_of_the_collection() {
    let g = HistoricPageGenerator::create("10a").unwrap();
    let meta = &g.page.meta;
    assert_eq!(meta.links.len(), 2 + 29);
    assert_eq!(meta.links[0], ("0".to_string(), "78".to_string()));
    assert_eq!(meta.links[1], ("10".to_string(), "200961".to_string()));
    assert_eq!(meta.links[2], ("20".to_string(), "1050".to_string()));
    assert_eq!(meta.links[7], ("25".to_string(), "20511223".to_string()));
    assert_eq!(meta.links[30], ("48".to_string(), "920492040092".to_string()));
}

#[test]
fn overview_without_start_page_has_no_start_link() {
    let g = HistoricPageGenerator::create("11a").unwrap();
    let meta = &g.page.meta;
    assert_eq!(meta.links.len(), 1 + 25);
    assert_eq!(meta.links[0], ("0".to_string(), "78".to_string()));
    assert_eq!(meta.links[1], ("20".to_string(), "0000088".to_string()));
    assert_eq!(meta.links[2], ("21".to_string(), "000001188".to_string()));
}

#[test]
fn overview_first_sub_page_offers_a_continue_affordance() {
    let g = HistoricPageGenerator::create("10a").unwrap();
    assert!(find(g.page.cept.bytes(), b"Weiter #"));
}

#[test]
fn overview_last_distributed_sub_page_offers_none() {
    let g = create_historic_overview(10, 1).unwrap();
    assert!(!find(g.page.cept.bytes(), b"Weiter #"));
}

#[test]
fn overview_remainder_and_out_of_range_sub_pages() {
    assert!(create_historic_overview(10, 2).is_ok());
    assert!(matches!(
        create_historic_overview(10, 3),
        Err(PageError::PaginationOutOfRange)
    ));
    assert!(matches!(
        create_historic_overview(10, -1),
        Err(PageError::PaginationOutOfRange)
    ));
    assert!(create_historic_overview(11, 1).is_ok());
    assert!(matches!(
        create_historic_overview(11, 2),
        Err(PageError::PaginationOutOfRange)
    ));
    assert!(matches!(
        create_historic_overview(12, 0),
        Err(PageError::UnknownPage)
    ));
}

#[test]
fn overview_line_padding_aligns_umlaut_content() {
    // entry 5 of the Amiga collection has an umlaut in its name; the line
    // must still be padded to 38 logical characters before its two-digit
    // link number, so the dots end at the same column as an ASCII row.
    let g = create_historic_overview(10, 0).unwrap();
    let bytes = g.page.cept.bytes();
    assert!(find(bytes, b"K\x19\x48\x6flner Stadtanzeiger (*20511#)........25"));
    assert!(find(bytes, b"Btx-Telex (*1050#)....................20"));
}

#[test]
fn description_appears_on_the_first_sub_page_only() {
    let first = create_historic_overview(10, 0).unwrap();
    assert!(find(first.page.cept.bytes(), b"Software-Decoder wurde mit"));
    let second = create_historic_overview(10, 1).unwrap();
    assert!(!find(second.page.cept.bytes(), b"Software-Decoder wurde mit"));
    assert!(!find(second.page.cept.bytes(), b"Amiga Demo Startseite"));
}

#[test]
fn single_entry_distribution_offers_no_continue() {
    // one declared sub-page: even with entries left for the remainder
    // page, the continue affordance is governed by the distribution
    // length alone, so sub-page 0 must not offer it.
    let g = create_historic_overview(11, 0).unwrap();
    assert!(!find(g.page.cept.bytes(), b"Weiter #"));
}
