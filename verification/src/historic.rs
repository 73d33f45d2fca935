//! The historic-pages generator: the main page and the per-collection
//! overview pages, built from the encoder, the page model and the
//! paginator.

use vstd::prelude::*;
use crate::cept::{encode_str, lemma_encode_str_concat};
use crate::pages::{target_for, Meta, Page};
use crate::paginate::{paginate, out_of_range, page_end, prefix_sum};
use crate::text::{
    strip_slashes, slash_index, first_segment, second_segment, dec_seq, decimal_string,
    lemma_slash_index_at, lemma_strip_slashes_take_step, str_eq,
};
use crate::PageError;

verus! {

/// The display label of a hierarchical identifier: its first segment,
/// unless that segment is the reserved placeholder `00000`, in which case
/// the second segment is shown.
pub open spec fn pretty_label(s: Seq<char>) -> Seq<char> {
    if first_segment(s) == "00000"@ {
        second_segment(s)
    } else {
        first_segment(s)
    }
}

/// The display form of a hierarchical identifier: its label wrapped in the
/// dial affordance `(*` ... `#)`.
pub open spec fn pretty_link(s: Seq<char>) -> Seq<char> {
    "(*"@ + pretty_label(s) + "#)"@
}

/// A content line padded with `.` up to 38 characters; lines already that
/// wide are kept as they are.  The width is measured in logical
/// characters, not bytes, so umlaut content aligns like any other.
pub open spec fn padded_line(s: Seq<char>) -> Seq<char> {
    if s.len() >= 38 {
        s
    } else {
        s + Seq::new((38 - s.len()) as nat, |i: int| '.')
    }
}

/// The fixed control codes a title bar emits before its text: cursor to
/// row 2, palette and screen/line background selection, charset
/// designation, parallel mode, and double height.
pub open spec fn title_prefix() -> Seq<u8> {
    seq![
        0x1fu8, 0x42u8, 0x41u8,
        0x9bu8, 0x31u8, 0x40u8,
        0x1bu8, 0x23u8, 0x20u8, 0x54u8,
        0x1bu8, 0x28u8, 0x40u8, 0x0fu8,
        0x1bu8, 0x22u8, 0x41u8,
        0x9bu8, 0x30u8, 0x40u8,
        0x9eu8,
        0x1bu8, 0x23u8, 0x21u8, 0x54u8,
        0x0au8,
        0x1bu8, 0x23u8, 0x21u8, 0x54u8,
        0x9bu8, 0x31u8, 0x40u8,
        0x8du8,
        0x0du8,
    ]
}

/// The fixed control codes a title bar emits after its text: back to
/// normal size, palette 0, white foreground.
pub open spec fn title_suffix() -> Seq<u8> {
    seq![0x0au8, 0x0du8, 0x9bu8, 0x30u8, 0x40u8, 0x8cu8, 0x9eu8, 0x87u8]
}

/// The fixed control codes the footer emits before its left-hand text:
/// cursor to the footer row 23, palette 0, line background.
pub open spec fn footer_prefix() -> Seq<u8> {
    seq![0x1fu8, 0x57u8, 0x41u8, 0x9bu8, 0x30u8, 0x40u8, 0x1bu8, 0x23u8, 0x21u8, 0x54u8]
}

/// The bytes of one overview content line: the padded label text and the
/// decimal link number.
pub open spec fn overview_line_bytes(id: Seq<char>, name: Seq<char>, index: nat) -> Seq<u8> {
    encode_str(padded_line(name + seq![' '] + pretty_link(id)) + dec_seq(index))
}

/// The bytes of the overview content lines for entries `from .. to`, each
/// numbered `20 +` its entry position.
pub open spec fn overview_lines_bytes(
    pages: Seq<(Seq<char>, Seq<char>)>,
    from: int,
    to: int,
) -> Seq<u8>
    decreases to - from,
{
    if to <= from {
        Seq::empty()
    } else {
        overview_lines_bytes(pages, from, to - 1) + overview_line_bytes(
            pages[to - 1].0,
            pages[to - 1].1,
            (20 + to - 1) as nat,
        )
    }
}

/// The (identifier, name) pairs of an entry table, as character sequences.
pub open spec fn link_views(pages: Seq<(String, String)>) -> Seq<(Seq<char>, Seq<char>)> {
    pages.map_values(|p: (String, String)| (p.0@, p.1@))
}

/// The start page of a collection, as character sequences.
pub open spec fn start_views(sp: Option<(String, String)>) -> Option<(Seq<char>, Seq<char>)> {
    match sp {
        Some(p) => Some((p.0@, p.1@)),
        None => None,
    }
}

/// A historic page generator: wraps the one page it renders into.
pub struct HistoricPageGenerator {
    pub page: Page,
}

impl HistoricPageGenerator {
    pub fn new(page: Page) -> (g: Self)
        ensures
            g.page == page,
    {
        Self { page }
    }

    /// Render the title bar: the fixed attribute codes around the encoded
    /// title text.
    #[verifier::rlimit(50)]
    pub fn create_title(&mut self, title: &str)
        requires
            old(self).page.wf(),
        ensures
            final(self).page.cept@ == old(self).page.cept@ + title_prefix() + encode_str(title@)
                + title_suffix(),
            final(self).page.meta == old(self).page.meta,
            final(self).page.wf(),
    {
        self.page.cept.set_cursor(2, 1);
        self.page.cept.set_palette(1);
        self.page.cept.set_screen_bg_color_simple(4);
        self.page.cept.add_raw(&[0x1b, 0x28, 0x40, 0x0f]);
        self.page.cept.parallel_mode();
        self.page.cept.set_palette(0);
        self.page.cept.code_9e();
        self.page.cept.set_line_bg_color_simple(4);
        self.page.cept.add_raw(&[0x0a]);
        self.page.cept.set_line_bg_color_simple(4);
        self.page.cept.set_palette(1);
        self.page.cept.double_height();
        self.page.cept.add_raw(&[0x0d]);
        self.page.cept.add_str(title);
        self.page.cept.add_raw(&[0x0a, 0x0d]);
        self.page.cept.set_palette(0);
        self.page.cept.normal_size();
        self.page.cept.code_9e();
        self.page.cept.set_fg_color_simple(7);
        assert(final(self).page.cept@ =~= old(self).page.cept@ + title_prefix() + encode_str(
            title@,
        ) + title_suffix());
    }

    /// Render the footer row: left-hand text at column 1 and, when given,
    /// right-hand text flush with the right edge.
    pub fn footer(&mut self, left: &str, right: Option<&str>)
        requires
            old(self).page.wf(),
            right matches Some(r) ==> 1 <= r@.len() <= 40,
        ensures
            final(self).page.cept@ == old(self).page.cept@ + footer_prefix() + encode_str(left@)
                + (match right {
                Some(r) => seq![0x1fu8, 0x57u8, (105 - r@.len()) as u8] + encode_str(r@),
                None => Seq::<u8>::empty(),
            }),
            final(self).page.meta == old(self).page.meta,
            final(self).page.wf(),
    {
        self.page.cept.set_cursor(23, 1);
        self.page.cept.set_palette(0);
        self.page.cept.set_line_bg_color_simple(4);
        self.page.cept.add_str(left);
        if let Some(r) = right {
            let w = r.unicode_len();
            let col: u8 = (41 - w) as u8;
            self.page.cept.set_cursor(23, col);
            self.page.cept.add_str(r);
        }
        assert(final(self).page.cept@ =~= old(self).page.cept@ + footer_prefix() + encode_str(
            left@,
        ) + (match right {
            Some(r) => seq![0x1fu8, 0x57u8, (105 - r@.len()) as u8] + encode_str(r@),
            None => Seq::<u8>::empty(),
        }));
    }

    /// Render one overview content line: the entry's name, its dial
    /// affordance, dot padding to a fixed visual width of 38 characters,
    /// and the two-or-more-digit link number that ends the row.
    pub fn historic_line(&mut self, id: &str, name: &str, index: u32)
        requires
            old(self).page.wf(),
        ensures
            final(self).page.cept@ == old(self).page.cept@ + overview_line_bytes(
                id@,
                name@,
                index as nat,
            ),
            final(self).page.meta == old(self).page.meta,
            final(self).page.wf(),
    {
        let mut s = String::from_str(name);
        s.append(" ");
        let link = historic_pretty_link_from_str(id);
        s.append(link.as_str());
        proof {
            reveal_strlit(" ");
            assert(s@ =~= name@ + seq![' '] + pretty_link(id@));
        }
        let ghost base = s@;
        let mut cnt = s.unicode_len();
        assert(s@ =~= base + Seq::new((cnt - base.len()) as nat, |i: int| '.'));
        while cnt < 38
            invariant
                cnt == s@.len(),
                base.len() <= s@.len(),
                s@.len() <= 38 || s@.len() == base.len(),
                s@ == base + Seq::new((s@.len() - base.len()) as nat, |i: int| '.'),
            decreases 38 - cnt,
        {
            s.append(".");
            proof {
                reveal_strlit(".");
                assert(s@ =~= base + Seq::new((s@.len() - base.len()) as nat, |i: int| '.'));
            }
            cnt = cnt + 1;
        }
        assert(s@ =~= padded_line(base));
        self.page.cept.add_str(s.as_str());
        let num = decimal_string(index);
        self.page.cept.add_str(num.as_str());
        proof {
            lemma_encode_str_concat(padded_line(base), dec_seq(index as nat));
            assert(final(self).page.cept@ =~= old(self).page.cept@ + encode_str(
                padded_line(base) + dec_seq(index as nat),
            ));
        }
    }
}

/// The navigation-target form of a hierarchical identifier: the identifier
/// with its separators stripped.
pub fn historic_link_from_str(s: &str) -> (r: String)
    ensures
        r@ == strip_slashes(s@),
{
    let n = s.unicode_len();
    let mut r = String::new();
    let mut i: usize = 0;
    while i < n
        invariant
            i <= n,
            n == s@.len(),
            r@ == strip_slashes(s@.take(i as int)),
        decreases n - i,
    {
        let c = s.get_char(i);
        if c != '/' {
            let piece = s.substring_char(i, i + 1);
            assert(piece@ =~= seq![s@[i as int]]);
            r.append(piece);
            assert(r@ =~= strip_slashes(s@.take(i as int)).push(s@[i as int]));
        }
        proof {
            lemma_strip_slashes_take_step(s@, i as int);
        }
        i = i + 1;
    }
    assert(s@.take(n as int) =~= s@);
    r
}

/// The display form of a hierarchical identifier: `(*` label `#)`, the
/// label being the first segment, or the second when the first is the
/// reserved placeholder `00000`.
pub fn historic_pretty_link_from_str(s: &str) -> (r: String)
    ensures
        r@ == pretty_link(s@),
{
    let n = s.unicode_len();
    let mut k: usize = 0;
    while k < n && s.get_char(k) != '/'
        invariant
            k <= n,
            n == s@.len(),
            forall|j: int| 0 <= j < k ==> s@[j] != '/',
        decreases n - k,
    {
        k = k + 1;
    }
    proof {
        lemma_slash_index_at(s@, k as int);
    }
    let seg0 = s.substring_char(0, k);
    assert(seg0@ =~= first_segment(s@));
    let placeholder = str_eq(seg0, "00000");
    let mut r = String::from_str("(*");
    if placeholder && k < n {
        let mut m: usize = k + 1;
        while m < n && s.get_char(m) != '/'
            invariant
                k < m <= n,
                n == s@.len(),
                forall|j: int| k < j < m ==> s@[j] != '/',
            decreases n - m,
        {
            m = m + 1;
        }
        let seg1 = s.substring_char(k + 1, m);
        proof {
            let rest = s@.skip(k as int + 1);
            assert(forall|j: int| 0 <= j < m - k - 1 ==> rest[j] == s@[j + k + 1] && s@[j + k + 1]
                != '/');
            if m < n {
                assert(rest[m - k - 1] == s@[m as int]);
            }
            lemma_slash_index_at(rest, m - k - 1);
            assert(seg1@ =~= rest.take(slash_index(rest)));
            assert(seg1@ == second_segment(s@));
        }
        r.append(seg1);
    } else if placeholder {
        // the placeholder with no second segment shows an empty label
        assert(second_segment(s@) =~= Seq::<char>::empty());
        assert(r@ =~= r@ + second_segment(s@));
    } else {
        r.append(seg0);
    }
    r.append("#)");
    proof {
        reveal_strlit("(*");
        reveal_strlit("#)");
        assert(r@ =~= pretty_link(s@));
    }
    r
}


/// One historic collection: its display name, introduction, pagination
/// distribution, optional start page, and the (identifier, name) entries.
pub struct HistoricCollection {
    pub name: String,
    pub description: String,
    pub distribution: Vec<usize>,
    pub start_page: Option<(String, String)>,
    pub pages: Vec<(String, String)>,
}

/// The full byte stream of one overview sub-page: the title bar, on the
/// first sub-page the introduction and the start-page line, the content
/// lines of the sub-page's entry range, and the footer with its optional
/// continue affordance.  A function of the collection's data and the
/// sub-page index alone, so two equal requests render byte-identical
/// pages.
pub open spec fn overview_page_bytes(
    name: Seq<char>,
    description: Seq<char>,
    distribution: Seq<usize>,
    start_page: Option<(Seq<char>, Seq<char>)>,
    pages: Seq<(Seq<char>, Seq<char>)>,
    index: int,
) -> Seq<u8> {
    let n = pages.len() as int;
    let start = prefix_sum(distribution, index);
    let end = page_end(n, distribution, index);
    title_prefix() + encode_str("Historische Seiten: "@ + name) + title_suffix() + seq![
        0x0du8,
        0x0au8,
    ] + (if index == 0 {
        encode_str(description) + encode_str("\r\n\n"@) + (match start_page {
            Some(sp) => overview_line_bytes(sp.0, sp.1, 10) + encode_str("\n"@),
            None => Seq::<u8>::empty(),
        })
    } else {
        Seq::<u8>::empty()
    }) + overview_lines_bytes(pages, start, end) + footer_prefix() + encode_str(
        "0 Zur\u{fc}ck"@,
    ) + (if index + 1 < distribution.len() {
        seq![0x1fu8, 0x57u8, 0x61u8] + encode_str("Weiter #"@)
    } else {
        Seq::<u8>::empty()
    })
}

/// What a rendered overview sub-page is, in full: well-formed, the exact
/// declarative contract (publisher, flags, the complete link table: `0`
/// back, `10` to the start page when there is one, `20 + i` to each
/// entry's stripped identifier), and the exact byte stream.
pub open spec fn overview_page_spec(
    p: Page,
    name: Seq<char>,
    description: Seq<char>,
    distribution: Seq<usize>,
    start_page: Option<(Seq<char>, Seq<char>)>,
    pages: Seq<(Seq<char>, Seq<char>)>,
    index: int,
) -> bool {
    let links = p.meta.links@;
    let offset: int = if start_page is Some {
        2
    } else {
        1
    };
    &&& p.wf()
    &&& links.len() == offset + pages.len()
    &&& links[0].0@ == "0"@
    &&& links[0].1@ == "78"@
    &&& (start_page matches Some(sp) ==> links[1].0@ == "10"@ && links[1].1@ == strip_slashes(
        sp.0,
    ))
    &&& (forall|i: int|
        0 <= i < pages.len() ==> (#[trigger] links[offset + i]).0@ == dec_seq((20 + i) as nat)
            && links[offset + i].1@ == strip_slashes(pages[i].0))
    &&& (p.meta.publisher_name matches Some(pn) && pn@ == "!BTX"@)
    &&& p.meta.publisher_color == 7
    &&& p.meta.clear_screen
    &&& !p.meta.cls2
    &&& !p.meta.parallel_mode
    &&& p.meta.inputs is None
    &&& p.cept@ == overview_page_bytes(name, description, distribution, start_page, pages, index)
}

/// Render an overview sub-page of one collection.
///
/// Resolves `index` through the paginator over the collection's entry list
/// and distribution; an unreachable sub-page fails with
/// `PaginationOutOfRange`.  The link table is the page's whole input
/// alphabet: `0` leads back, `10` to the collection's start page when it
/// has one, and `20 + i` to entry `i`'s identifier with the hierarchy
/// separators stripped -- for every entry of the collection, whichever
/// sub-page is shown.
#[verifier::rlimit(50)]
pub fn create_collection_overview(col: &HistoricCollection, index: usize) -> (r: Result<
    HistoricPageGenerator,
    PageError,
>)
    requires
        20 + col.pages@.len() <= u32::MAX,
    ensures
        r is Err <==> out_of_range(col.pages@.len() as int, col.distribution@, index as int),
        r matches Err(e) ==> e == PageError::PaginationOutOfRange,
        r matches Ok(g) ==> overview_page_spec(
            g.page,
            col.name@,
            col.description@,
            col.distribution@,
            start_views(col.start_page),
            link_views(col.pages@),
            index as int,
        ),
{
    let pr = match paginate(col.pages.len(), &col.distribution, index) {
        Ok(pr) => pr,
        Err(e) => {
            return Err(e);
        },
    };

    let mut links: Vec<(String, String)> = Vec::new();
    links.push(("0".to_owned(), "78".to_owned()));
    if let Some(sp) = &col.start_page {
        links.push(("10".to_owned(), historic_link_from_str(sp.0.as_str())));
    }
    let ghost offset: int = if col.start_page is Some { 2 } else { 1 };
    let mut i: usize = 0;
    while i < col.pages.len()
        invariant
            i <= col.pages@.len(),
            20 + col.pages@.len() <= u32::MAX,
            links@.len() == offset + i,
            offset == if col.start_page is Some { 2int } else { 1int },
            links@[0].0@ == "0"@,
            links@[0].1@ == "78"@,
            col.start_page matches Some(sp) ==> links@[1].0@ == "10"@ && links@[1].1@
                == strip_slashes(sp.0@),
            forall|j: int|
                0 <= j < i ==> (#[trigger] links@[offset + j]).0@ == dec_seq((20 + j) as nat)
                    && links@[offset + j].1@ == strip_slashes(col.pages@[j].0@),
        decreases col.pages@.len() - i,
    {
        let key = decimal_string(20 + (i as u32));
        let target = historic_link_from_str(col.pages[i].0.as_str());
        links.push((key, target));
        i = i + 1;
    }

    let meta = Meta {
        publisher_name: Some("!BTX".to_owned()),
        clear_screen: true,
        cls2: false,
        parallel_mode: false,
        links,
        publisher_color: 7,
        inputs: None,
    };

    let mut generator = HistoricPageGenerator::new(Page::new(meta));

    let mut t = String::from_str("Historische Seiten: ");
    t.append(col.name.as_str());
    generator.create_title(t.as_str());
    generator.page.cept.add_raw(&[0x0d, 0x0a]);

    if index == 0 {
        generator.page.cept.add_str(col.description.as_str());
        generator.page.cept.add_str("\r\n\n");
        if let Some(sp) = &col.start_page {
            generator.historic_line(sp.0.as_str(), sp.1.as_str(), 10);
            generator.page.cept.add_str("\n");
        }
    }

    let ghost meta_snapshot = generator.page.meta;
    let ghost head = generator.page.cept@;
    let ghost entry_views = link_views(col.pages@);
    let mut j = pr.start;
    assert(head + overview_lines_bytes(entry_views, pr.start as int, j as int) =~= head);
    while j < pr.end
        invariant
            pr.start <= j <= pr.end,
            pr.end <= col.pages@.len(),
            20 + col.pages@.len() <= u32::MAX,
            entry_views == link_views(col.pages@),
            generator.page.wf(),
            generator.page.meta == meta_snapshot,
            generator.page.cept@ == head + overview_lines_bytes(
                entry_views,
                pr.start as int,
                j as int,
            ),
        decreases pr.end - j,
    {
        generator.historic_line(col.pages[j].0.as_str(), col.pages[j].1.as_str(), 20 + (j as u32));
        proof {
            assert(entry_views[j as int] == (col.pages@[j as int].0@, col.pages@[j as int].1@));
            assert(overview_lines_bytes(entry_views, pr.start as int, j + 1) ==
                overview_lines_bytes(entry_views, pr.start as int, j as int) + overview_line_bytes(
                entry_views[j as int].0,
                entry_views[j as int].1,
                (20 + j) as nat,
            ));
            assert(generator.page.cept@ =~= head + overview_lines_bytes(
                entry_views,
                pr.start as int,
                j + 1,
            ));
        }
        j = j + 1;
    }

    let right: Option<&str> = if pr.more {
        Some("Weiter #")
    } else {
        None
    };
    proof {
        reveal_strlit("Weiter #");
    }
    generator.footer("0 Zur\u{fc}ck", right);
    assert(generator.page.cept@ =~= overview_page_bytes(
        col.name@,
        col.description@,
        col.distribution@,
        start_views(col.start_page),
        link_views(col.pages@),
        index as int,
    ));
    Ok(generator)
}



/// The entry table of the Amiga decoder demo collection.
pub open spec fn amiga_pages() -> Seq<(Seq<char>, Seq<char>)> {
    seq![
        ("1050"@, "Btx-Telex"@),
        ("1188"@, "Teleauskunft"@),
        ("1692"@, "Cityruf"@),
        ("20000"@, "Deutsche Bundespost"@),
        ("20096"@, "Commodore"@),
        ("20511/223"@, "K\u{f6}lner Stadtanzeiger"@),
        ("21212"@, "Verbraucher-Zentrale NRW"@),
        ("25800/0000"@, "Deutsche Bundesbahn"@),
        ("30003"@, "Formel Eins"@),
        ("30711"@, "Btx S\u{fc}dwest Datenbank GmbH"@),
        ("33033"@, "Eden"@),
        ("34034"@, "Frankfurter Allg. Zeitung"@),
        ("34344"@, "Neue Mediengesellschaft Ulm"@),
        ("35853"@, "ABIDA GmbH"@),
        ("40040/200"@, "Axel Springer Verlag"@),
        ("44479"@, "DIMDI"@),
        ("50257"@, "Computerwelt Btx-Info-Dienst"@),
        ("54004/04"@, "\u{d6}VA Versicherungen"@),
        ("57575"@, "Lotto Toto"@),
        ("64064"@, "Markt & Technik"@),
        ("65432/0"@, "ADAC"@),
        ("67007"@, "Rheinpfalz Verlag/Druckerei"@),
        ("201474/75"@, "Rhein-Neckar-Zeitung"@),
        ("208888"@, "Neue Mediengesellschaft Ulm"@),
        ("402060"@, "AUTO & BTX WOLFSBURG"@),
        ("50707545"@, "CHIP Magazin"@),
        ("86553222"@, "Chaos Computer Club"@),
        ("505050035"@, "Steinfels Sprachreisen"@),
        ("920492040092"@, "Wolfgang Fritsch (BHP)"@),
    ]
}

/// The introduction text of the Amiga decoder demo collection.
pub open spec fn amiga_description() -> Seq<char> {
    "Der Amiga BTX Software-Decoder wurde mit\
                Dumps von 113 BTX-Seiten aus 32\n\
                Programmen ausgeliefert, sowie 56 eigens\
                gestalteten Seiten zum Thema BTX.\n\
                Die Seiten stammen vom April 1989."@
}

/// The entry table of the PC online 1&1 decoder collection.
pub open spec fn pc_online_pages() -> Seq<(Seq<char>, Seq<char>)> {
    seq![
        ("00000/88"@, "Teleauskunft"@),
        ("00000/1188"@, "Mitteilungsdienst"@),
        ("20111/1"@, "Vobis Microcomputer AG"@),
        ("20111/11020"@, "- \u{dc}bersicht 486"@),
        ("20111/1102030"@, "- 486 DX-50 "@),
        ("20111/110203010"@, "- 486 DX-50 Details"@),
        ("21199"@, "Microsoft"@),
        ("21199/1362"@, "- Produkte"@),
        ("25800"@, "Deutsche Bundesbahn"@),
        ("28000/101"@, "Postbank"@),
        ("34561/10"@, "1&1 Telekommunkation"@),
        ("34561/99"@, "- Forum [a-b]"@),
        ("37107/2154"@, "WDR Computer-Club"@),
        ("46801/8149999999"@, "Handelsblatt"@),
        ("49498/0004902"@, "bhv Computerb\u{fc}cher"@),
        ("49498/000490201"@, "- Neuheiten"@),
        ("50000"@, "Deutsche Lufthansa"@),
        ("52800"@, "IBM Deutschland"@),
        ("52800/03"@, "- IBM Personal Systeme"@),
        ("52800/31"@, "- HelpClubShop [a-c]"@),
        ("58587/003"@, " ITZ Schulungen"@),
        ("69010"@, "Deutscher Ind. Handelstag"@),
        ("353535/00"@, "START Tourismus"@),
        ("353535/01240"@, "- Veranstalter"@),
        ("353535/01640"@, "- Reiseinformationen"@),
    ]
}

/// The introduction text of the PC online 1&1 decoder collection.
pub open spec fn pc_online_description() -> Seq<char> {
    "Der PC online 1&1 Decoder wurde mit\n\
                von 25 BTX-Seiten aus 15 Programmen\n\
                ausgeliefert. Die Seiten stammen vom\n\
                November 1993."@
}

/// The fixed registry of historic collections: the Amiga decoder demo
/// pages under 10 and the PC online 1&1 decoder pages under 11.
#[verifier::rlimit(100)]
pub fn historic_collection(collection: i32) -> (r: Option<HistoricCollection>)
    ensures
        r is Some <==> (collection == 10 || collection == 11),
        r matches Some(c) ==> c.pages@.len() + 20 <= u32::MAX,
        collection == 10 ==> (r matches Some(c) && c.name@ == "Amiga Demo"@ && c.description@
            == amiga_description() && c.distribution@ == seq![9usize, 17usize] && start_views(
            c.start_page,
        ) == Some(("20096/1"@, "Amiga Demo Startseite"@)) && link_views(c.pages@)
            == amiga_pages() && c.pages@.len() == 29),
        collection == 11 ==> (r matches Some(c) && c.name@ == "PC online 1&1"@ && c.description@
            == pc_online_description() && c.distribution@ == seq![12usize] && c.start_page
            is None && link_views(c.pages@) == pc_online_pages() && c.pages@.len() == 25),
{
    if collection == 10 {
        let mut distribution: Vec<usize> = Vec::new();
        distribution.push(9);
        distribution.push(17);
        assert(distribution@ =~= seq![9usize, 17usize]);
        let mut pages: Vec<(String, String)> = Vec::new();
        pages.push(("1050".to_owned(), "Btx-Telex".to_owned()));
        pages.push(("1188".to_owned(), "Teleauskunft".to_owned()));
        pages.push(("1692".to_owned(), "Cityruf".to_owned()));
        pages.push(("20000".to_owned(), "Deutsche Bundespost".to_owned()));
        pages.push(("20096".to_owned(), "Commodore".to_owned()));
        pages.push(("20511/223".to_owned(), "K\u{f6}lner Stadtanzeiger".to_owned()));
        pages.push(("21212".to_owned(), "Verbraucher-Zentrale NRW".to_owned()));
        pages.push(("25800/0000".to_owned(), "Deutsche Bundesbahn".to_owned()));
        pages.push(("30003".to_owned(), "Formel Eins".to_owned()));
        pages.push(("30711".to_owned(), "Btx S\u{fc}dwest Datenbank GmbH".to_owned()));
        pages.push(("33033".to_owned(), "Eden".to_owned()));
        pages.push(("34034".to_owned(), "Frankfurter Allg. Zeitung".to_owned()));
        pages.push(("34344".to_owned(), "Neue Mediengesellschaft Ulm".to_owned()));
        pages.push(("35853".to_owned(), "ABIDA GmbH".to_owned()));
        pages.push(("40040/200".to_owned(), "Axel Springer Verlag".to_owned()));
        pages.push(("44479".to_owned(), "DIMDI".to_owned()));
        pages.push(("50257".to_owned(), "Computerwelt Btx-Info-Dienst".to_owned()));
        pages.push(("54004/04".to_owned(), "\u{d6}VA Versicherungen".to_owned()));
        pages.push(("57575".to_owned(), "Lotto Toto".to_owned()));
        pages.push(("64064".to_owned(), "Markt & Technik".to_owned()));
        pages.push(("65432/0".to_owned(), "ADAC".to_owned()));
        pages.push(("67007".to_owned(), "Rheinpfalz Verlag/Druckerei".to_owned()));
        pages.push(("201474/75".to_owned(), "Rhein-Neckar-Zeitung".to_owned()));
        pages.push(("208888".to_owned(), "Neue Mediengesellschaft Ulm".to_owned()));
        pages.push(("402060".to_owned(), "AUTO & BTX WOLFSBURG".to_owned()));
        pages.push(("50707545".to_owned(), "CHIP Magazin".to_owned()));
        pages.push(("86553222".to_owned(), "Chaos Computer Club".to_owned()));
        pages.push(("505050035".to_owned(), "Steinfels Sprachreisen".to_owned()));
        pages.push(("920492040092".to_owned(), "Wolfgang Fritsch (BHP)".to_owned()));
        assert(link_views(pages@) =~= amiga_pages());
        Some(HistoricCollection {
            name: "Amiga Demo".to_owned(),
            description: "Der Amiga BTX Software-Decoder wurde mit\
                Dumps von 113 BTX-Seiten aus 32\n\
                Programmen ausgeliefert, sowie 56 eigens\
                gestalteten Seiten zum Thema BTX.\n\
                Die Seiten stammen vom April 1989.".to_owned(),
            distribution,
            start_page: Some(("20096/1".to_owned(), "Amiga Demo Startseite".to_owned())),
            pages,
        })
    } else if collection == 11 {
        let mut distribution: Vec<usize> = Vec::new();
        distribution.push(12);
        assert(distribution@ =~= seq![12usize]);
        let mut pages: Vec<(String, String)> = Vec::new();
        pages.push(("00000/88".to_owned(), "Teleauskunft".to_owned()));
        pages.push(("00000/1188".to_owned(), "Mitteilungsdienst".to_owned()));
        pages.push(("20111/1".to_owned(), "Vobis Microcomputer AG".to_owned()));
        pages.push(("20111/11020".to_owned(), "- \u{dc}bersicht 486".to_owned()));
        pages.push(("20111/1102030".to_owned(), "- 486 DX-50 ".to_owned()));
        pages.push(("20111/110203010".to_owned(), "- 486 DX-50 Details".to_owned()));
        pages.push(("21199".to_owned(), "Microsoft".to_owned()));
        pages.push(("21199/1362".to_owned(), "- Produkte".to_owned()));
        pages.push(("25800".to_owned(), "Deutsche Bundesbahn".to_owned()));
        pages.push(("28000/101".to_owned(), "Postbank".to_owned()));
        pages.push(("34561/10".to_owned(), "1&1 Telekommunkation".to_owned()));
        pages.push(("34561/99".to_owned(), "- Forum [a-b]".to_owned()));
        pages.push(("37107/2154".to_owned(), "WDR Computer-Club".to_owned()));
        pages.push(("46801/8149999999".to_owned(), "Handelsblatt".to_owned()));
        pages.push(("49498/0004902".to_owned(), "bhv Computerb\u{fc}cher".to_owned()));
        pages.push(("49498/000490201".to_owned(), "- Neuheiten".to_owned()));
        pages.push(("50000".to_owned(), "Deutsche Lufthansa".to_owned()));
        pages.push(("52800".to_owned(), "IBM Deutschland".to_owned()));
        pages.push(("52800/03".to_owned(), "- IBM Personal Systeme".to_owned()));
        pages.push(("52800/31".to_owned(), "- HelpClubShop [a-c]".to_owned()));
        pages.push(("58587/003".to_owned(), " ITZ Schulungen".to_owned()));
        pages.push(("69010".to_owned(), "Deutscher Ind. Handelstag".to_owned()));
        pages.push(("353535/00".to_owned(), "START Tourismus".to_owned()));
        pages.push(("353535/01240".to_owned(), "- Veranstalter".to_owned()));
        pages.push(("353535/01640".to_owned(), "- Reiseinformationen".to_owned()));
        assert(link_views(pages@) =~= pc_online_pages());
        Some(HistoricCollection {
            name: "PC online 1&1".to_owned(),
            description: "Der PC online 1&1 Decoder wurde mit\n\
                von 25 BTX-Seiten aus 15 Programmen\n\
                ausgeliefert. Die Seiten stammen vom\n\
                November 1993.".to_owned(),
            distribution,
            start_page: None,
            pages,
        })
    } else {
        None
    }
}

/// Render an overview sub-page of a collection given by its registry
/// number.  A number outside the registry fails with `UnknownPage`; a
/// sub-page index that the distribution's prefix-sum chain cannot reach
/// fails with `PaginationOutOfRange`.
pub fn create_historic_overview(collection: i32, index: i32) -> (r: Result<
    HistoricPageGenerator,
    PageError,
>)
    ensures
        collection != 10 && collection != 11 ==> (r matches Err(e) && e
            == PageError::UnknownPage),
        collection == 10 ==> ((r is Err <==> (index < 0 || out_of_range(
            29,
            seq![9usize, 17usize],
            index as int,
        ))) && (r matches Err(e) ==> e == PageError::PaginationOutOfRange)),
        collection == 11 ==> ((r is Err <==> (index < 0 || out_of_range(
            25,
            seq![12usize],
            index as int,
        ))) && (r matches Err(e) ==> e == PageError::PaginationOutOfRange)),
        collection == 10 ==> (r matches Ok(g) ==> overview_page_spec(
            g.page,
            "Amiga Demo"@,
            amiga_description(),
            seq![9usize, 17usize],
            Some(("20096/1"@, "Amiga Demo Startseite"@)),
            amiga_pages(),
            index as int,
        )),
        collection == 11 ==> (r matches Ok(g) ==> overview_page_spec(
            g.page,
            "PC online 1&1"@,
            pc_online_description(),
            seq![12usize],
            None,
            pc_online_pages(),
            index as int,
        )),
        r matches Ok(g) ==> ({
            &&& g.page.wf()
            &&& g.page.meta.links@.len() > 0
            &&& g.page.meta.links@[0].0@ == "0"@
            &&& g.page.meta.links@[0].1@ == "78"@
            &&& g.page.meta.clear_screen
            &&& g.page.meta.inputs is None
        }),
{
    let col = match historic_collection(collection) {
        Some(col) => col,
        None => {
            return Err(PageError::UnknownPage);
        },
    };
    if index < 0 {
        return Err(PageError::PaginationOutOfRange);
    }
    create_collection_overview(&col, index as usize)
}


/// The body text of the main historic page.
pub open spec fn main_page_text() -> Seq<char> {
    "Nur wenige hundert der mehreren hundert-\
            tausend BTX-Seiten sind \u{fc}berliefert.\n\
            Die meisten entstammen dem Demomodus von\
            Software-BTX-Decoderprogrammen.\n\
            \n\
            1988: C64 BTX Demo (Input 64 12/88)...--\
            1989: Amiga BTX Terminal..............10\
            1989: C64 BTX Demo (64'er 1/90).......--\
            1991: BTX-VTX Manager v1.2............--\
            1993: PC online 1&1...................11\
            1994: MacBTX 1&1......................--\
            1995: BTXTEST.........................--\
            1996: RUN_ME..........................--\
            \n\
            Da historische Seiten erst angepa\u{df}t wer-\
            den m\u{fc}ssen, um nutzbar zu sein, sind\n\
            noch nicht alle Sammlungen verf\u{fc}gbar."@
}

/// What the main historic page is, in full: well-formed, the exact
/// declarative contract (publisher, flags, the four links), and the exact
/// byte stream.
pub open spec fn main_page_spec(p: Page) -> bool {
    &&& p.wf()
    &&& (p.meta.publisher_name matches Some(pn) && pn@ == "!BTX"@)
    &&& p.meta.publisher_color == 7
    &&& p.meta.clear_screen
    &&& !p.meta.cls2
    &&& !p.meta.parallel_mode
    &&& p.meta.inputs is None
    &&& p.meta.links@.len() == 4
    &&& p.meta.links@[0].0@ == "0"@ && p.meta.links@[0].1@ == "0"@
    &&& p.meta.links@[1].0@ == "10"@ && p.meta.links@[1].1@ == "710"@
    &&& p.meta.links@[2].0@ == "11"@ && p.meta.links@[2].1@ == "711"@
    &&& p.meta.links@[3].0@ == "#"@ && p.meta.links@[3].1@ == "711"@
    &&& p.cept@ == title_prefix() + encode_str("Historische Seiten"@) + title_suffix() + seq![
        0x0du8,
        0x0au8,
    ] + encode_str(main_page_text()) + footer_prefix() + encode_str("0 Zur\u{fc}ck"@)
}

impl HistoricPageGenerator {
    /// The main historic page: an introduction with the fixed link table
    /// leading to the collection overviews.
    pub fn create_historic_main_page() -> (r: Self)
        ensures
            main_page_spec(r.page),
    {
        let mut links: Vec<(String, String)> = Vec::new();
        links.push(("0".to_owned(), "0".to_owned()));
        links.push(("10".to_owned(), "710".to_owned()));
        links.push(("11".to_owned(), "711".to_owned()));
        links.push(("#".to_owned(), "711".to_owned()));
        let meta = Meta {
            publisher_name: Some("!BTX".to_owned()),
            clear_screen: true,
            cls2: false,
            parallel_mode: false,
            links,
            publisher_color: 7,
            inputs: None,
        };

        let mut generator = Self::new(Page::new(meta));
        generator.create_title("Historische Seiten");
        generator.page.cept.add_raw(&[0x0d, 0x0a]);
        generator.page.cept.add_str(
            "Nur wenige hundert der mehreren hundert-\
            tausend BTX-Seiten sind \u{fc}berliefert.\n\
            Die meisten entstammen dem Demomodus von\
            Software-BTX-Decoderprogrammen.\n\
            \n\
            1988: C64 BTX Demo (Input 64 12/88)...--\
            1989: Amiga BTX Terminal..............10\
            1989: C64 BTX Demo (64'er 1/90).......--\
            1991: BTX-VTX Manager v1.2............--\
            1993: PC online 1&1...................11\
            1994: MacBTX 1&1......................--\
            1995: BTXTEST.........................--\
            1996: RUN_ME..........................--\
            \n\
            Da historische Seiten erst angepa\u{df}t wer-\
            den m\u{fc}ssen, um nutzbar zu sein, sind\n\
            noch nicht alle Sammlungen verf\u{fc}gbar.",
        );
        generator.footer("0 Zur\u{fc}ck", None);
        assert(generator.page.cept@ =~= title_prefix() + encode_str("Historische Seiten"@)
            + title_suffix() + seq![0x0du8, 0x0au8] + encode_str(main_page_text())
            + footer_prefix() + encode_str("0 Zur\u{fc}ck"@));
        generator
    }

    /// Resolve a page identifier to its generator: `8a` is the main page,
    /// `10a` and `11a` the collection overviews.  Any other identifier is
    /// a recoverable `UnknownPage` error, never a silent substitute.
    #[verifier::rlimit(100)]
    pub fn create(pageid: &str) -> (r: Result<Self, PageError>)
        ensures
            r is Ok <==> (pageid@ == "8a"@ || pageid@ == "10a"@ || pageid@ == "11a"@),
            r matches Err(e) ==> e == PageError::UnknownPage,
            pageid@ == "8a"@ ==> (r matches Ok(g) && main_page_spec(g.page)),
            pageid@ == "10a"@ ==> (r matches Ok(g) && overview_page_spec(
                g.page,
                "Amiga Demo"@,
                amiga_description(),
                seq![9usize, 17usize],
                Some(("20096/1"@, "Amiga Demo Startseite"@)),
                amiga_pages(),
                0,
            )),
            pageid@ == "11a"@ ==> (r matches Ok(g) && overview_page_spec(
                g.page,
                "PC online 1&1"@,
                pc_online_description(),
                seq![12usize],
                None,
                pc_online_pages(),
                0,
            )),
            r matches Ok(g) ==> ({
                &&& g.page.wf()
                &&& g.page.meta.links@.len() > 0
                &&& g.page.meta.links@[0].0@ == "0"@
                &&& target_for(g.page.meta.links@, "0"@) == Some(g.page.meta.links@[0].1@)
                &&& g.page.meta.clear_screen
            }),
    {
        proof {
            reveal_strlit("8a");
            reveal_strlit("10a");
            reveal_strlit("11a");
            reveal_strlit("12a");
            assert("8a"@.len() == 2 && "10a"@.len() == 3 && "11a"@.len() == 3);
            assert("8a"@ != "10a"@ && "8a"@ != "11a"@);
            assert("10a"@ != "11a"@) by {
                assert("10a"@[1] == '0' && "11a"@[1] == '1');
            }
        }
        if str_eq(pageid, "8a") {
            Ok(Self::create_historic_main_page())
        } else if str_eq(pageid, "10a") {
            let r = create_historic_overview(10, 0);
            proof {
                assert(prefix_sum(seq![9usize, 17usize], 0) == 0);
                assert(!out_of_range(29, seq![9usize, 17usize], 0));
                assert(r is Ok);
            }
            match r {
                Ok(g) => Ok(g),
                Err(e) => Err(PageError::UnknownPage),
            }
        } else if str_eq(pageid, "11a") {
            let r = create_historic_overview(11, 0);
            proof {
                assert(prefix_sum(seq![12usize], 0) == 0);
                assert(!out_of_range(25, seq![12usize], 0));
                assert(r is Ok);
            }
            match r {
                Ok(g) => Ok(g),
                Err(e) => Err(PageError::UnknownPage),
            }
        } else if str_eq(pageid, "12a") {
            // the identifier parses, but no collection is registered there
            match create_historic_overview(12, 0) {
                Ok(g) => Ok(g),
                Err(e) => Err(e),
            }
        } else {
            Err(PageError::UnknownPage)
        }
    }
}


} // verus!
