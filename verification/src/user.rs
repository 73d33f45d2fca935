//! The user data model and the add-user form page.
//!
//! The records here are the consistent snapshots the page generators
//! render; reading and writing them in the file-backed account store is
//! the surrounding application's business, as is collecting the form's
//! keystrokes.  This module owns the record shapes, the store's filename
//! scheme, the password check, and the declarative form description.

use vstd::prelude::*;
use crate::cept::{Cept, encode_str};
use crate::pages::{Field, FieldType, InputForm, Meta, Page};
use crate::text::str_eq;
use crate::historic::title_suffix;

verus! {

/// One account record: identity plus the public and personal address
/// fields, each optional.
pub struct User {
    pub user_id: String,
    pub ext: String,
    pub personal_data: bool,
    pub salutation: Option<String>,
    pub first_name: Option<String>,
    pub last_name: Option<String>,
    pub org_name: Option<String>,
    pub org_add_name: Option<String>,
    pub street: Option<String>,
    pub zip: Option<String>,
    pub city: Option<String>,
    pub country: Option<String>,
}

/// The secret companion record of an account.
pub struct Secrets {
    pub password: String,
}

impl Secrets {
    pub fn new(password: &str) -> (s: Secrets)
        ensures
            s.password@ == password@,
    {
        Secrets { password: password.to_owned() }
    }

    /// The login decision: the offered password must match, unless the
    /// caller forces the login.
    pub fn check_password(&self, password: &str, force: bool) -> (r: bool)
        ensures
            r == (password@ == self.password@ || force),
    {
        let given = String::from_str(password);
        given == self.password || force
    }
}

/// A store filename: `<path><user_id>-<ext>.<file_extension>`.
pub fn filename(user_id: &str, ext: &str, path: &str, file_extension: &str) -> (r: String)
    ensures
        r@ == path@ + user_id@ + seq!['-'] + ext@ + seq!['.'] + file_extension@,
{
    let mut s = String::new();
    s.append(path);
    s.append(user_id);
    s.append("-");
    s.append(ext);
    s.append(".");
    s.append(file_extension);
    proof {
        reveal_strlit("-");
        reveal_strlit(".");
        assert(s@ =~= path@ + user_id@ + seq!['-'] + ext@ + seq!['.'] + file_extension@);
    }
    s
}

impl User {
    /// Empty identifiers fall back to the defaults: user `0`, extension
    /// `1`.
    pub fn sanitize(user_id: &str, ext: &str) -> (r: (String, String))
        ensures
            r.0@ == if user_id@.len() == 0 { "0"@ } else { user_id@ },
            r.1@ == if ext@.len() == 0 { "1"@ } else { ext@ },
    {
        let user_id_out = if user_id.is_empty() {
            String::from_str("0")
        } else {
            String::from_str(user_id)
        };
        let ext_out = if ext.is_empty() {
            String::from_str("1")
        } else {
            String::from_str(ext)
        };
        (user_id_out, ext_out)
    }

    /// Where the account record of `user_id`-`ext` lives.
    pub fn user_filename(user_id: &str, ext: &str) -> (r: String)
        ensures
            r@ == "../users/"@ + user_id@ + seq!['-'] + ext@ + seq!['.'] + "user"@,
    {
        filename(user_id, ext, "../users/", "user")
    }

    /// Where the secrets record of `user_id`-`ext` lives.
    pub fn secrets_filename(user_id: &str, ext: &str) -> (r: String)
        ensures
            r@ == "../secrets/"@ + user_id@ + seq!['-'] + ext@ + seq!['.'] + "secrets"@,
    {
        filename(user_id, ext, "../secrets/", "secrets")
    }

    /// The record a fresh registration stores: the given person fields
    /// set, no organization fields, personal data not released.
    pub fn new_account(
        user_id: &str,
        ext: &str,
        salutation: &str,
        last_name: &str,
        first_name: &str,
        street: &str,
        zip: &str,
        city: &str,
        country: &str,
    ) -> (u: User)
        ensures
            u.user_id@ == user_id@,
            u.ext@ == ext@,
            !u.personal_data,
            u.salutation matches Some(s) && s@ == salutation@,
            u.last_name matches Some(s) && s@ == last_name@,
            u.first_name matches Some(s) && s@ == first_name@,
            u.street matches Some(s) && s@ == street@,
            u.zip matches Some(s) && s@ == zip@,
            u.city matches Some(s) && s@ == city@,
            u.country matches Some(s) && s@ == country@,
            u.org_name is None,
            u.org_add_name is None,
    {
        User {
            user_id: user_id.to_owned(),
            ext: ext.to_owned(),
            personal_data: false,
            salutation: Some(salutation.to_owned()),
            first_name: Some(first_name.to_owned()),
            last_name: Some(last_name.to_owned()),
            org_name: None,
            org_add_name: None,
            street: Some(street.to_owned()),
            zip: Some(zip.to_owned()),
            city: Some(city.to_owned()),
            country: Some(country.to_owned()),
        }
    }
}

/// The fixed control codes of a horizontal divider rule: line-drawing set
/// into the left slot, bright foreground, forty rule cells, then back to
/// white text in the default set.
pub open spec fn rule_bytes() -> Seq<u8> {
    seq![0x1bu8, 0x6fu8, 0x1bu8, 0x23u8, 0x40u8, 0x4fu8] + Seq::new(40, |i: int| 0x51u8) + seq![
        0x1bu8,
        0x23u8,
        0x40u8,
        0x47u8,
        0x0fu8,
    ]
}

/// A horizontal divider rule across the full 40-column width.
pub fn line() -> (c: Cept)
    ensures
        c@ == rule_bytes(),
        c.wf(),
{
    let mut cept = Cept::new();
    cept.set_left_g3();
    cept.set_fg_color(15);
    cept.repeat(0x51, 40);
    cept.set_fg_color(7);
    cept.set_left_g0();
    assert(cept@ =~= rule_bytes());
    cept
}

/// The fixed control codes this module's title bar emits before its text:
/// like the overview title bar, with one extra blank row above the
/// colored title rows.
pub open spec fn spaced_title_prefix() -> Seq<u8> {
    seq![
        0x1fu8, 0x42u8, 0x41u8,
        0x9bu8, 0x31u8, 0x40u8,
        0x1bu8, 0x23u8, 0x20u8, 0x54u8,
        0x1bu8, 0x28u8, 0x40u8, 0x0fu8,
        0x1bu8, 0x22u8, 0x41u8,
        0x9bu8, 0x30u8, 0x40u8,
        0x9eu8,
        0x0au8, 0x0du8,
        0x1bu8, 0x23u8, 0x21u8, 0x54u8,
        0x0au8,
        0x1bu8, 0x23u8, 0x21u8, 0x54u8,
        0x9bu8, 0x31u8, 0x40u8,
        0x8du8,
        0x0du8,
    ]
}

/// The title bar used by the account pages: one blank row, then the
/// double-height title on a colored band.
pub fn create_title(title: &str) -> (c: Cept)
    ensures
        c@ == spaced_title_prefix() + encode_str(title@) + title_suffix(),
        c.wf(),
{
    let mut cept = Cept::new();
    cept.set_cursor(2, 1);
    cept.set_palette(1);
    cept.set_screen_bg_color_simple(4);
    cept.add_raw(&[0x1b, 0x28, 0x40, 0x0f]);
    cept.parallel_mode();
    cept.set_palette(0);
    cept.code_9e();
    cept.add_raw(&[0x0a, 0x0d]);
    cept.set_line_bg_color_simple(4);
    cept.add_raw(&[0x0a]);
    cept.set_line_bg_color_simple(4);
    cept.set_palette(1);
    cept.double_height();
    cept.add_raw(&[0x0d]);
    cept.add_str(title);
    cept.add_raw(&[0x0a, 0x0d]);
    cept.set_palette(0);
    cept.normal_size();
    cept.code_9e();
    cept.set_fg_color_simple(7);
    assert(cept@ =~= spaced_title_prefix() + encode_str(title@) + title_suffix());
    cept
}

/// The title bar variant without the extra blank row; byte-for-byte the
/// overview generator's title bar, as a free-standing fragment.
pub fn create_title2(title: &str) -> (c: Cept)
    ensures
        c@ == crate::historic::title_prefix() + encode_str(title@) + title_suffix(),
        c.wf(),
{
    let mut cept = Cept::new();
    cept.set_cursor(2, 1);
    cept.set_palette(1);
    cept.set_screen_bg_color_simple(4);
    cept.add_raw(&[0x1b, 0x28, 0x40, 0x0f]);
    cept.parallel_mode();
    cept.set_palette(0);
    cept.code_9e();
    cept.set_line_bg_color_simple(4);
    cept.add_raw(&[0x0a]);
    cept.set_line_bg_color_simple(4);
    cept.set_palette(1);
    cept.double_height();
    cept.add_raw(&[0x0d]);
    cept.add_str(title);
    cept.add_raw(&[0x0a, 0x0d]);
    cept.set_palette(0);
    cept.normal_size();
    cept.code_9e();
    cept.set_fg_color_simple(7);
    assert(cept@ =~= crate::historic::title_prefix() + encode_str(title@) + title_suffix());
    cept
}


/// The full byte stream of the add-user mask: the title bar, the field
/// captions at their rows, the divider rules, and the fixed cursor moves
/// between them.
pub open spec fn add_user_mask_bytes() -> Seq<u8> {
    spaced_title_prefix() + encode_str("Neuen Benutzer einrichten"@) + title_suffix() + seq![
        0x0du8,
        0x0au8,
    ] + encode_str("Teilnehmernummer:"@) + seq![0x1fu8, 0x46u8, 0x5du8] + encode_str("-1"@) + seq![
        0x0du8,
        0x0au8,
    ] + encode_str("Anrede:"@) + seq![0x0du8, 0x0au8] + encode_str("Name:"@) + seq![0x0du8, 0x0au8]
        + encode_str("Vorname:"@) + seq![0x0du8, 0x0au8] + encode_str("Stra\u{df}e:"@) + seq![
        0x0du8,
        0x0au8,
    ] + encode_str("PLZ:"@) + Seq::new(7, |i: int| 0x20u8) + encode_str("Ort:"@) + seq![
        0x1fu8,
        0x4bu8,
        0x5fu8,
    ] + encode_str("Land:"@) + seq![0x0du8, 0x0au8] + rule_bytes() + encode_str(
        "Verg\u{fc}tungssperre aktiv:"@,
    ) + seq![0x0du8, 0x0au8] + encode_str("Geb\u{fc}hrensperre   aktiv:"@) + seq![0x0du8, 0x0au8]
        + encode_str("Taschengeldkonto      :"@) + seq![0x1fu8, 0x4fu8, 0x63u8] + encode_str(
        ",   DM"@,
    ) + encode_str("Max. Verg\u{fc}tung/Seite  :"@) + seq![0x1fu8, 0x50u8, 0x63u8] + encode_str(
        ",   DM"@,
    ) + rule_bytes() + seq![0x0du8, 0x0au8] + encode_str("Kennwort: "@) + seq![
        0x0du8,
        0x0au8,
        0x0du8,
        0x0au8,
    ] + rule_bytes()
}

/// What the add-user page is, in full: the exact links, the rendered
/// mask bytes, and the complete declarative form: all fifteen fields with
/// their positions, sizes, kinds, defaults, allow-lists, validate hooks
/// and display flags.
pub open spec fn add_user_page_spec(r: Page) -> bool {
    &&& r.wf()
    &&& r.cept@ == add_user_mask_bytes()
    &&& (r.meta.publisher_name matches Some(p) && p@ == "!BTX"@)
    &&& r.meta.publisher_color == 7
    &&& r.meta.clear_screen
    &&& !r.meta.cls2
    &&& !r.meta.parallel_mode
    &&& r.meta.links@.len() == 4
    &&& r.meta.links@[0].0@ == "0"@ && r.meta.links@[0].1@ == "0"@
    &&& r.meta.links@[1].0@ == "1"@ && r.meta.links@[1].1@ == "88"@
    &&& r.meta.links@[2].0@ == "2"@ && r.meta.links@[2].1@ == "89"@
    &&& r.meta.links@[3].0@ == "5"@ && r.meta.links@[3].1@ == "810"@
    &&& (r.meta.inputs matches Some(form) && ({
        let f = form.fields@;
        &&& !form.confirm
        &&& form.target@ == "call:User_UI.callback_add_user"@
        &&& f.len() == 15
        &&& f[0].name@ == "user_id"@ && f[0].line == 6 && f[0].column == 19 && f[0].width == 10
            && f[0].field_type == FieldType::Number && (f[0].validate matches Some(v) && v@
            == "call:User_UI.callback_validate_user_id"@)
        &&& f[1].name@ == "salutation"@ && f[1].line == 7 && f[1].column == 9 && f[1].width == 20
        &&& f[2].name@ == "last_name"@ && f[2].line == 8 && f[2].column == 7 && f[2].width == 20
            && (f[2].validate matches Some(v) && v@
            == "call:User_UI.callback_validate_last_name"@)
        &&& f[3].name@ == "first_name"@ && f[3].line == 9 && f[3].column == 10 && f[3].width == 20
        &&& f[4].name@ == "street"@ && f[4].line == 10 && f[4].column == 9 && f[4].width == 20
        &&& f[5].name@ == "zip"@ && f[5].line == 11 && f[5].column == 6 && f[5].width == 5
            && f[5].field_type == FieldType::Number
        &&& f[6].name@ == "city"@ && f[6].line == 11 && f[6].column == 17 && f[6].width == 13
        &&& f[7].name@ == "country"@ && f[7].line == 11 && f[7].column == 37 && f[7].width == 2
            && f[7].field_type == FieldType::Alpha && (f[7].default matches Some(d) && d@
            == "de"@) && f[7].overwrite && f[7].cursor_home
        &&& f[8].name@ == "block_payments"@ && f[8].line == 13 && f[8].column == 25 && f[8].width
            == 1 && (f[8].default matches Some(d) && d@ == "n"@) && f[8].cursor_home
            && (f[8].legal_values matches Some(lv) && lv@.len() == 2 && lv@[0]@ == "j"@
            && lv@[1]@ == "n"@)
        &&& f[9].name@ == "block_fees"@ && f[9].line == 14 && f[9].column == 25 && f[9].width == 1
            && (f[9].default matches Some(d) && d@ == "n"@) && f[9].cursor_home
            && (f[9].legal_values matches Some(lv) && lv@.len() == 2 && lv@[0]@ == "j"@
            && lv@[1]@ == "n"@)
        &&& f[10].name@ == "pocket_money_major"@ && f[10].line == 15 && f[10].column == 34
            && f[10].width == 1 && f[10].field_type == FieldType::Number && (f[10].default
            matches Some(d) && d@ == "9"@) && f[10].overwrite && f[10].cursor_home
        &&& f[11].name@ == "pocket_money_minor"@ && f[11].line == 15 && f[11].column == 36
            && f[11].width == 2 && f[11].field_type == FieldType::Number && (f[11].default
            matches Some(d) && d@ == "99"@) && f[11].overwrite && f[11].cursor_home
        &&& f[12].name@ == "max_price_major"@ && f[12].line == 16 && f[12].column == 34
            && f[12].width == 1 && f[12].field_type == FieldType::Number && (f[12].default
            matches Some(d) && d@ == "9"@) && f[12].overwrite && f[12].cursor_home
        &&& f[13].name@ == "max_price_minor"@ && f[13].line == 16 && f[13].column == 36
            && f[13].width == 2 && f[13].field_type == FieldType::Number && (f[13].default
            matches Some(d) && d@ == "99"@) && f[13].overwrite && f[13].cursor_home
        &&& f[14].name@ == "password"@ && f[14].line == 19 && f[14].column == 11 && f[14].width
            == 14 && f[14].field_type == FieldType::Password && (f[14].validate matches Some(v)
            && v@ == "call:User_UI.callback_validate_password"@)
    }))
}

/// The add-user form page: the rendered registration mask and the
/// declarative description of its fifteen input fields, which the session
/// layer collects and hands to the registration callback.
pub fn create_add_user() -> (r: Page)
    ensures
        add_user_page_spec(r),
{
    let mut fields: Vec<Field> = Vec::new();

    let mut f = Field::text("user_id", 6, 19, 10, "Gew\u{fc}nschte Nummer oder # eingeben");
    f.field_type = FieldType::Number;
    f.validate = Some("call:User_UI.callback_validate_user_id".to_owned());
    fields.push(f);

    fields.push(Field::text("salutation", 7, 9, 20, "Anrede oder # eingeben"));

    let mut f = Field::text("last_name", 8, 7, 20, "Nachnamen oder # eingeben");
    f.validate = Some("call:User_UI.callback_validate_last_name".to_owned());
    fields.push(f);

    fields.push(Field::text("first_name", 9, 10, 20, "Vornamen oder # eingeben"));
    fields.push(Field::text("street", 10, 9, 20, "Stra\u{df}e und Hausnummer oder # eingeben"));

    let mut f = Field::text("zip", 11, 6, 5, "Postleitzahl oder # eingeben");
    f.field_type = FieldType::Number;
    fields.push(f);

    fields.push(Field::text("city", 11, 17, 13, "Ort oder # eingeben"));

    let mut f = Field::text("country", 11, 37, 2, "Land oder # eingeben");
    f.field_type = FieldType::Alpha;
    f.default = Some("de".to_owned());
    f.overwrite = true;
    f.cursor_home = true;
    fields.push(f);

    let mut f = Field::text("block_payments", 13, 25, 1, "j/n oder # eingeben");
    f.default = Some("n".to_owned());
    f.cursor_home = true;
    let mut jn: Vec<String> = Vec::new();
    jn.push("j".to_owned());
    jn.push("n".to_owned());
    f.legal_values = Some(jn);
    fields.push(f);

    let mut f = Field::text("block_fees", 14, 25, 1, "j/n oder # eingeben");
    f.default = Some("n".to_owned());
    f.cursor_home = true;
    let mut jn: Vec<String> = Vec::new();
    jn.push("j".to_owned());
    jn.push("n".to_owned());
    f.legal_values = Some(jn);
    fields.push(f);

    let mut f = Field::text("pocket_money_major", 15, 34, 1, "0-9 oder # eingeben");
    f.field_type = FieldType::Number;
    f.default = Some("9".to_owned());
    f.overwrite = true;
    f.cursor_home = true;
    fields.push(f);

    let mut f = Field::text("pocket_money_minor", 15, 36, 2, "00-99 oder # eingeben");
    f.field_type = FieldType::Number;
    f.default = Some("99".to_owned());
    f.overwrite = true;
    f.cursor_home = true;
    fields.push(f);

    let mut f = Field::text("max_price_major", 16, 34, 1, "0-9 oder # eingeben");
    f.field_type = FieldType::Number;
    f.default = Some("9".to_owned());
    f.overwrite = true;
    f.cursor_home = true;
    fields.push(f);

    let mut f = Field::text("max_price_minor", 16, 36, 2, "00-99 oder # eingeben");
    f.field_type = FieldType::Number;
    f.default = Some("99".to_owned());
    f.overwrite = true;
    f.cursor_home = true;
    fields.push(f);

    let mut f = Field::text("password", 19, 11, 14, "Neues Kennwort");
    f.field_type = FieldType::Password;
    f.validate = Some("call:User_UI.callback_validate_password".to_owned());
    fields.push(f);

    let inputs = InputForm {
        confirm: false,
        target: "call:User_UI.callback_add_user".to_owned(),
        fields,
    };

    let mut links: Vec<(String, String)> = Vec::new();
    links.push(("0".to_owned(), "0".to_owned()));
    links.push(("1".to_owned(), "88".to_owned()));
    links.push(("2".to_owned(), "89".to_owned()));
    links.push(("5".to_owned(), "810".to_owned()));

    let meta = Meta {
        publisher_name: Some("!BTX".to_owned()),
        clear_screen: true,
        cls2: false,
        parallel_mode: false,
        links,
        publisher_color: 7,
        inputs: Some(inputs),
    };

    let mut cept = create_title("Neuen Benutzer einrichten");
    cept.add_raw(&[0x0d, 0x0a]);
    cept.add_str("Teilnehmernummer:");
    cept.set_cursor(6, 29);
    cept.add_str("-1");
    cept.add_raw(&[0x0d, 0x0a]);
    cept.add_str("Anrede:");
    cept.add_raw(&[0x0d, 0x0a]);
    cept.add_str("Name:");
    cept.add_raw(&[0x0d, 0x0a]);
    cept.add_str("Vorname:");
    cept.add_raw(&[0x0d, 0x0a]);
    cept.add_str("Stra\u{df}e:");
    cept.add_raw(&[0x0d, 0x0a]);
    cept.add_str("PLZ:");
    cept.repeat(0x20, 7);
    cept.add_str("Ort:");
    cept.set_cursor(11, 31);
    cept.add_str("Land:");
    cept.add_raw(&[0x0d, 0x0a]);
    cept.append(&line());
    cept.add_str("Verg\u{fc}tungssperre aktiv:");
    cept.add_raw(&[0x0d, 0x0a]);
    cept.add_str("Geb\u{fc}hrensperre   aktiv:");
    cept.add_raw(&[0x0d, 0x0a]);
    cept.add_str("Taschengeldkonto      :");
    cept.set_cursor(15, 35);
    cept.add_str(",   DM");
    cept.add_str("Max. Verg\u{fc}tung/Seite  :");
    cept.set_cursor(16, 35);
    cept.add_str(",   DM");
    cept.append(&line());
    cept.add_raw(&[0x0d, 0x0a]);
    cept.add_str("Kennwort: ");
    cept.add_raw(&[0x0d, 0x0a, 0x0d, 0x0a]);
    cept.append(&line());

    assert(cept@ =~= add_user_mask_bytes());
    Page { cept, meta }
}

/// Resolve this module's page identifiers: `77a` is the add-user form;
/// anything else is not served here.
pub fn create(user: &User, pageid: &str) -> (r: Option<Page>)
    ensures
        r is Some <==> pageid@ == "77a"@,
        r matches Some(p) ==> add_user_page_spec(p),
{
    if str_eq(pageid, "77a") {
        Some(create_add_user())
    } else {
        None
    }
}

} // verus!
