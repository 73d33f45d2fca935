use cept_pages::pages::FieldType;
use cept_pages::user::{create, create_add_user, create_title, create_title2, filename, Secrets, User};

#[test]
fn filename_composes_path_id_ext_and_extension() {
    assert_eq!(filename("23", "1", "../users/", "user"), "../users/23-1.user");
    assert_eq!(filename("0", "1", "../stats/", "stats"), "../stats/0-1.stats");
}

#[test]
fn store_filenames() {
    assert_eq!(User::user_filename("23", "1"), "../users/23-1.user");
    assert_eq!(User::secrets_filename("23", "1"), "../secrets/23-1.secrets");
}

#[test]
fn sanitize_fills_in_the_defaults() {
    let (u, e) = User::sanitize("", "");
    assert_eq!(u, "0");
    assert_eq!(e, "1");
    let (u, e) = User::sanitize("4711", "2");
    assert_eq!(u, "4711");
    assert_eq!(e, "2");
}

#[test]
fn password_check_is_exact_match_or_force() {
    let s = Secrets::new("geheim");
    assert!(s.check_password("geheim", false));
    assert!(!s.check_password("falsch", false));
    assert!(!s.check_password("", false));
    assert!(s.check_password("falsch", true));
}

#[test]
fn new_account_sets_the_person_fields_only() {
    let u = User::new_account("23", "1", "Herr", "Muster", "Max", "Weg 1", "12345", "Ulm", "de");
    assert_eq!(u.user_id, "23");
    assert_eq!(u.ext, "1");
    assert!(!u.personal_data);
    assert_eq!(u.salutation.as_deref(), Some("Herr"));
    assert_eq!(u.last_name.as_deref(), Some("Muster"));
    assert_eq!(u.first_name.as_deref(), Some("Max"));
    assert_eq!(u.street.as_deref(), Some("Weg 1"));
    assert_eq!(u.zip.as_deref(), Some("12345"));
    assert_eq!(u.city.as_deref(), Some("Ulm"));
    assert_eq!(u.country.as_deref(), Some("de"));
    assert!(u.org_name.is_none());
    assert!(u.org_add_name.is_none());
}

#[test]
fn divider_rule_bytes() {
    let c = cept_pages::user::line();
    let mut expected: Vec<u8> = vec![0x1b, 0x6f, 0x1b, 0x23, 0x40, 0x4f];
    expected.extend(std::iter::repeat(0x51).take(40));
    expected.extend_from_slice(&[0x1b, 0x23, 0x40, 0x47, 0x0f]);
    assert_eq!(c.bytes(), &expected);
}

#[test]
fn spaced_title_bar_bytes_exactly() {
    let c = create_title("X");
    let expected: Vec<u8> = vec![
        0x1f, 0x42, 0x41, 0x9b, 0x31, 0x40, 0x1b, 0x23, 0x20, 0x54, 0x1b, 0x28, 0x40, 0x0f, 0x1b,
        0x22, 0x41, 0x9b, 0x30, 0x40, 0x9e, 0x0a, 0x0d, 0x1b, 0x23, 0x21, 0x54, 0x0a, 0x1b, 0x23,
        0x21, 0x54, 0x9b, 0x31, 0x40, 0x8d, 0x0d, 0x58, 0x0a, 0x0d, 0x9b, 0x30, 0x40, 0x8c, 0x9e,
        0x87,
    ];
    assert_eq!(c.bytes(), &expected);
}

#[test]
fn unspaced_title_bar_matches_the_overview_one() {
    let c = create_title2("X");
    let expected: Vec<u8> = vec![
        0x1f, 0x42, 0x41, 0x9b, 0x31, 0x40, 0x1b, 0x23, 0x20, 0x54, 0x1b, 0x28, 0x40, 0x0f, 0x1b,
        0x22, 0x41, 0x9b, 0x30, 0x40, 0x9e, 0x1b, 0x23, 0x21, 0x54, 0x0a, 0x1b, 0x23, 0x21, 0x54,
        0x9b, 0x31, 0x40, 0x8d, 0x0d, 0x58, 0x0a, 0x0d, 0x9b, 0x30, 0x40, 0x8c, 0x9e, 0x87,
    ];
    assert_eq!(c.bytes(), &expected);
}

#[test]
fn add_user_form_links() {
    let p = create_add_user();
    let links: Vec<(&str, &str)> = p
        .meta
        .links
        .iter()
        .map(|(k, t)| (k.as_str(), t.as_str()))
        .collect();
    assert_eq!(links, vec![("0", "0"), ("1", "88"), ("2", "89"), ("5", "810")]);
    assert!(p.meta.clear_screen);
    assert_eq!(p.meta.publisher_name.as_deref(), Some("!BTX"));
    assert_eq!(p.meta.publisher_color, 7);
}

#[test]
fn add_user_form_fields_in_order() {
    let p = create_add_user();
    let form = p.meta.inputs.as_ref().unwrap();
    assert!(!form.confirm);
    assert_eq!(form.target, "call:User_UI.callback_add_user");
    let names: Vec<&str> = form.fields.iter().map(|f| f.name.as_str()).collect();
    assert_eq!(
        names,
        vec![
            "user_id",
            "salutation",
            "last_name",
            "first_name",
            "street",
            "zip",
            "city",
            "country",
            "block_payments",
            "block_fees",
            "pocket_money_major",
            "pocket_money_minor",
            "max_price_major",
            "max_price_minor",
            "password",
        ]
    );
}

#[test]
fn add_user_form_field_details() {
    let p = create_add_user();
    let form = p.meta.inputs.as_ref().unwrap();
    let user_id = &form.fields[0];
    assert_eq!((user_id.line, user_id.column, user_id.width), (6, 19, 10));
    assert_eq!(user_id.field_type, FieldType::Number);
    assert_eq!(
        user_id.validate.as_deref(),
        Some("call:User_UI.callback_validate_user_id")
    );
    let country = &form.fields[7];
    assert_eq!((country.line, country.column, country.width), (11, 37, 2));
    assert_eq!(country.field_type, FieldType::Alpha);
    assert_eq!(country.default.as_deref(), Some("de"));
    assert!(country.overwrite);
    assert!(country.cursor_home);
    let block = &form.fields[8];
    assert_eq!(
        block.legal_values.as_ref().unwrap(),
        &vec!["j".to_string(), "n".to_string()]
    );
    assert_eq!(block.default.as_deref(), Some("n"));
    let password = &form.fields[14];
    assert_eq!(password.field_type, FieldType::Password);
    assert_eq!((password.line, password.column, password.width), (19, 11, 14));
}

#[test]
fn module_serves_only_the_form_page() {
    let u = User::new_account("23", "1", "", "", "", "", "", "", "");
    assert!(create(&u, "77a").is_some());
    assert!(create(&u, "78a").is_none());
    assert!(create(&u, "").is_none());
}

#[test]
fn add_user_mask_renders_captions_and_rules() {
    fn find(haystack: &[u8], needle: &[u8]) -> bool {
        haystack.windows(needle.len()).any(|w| w == needle)
    }
    let p = create_add_user();
    let bytes = p.cept.bytes();
    // the spaced title bar opens the page
    let spaced_prefix: &[u8] = &[
        0x1f, 0x42, 0x41, 0x9b, 0x31, 0x40, 0x1b, 0x23, 0x20, 0x54, 0x1b, 0x28, 0x40, 0x0f, 0x1b,
        0x22, 0x41, 0x9b, 0x30, 0x40, 0x9e, 0x0a, 0x0d,
    ];
    assert_eq!(&bytes[..spaced_prefix.len()], spaced_prefix);
    assert!(find(bytes, b"Teilnehmernummer:"));
    assert!(find(bytes, b"Stra\x19\x7be:"));
    assert!(find(bytes, b"Kennwort: "));
    // three divider rules of forty rule cells each
    let rule: Vec<u8> = {
        let mut v = vec![0x1b, 0x6f, 0x1b, 0x23, 0x40, 0x4f];
        v.extend(std::iter::repeat(0x51).take(40));
        v.extend_from_slice(&[0x1b, 0x23, 0x40, 0x47, 0x0f]);
        v
    };
    let rules = bytes.windows(rule.len()).filter(|w| *w == rule.as_slice()).count();
    assert_eq!(rules, 3);
}
