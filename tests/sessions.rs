use rayspace::principal::{classify, Principal, UserStatus};
use rayspace::text::is_blank;

fn s(x: &str) -> Option<String> {
    Some(x.to_string())
}

#[test]
fn missing_field_is_anonymous() {
    let admin = s("156246723");
    assert_eq!(classify(None, None, &admin), Principal::Anonymous);
    assert_eq!(classify(s("156246723"), None, &admin), Principal::Anonymous);
    assert_eq!(classify(None, s("ray"), &admin), Principal::Anonymous);
}

#[test]
fn configured_id_is_administrator() {
    let admin = s("156246723");
    assert_eq!(
        classify(s("156246723"), s("ray"), &admin),
        Principal::Administrator { user_id: "156246723".to_string(), display_name: "ray".to_string() }
    );
    assert_eq!(
        classify(s("1"), s("ann"), &admin),
        Principal::Authenticated { user_id: "1".to_string(), display_name: "ann".to_string() }
    );
}

#[test]
fn unconfigured_administrator_admits_nobody() {
    assert_eq!(
        classify(s("156246723"), s("ray"), &None),
        Principal::Authenticated { user_id: "156246723".to_string(), display_name: "ray".to_string() }
    );
    assert_eq!(
        classify(s(""), s("ray"), &None),
        Principal::Authenticated { user_id: "".to_string(), display_name: "ray".to_string() }
    );
}

#[test]
fn status_reports_flags_and_name() {
    assert_eq!(Principal::Anonymous.status(), UserStatus { authenticated: false, admin: false, display_name: None });
    let a = Principal::Authenticated { user_id: "1".to_string(), display_name: "ann".to_string() };
    assert_eq!(a.status(), UserStatus { authenticated: true, admin: false, display_name: s("ann") });
    assert!(a.is_authenticated());
    assert!(!a.is_admin());
    let b = Principal::Administrator { user_id: "2".to_string(), display_name: "ray".to_string() };
    assert_eq!(b.status(), UserStatus { authenticated: true, admin: true, display_name: s("ray") });
}

#[test]
fn blank_means_only_white_space() {
    assert!(is_blank(""));
    assert!(is_blank(" \t\n\r\u{3000}\u{2003}"));
    assert!(!is_blank(" a "));
    assert!(!is_blank("\u{200b}"));
}
