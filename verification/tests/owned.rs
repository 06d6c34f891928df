use fluent_string::FluentBuf;
use fluent_string::FluentString;

#[test]
fn test_owned_clear() {
    assert_eq!(FluentBuf::from_str("this is a string").f_clear().len(), 0);
}

#[test]
fn test_owned_insert() {
    assert!(FluentBuf::from_str("this is a string")
        .f_insert(5, 'b')
        .as_string()
        .eq_ignore_ascii_case("THIS BIS A STRING"));
}

#[test]
fn test_owned_insert_str() {
    assert!(FluentBuf::from_str("this is a string")
        .f_insert_str(8, "not ")
        .as_string()
        .eq_ignore_ascii_case("THIS IS NOT A STRING"));
}

#[test]
fn test_owned_push() {
    assert!(FluentBuf::from_str("this is a string")
        .f_push('P')
        .as_string()
        .eq_ignore_ascii_case("THIS IS A STRINGP"));
}

#[test]
fn test_owned_push_str() {
    assert!(FluentBuf::from_str("this is a string")
        .f_push_str("PUP")
        .as_string()
        .eq_ignore_ascii_case("THIS IS A STRINGPUP"));
}

#[test]
fn test_owned_replace_range() {
    assert!(FluentBuf::from_str("this is a string")
        .f_replace_range(7..9, " not your")
        .as_string()
        .eq_ignore_ascii_case("THIS IS NOT YOUR STRING"));
}

#[test]
fn test_owned_reserve() {
    assert_eq!(FluentBuf::with_capacity(10).f_reserve(20).capacity(), 20);
}

#[test]
fn test_owned_reserve_exact() {
    assert_eq!(
        FluentBuf::with_capacity(10).f_reserve_exact(20).capacity(),
        20
    );
}

#[test]
fn test_owned_retain() {
    assert!(FluentBuf::from_str("this is a string")
        .f_retain(|c| c != 't')
        .as_string()
        .eq_ignore_ascii_case("HIS IS A SRING"));
}

#[test]
fn test_owned_shrink_to() {
    assert_eq!(
        FluentBuf::with_capacity(30)
            .f_push_str("this is a string")
            .f_shrink_to(20)
            .capacity(),
        20
    );
}

#[test]
fn test_owned_shrink_to_fit() {
    assert_eq!(
        FluentBuf::with_capacity(30)
            .f_push_str("this is a string")
            .f_shrink_to_fit()
            .capacity(),
        16
    );
}

#[test]
fn test_owned_truncate() {
    assert!(FluentBuf::from_str("this is a string")
        .f_truncate(4)
        .as_string()
        .eq_ignore_ascii_case("THIS"));
}

#[test]
fn test_owned_try_reserve() {
    assert_eq!(
        FluentBuf::with_capacity(10)
            .f_try_reserve(20)
            .unwrap()
            .capacity(),
        20
    );
}

#[test]
fn test_owned_try_reserve_exact() {
    assert_eq!(
        FluentBuf::with_capacity(10)
            .f_try_reserve_exact(20)
            .unwrap()
            .capacity(),
        20
    );
}

#[test]
fn test_owned_push_if_false() {
    assert_eq!(
        FluentBuf::new()
            .f_push_if(',', |s, _c| !s.is_empty())
            .as_string(),
        ""
    );
}

#[test]
fn test_owned_push_if_true() {
    assert_eq!(
        FluentBuf::from_str("hey")
            .f_push_if(',', |s, _c| !s.is_empty())
            .as_string(),
        "hey,"
    );
}

#[test]
fn test_owned_push_str_if_empty_self() {
    assert_eq!(
        FluentBuf::new()
            .f_push_str_if(",more", |s, s1| !(s.is_empty() || s1.is_empty()))
            .as_string(),
        ""
    );
}

#[test]
fn test_owned_push_str_if_empty_str() {
    assert_eq!(
        FluentBuf::from_str("hey")
            .f_push_str_if("", |s, s1| !(s.is_empty() || s1.is_empty()))
            .as_string(),
        "hey"
    );
}

#[test]
fn test_owned_push_str_if_true() {
    assert_eq!(
        FluentBuf::from_str("hey")
            .f_push_str_if(",more", |s, s1| !(s.is_empty() || s1.is_empty()))
            .as_string(),
        "hey,more"
    );
}

#[test]
fn test_owned_truncate_if_some() {
    assert_eq!(
        FluentBuf::from_str("hey you")
            .f_truncate_if(|s| if s.as_string().ends_with(" you") {
                Some(s.len() - 4)
            } else {
                None
            })
            .as_string(),
        "hey"
    );
}

#[test]
fn test_owned_truncate_if_none() {
    assert_eq!(
        FluentBuf::from_str("hey you")
            .f_truncate_if(|s| if s.as_string().ends_with(" ble") {
                Some(s.len() - 4)
            } else {
                None
            })
            .as_string(),
        "hey you"
    );
}
