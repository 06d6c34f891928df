use fluent_string::FluentBuf;
use fluent_string::FluentMut;

#[test]
fn test_ref_clear() {
    let mut s = FluentBuf::from_str("this is a string");
    let s = &mut s;
    s.f_clear();
    assert_eq!(s.len(), 0);
}

#[test]
fn test_ref_insert() {
    let mut s = FluentBuf::from_str("this is a string");
    let s = &mut s;
    s.f_insert(5, 'b');
    assert!(s.as_string().eq_ignore_ascii_case("THIS BIS A STRING"));
}

#[test]
fn test_ref_insert_str() {
    let mut s = FluentBuf::from_str("this is a string");
    let s = &mut s;
    s.f_insert_str(8, "not ");
    assert!(s.as_string().eq_ignore_ascii_case("THIS IS NOT A STRING"));
}

#[test]
fn test_ref_push() {
    let mut s = FluentBuf::from_str("this is a string");
    let s = &mut s;
    s.f_push('P');
    assert!(s.as_string().eq_ignore_ascii_case("THIS IS A STRINGP"));
}

#[test]
fn test_ref_push_str() {
    let mut s = FluentBuf::from_str("this is a string");
    let s = &mut s;
    s.f_push_str("PUP");
    assert!(s.as_string().eq_ignore_ascii_case("THIS IS A STRINGPUP"));
}

#[test]
fn test_ref_replace_range() {
    let mut s = FluentBuf::from_str("this is a string");
    let s = &mut s;
    s.f_replace_range(7..9, " not your");
    assert!(s.as_string().eq_ignore_ascii_case("THIS IS NOT YOUR STRING"));
}

#[test]
fn test_ref_reserve() {
    let mut s = FluentBuf::with_capacity(10);
    let s = &mut s;
    s.f_reserve(20);
    assert_eq!(s.capacity(), 20);
}

#[test]
fn test_ref_reserve_exact() {
    let mut s = FluentBuf::with_capacity(10);
    let s = &mut s;
    s.f_reserve_exact(20);
    assert_eq!(s.capacity(), 20);
}

#[test]
fn test_ref_retain() {
    let mut s = FluentBuf::from_str("this is a string");
    let s = &mut s;
    s.f_retain(|c| c != 't');
    assert!(s.as_string().eq_ignore_ascii_case("HIS IS A SRING"));
}

#[test]
fn test_ref_shrink_to() {
    let mut s = FluentBuf::with_capacity(30);
    let s = &mut s;
    s.f_push_str("this is a string");
    s.f_shrink_to(20);
    assert_eq!(s.capacity(), 20);
}

#[test]
fn test_ref_shrink_to_fit() {
    let mut s = FluentBuf::with_capacity(30);
    let s = &mut s;
    s.f_push_str("this is a string");
    s.f_shrink_to_fit();
    assert_eq!(s.capacity(), 16);
}

#[test]
fn test_ref_truncate() {
    let mut s = FluentBuf::from_str("this is a string");
    let s = &mut s;
    s.f_truncate(4);
    assert!(s.as_string().eq_ignore_ascii_case("THIS"));
}

#[test]
fn test_ref_try_reserve() {
    let mut s = FluentBuf::with_capacity(10);
    let s = &mut s;
    s.f_try_reserve(20).unwrap();
    assert_eq!(s.capacity(), 20);
}

#[test]
fn test_ref_try_reserve_exact() {
    let mut s = FluentBuf::with_capacity(10);
    let s = &mut s;
    s.f_try_reserve_exact(20).unwrap();
    assert_eq!(s.capacity(), 20);
}

#[test]
fn test_ref_push_if_false() {
    let mut s = FluentBuf::new();
    let s = &mut s;
    s.f_push_if(',', |s, _c| !s.is_empty());
    assert_eq!(s.as_string(), "");
}

#[test]
fn test_ref_push_if_true() {
    let mut s = FluentBuf::from_str("hey");
    let s = &mut s;
    s.f_push_if(',', |s, _c| !s.is_empty());
    assert_eq!(s.as_string(), "hey,");
}

#[test]
fn test_ref_push_str_if_empty_self() {
    let mut s = FluentBuf::new();
    let s = &mut s;
    s.f_push_str_if(",more", |s, s1| !(s.is_empty() || s1.is_empty()));
    assert_eq!(s.as_string(), "");
}

#[test]
fn test_ref_push_str_if_empty_str() {
    let mut s = FluentBuf::from_str("hey");
    let s = &mut s;
    s.f_push_str_if("", |s, s1| !(s.is_empty() || s1.is_empty()));
    assert_eq!(s.as_string(), "hey");
}

#[test]
fn test_ref_push_str_if_true() {
    let mut s = FluentBuf::from_str("hey");
    let s = &mut s;
    s.f_push_str_if(",more", |s, s1| !(s.is_empty() || s1.is_empty()));
    assert_eq!(s.as_string(), "hey,more");
}

#[test]
fn test_ref_truncate_if_some() {
    let mut s = FluentBuf::from_str("hey you");
    let s = &mut s;
    s.f_truncate_if(|s| {
        if s.as_string().ends_with(" you") {
            Some(s.len() - 4)
        } else {
            None
        }
    });
    assert_eq!(s.as_string(), "hey");
}

#[test]
fn test_ref_truncate_if_none() {
    let mut s = FluentBuf::from_str("hey you");
    let s = &mut s;
    s.f_truncate_if(|s| {
        if s.as_string().ends_with(" ble") {
            Some(s.len() - 4)
        } else {
            None
        }
    });
    assert_eq!(s.as_string(), "hey you");
}
