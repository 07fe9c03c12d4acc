use desktop_path::{
    advance, first_query, join_desktop, note_bytes, note_path, user_desktop_path,
    ConstantSpecialItemIdList, Query, Step, PROFILE_VARIABLE,
};

fn wide(s: &str) -> Vec<u16> {
    s.encode_utf16().collect()
}

/// Runs a whole search, answering each query from the given outcomes, and
/// returns the queries made with the final step.
fn run(
    known: Option<&str>,
    special: Option<&str>,
    profile: Option<&str>,
    user: Option<&str>,
) -> (Vec<Query>, Step) {
    let mut asked = Vec::new();
    let mut query = first_query();
    loop {
        asked.push(query);
        let answer = match query {
            Query::KnownFolder => known,
            Query::SpecialFolder { .. } => special,
            Query::ProfileVariable => profile,
            Query::UserName => user,
        };
        match advance(query, answer.map(wide)) {
            Step::Ask(next) => query = next,
            step => return (asked, step),
        }
    }
}

fn resolved(step: &Step) -> Option<String> {
    match step {
        Step::Resolved(p) => Some(String::from_utf16(p).unwrap()),
        _ => None,
    }
}

#[test]
fn search_starts_with_known_folder() {
    assert_eq!(first_query(), Query::KnownFolder);
}

#[test]
fn known_folder_wins_over_every_fallback() {
    let (asked, step) = run(
        Some("E:/Desk"),
        Some("F:/Other"),
        Some("D:/Users/alice"),
        Some("bob"),
    );
    assert_eq!(resolved(&step).as_deref(), Some("E:/Desk"));
    assert_eq!(asked, vec![Query::KnownFolder]);
}

#[test]
fn known_folder_answer_is_kept_verbatim() {
    let p = wide("C:\\Users\\Zoë\\Desktop\\");
    match advance(Query::KnownFolder, Some(p.clone())) {
        Step::Resolved(r) => assert_eq!(r, p),
        other => panic!("unexpected step {:?}", other),
    }
}

#[test]
fn special_folder_is_asked_without_creating() {
    match advance(Query::KnownFolder, None) {
        Step::Ask(q) => assert_eq!(
            q,
            Query::SpecialFolder {
                folder: ConstantSpecialItemIdList::Desktop,
                create_folder: false
            }
        ),
        other => panic!("unexpected step {:?}", other),
    }
}

#[test]
fn special_folder_used_when_known_folder_fails() {
    let (asked, step) = run(None, Some("F:/Legacy/Desktop"), Some("D:/Users/alice"), Some("bob"));
    assert_eq!(resolved(&step).as_deref(), Some("F:/Legacy/Desktop"));
    assert_eq!(asked.len(), 2);
    assert_eq!(
        asked[1],
        Query::SpecialFolder {
            folder: ConstantSpecialItemIdList::Desktop,
            create_folder: false
        }
    );
}

#[test]
fn profile_variable_gives_desktop_inside_it() {
    let (asked, step) = run(None, None, Some("D:/Users/alice"), Some("bob"));
    assert_eq!(resolved(&step).as_deref(), Some("D:/Users/alice/Desktop"));
    assert_eq!(asked.last(), Some(&Query::ProfileVariable));
}

#[test]
fn profile_with_trailing_separator_gets_no_second_one() {
    assert_eq!(join_desktop(wide("D:/Users/alice/")), wide("D:/Users/alice/Desktop"));
    assert_eq!(join_desktop(wide("D:\\Users\\alice\\")), wide("D:\\Users\\alice\\Desktop"));
}

#[test]
fn empty_profile_variable_falls_through_to_user_name() {
    let (asked, step) = run(None, None, Some(""), Some("bob"));
    assert_eq!(resolved(&step).as_deref(), Some("C:/Users/bob/Desktop"));
    assert_eq!(asked.last(), Some(&Query::UserName));
}

#[test]
fn user_name_gives_default_profile_desktop() {
    let (asked, step) = run(None, None, None, Some("bob"));
    assert_eq!(resolved(&step).as_deref(), Some("C:/Users/bob/Desktop"));
    assert_eq!(
        asked,
        vec![
            Query::KnownFolder,
            Query::SpecialFolder {
                folder: ConstantSpecialItemIdList::Desktop,
                create_folder: false
            },
            Query::ProfileVariable,
            Query::UserName
        ]
    );
}

#[test]
fn non_ascii_user_name_is_kept() {
    assert_eq!(user_desktop_path(&wide("Zoë")), wide("C:/Users/Zoë/Desktop"));
}

#[test]
fn all_queries_failing_is_exhausted() {
    let (asked, step) = run(None, None, None, None);
    assert!(matches!(step, Step::Exhausted));
    assert_eq!(asked.len(), 4);
}

#[test]
fn profile_variable_name() {
    assert_eq!(PROFILE_VARIABLE, "USERPROFILE");
}

#[test]
fn note_goes_into_nul_inside_desktop() {
    assert_eq!(
        note_path(wide("\\\\?\\C:\\Users\\bob\\Desktop")),
        wide("\\\\?\\C:\\Users\\bob\\Desktop\\NUL")
    );
    assert_eq!(note_path(wide("C:/Users/bob/Desktop")), wide("C:/Users/bob/Desktop\\NUL"));
}

#[test]
fn note_after_trailing_separator_gets_no_second_one() {
    assert_eq!(
        note_path(wide("\\\\?\\C:\\Users\\bob\\Desktop\\")),
        wide("\\\\?\\C:\\Users\\bob\\Desktop\\NUL")
    );
    assert_eq!(note_path(wide("C:/Users/bob/Desktop/")), wide("C:/Users/bob/Desktop/NUL"));
}

#[test]
fn note_is_one_line() {
    assert_eq!(note_bytes(), b"pranked\n".to_vec());
    assert_eq!(note_bytes(), note_bytes());
}
