use worker_dispatch::host::Platform;
use worker_dispatch::locator::{build_candidates, locate_worker};

const FALLBACK: &str = "D:/projects/youtube_download/main.py";

fn presence(flags: &[bool]) -> Vec<bool> {
    flags.to_vec()
}

#[test]
fn candidates_from_deep_directory() {
    let v = build_candidates(Platform::Linux, "a/b/c/d/e");
    assert_eq!(
        v,
        vec![
            "a/b/c/d/e/main.py".to_string(),
            "a/b/c/d/main.py".to_string(),
            "a/b/c/main.py".to_string(),
            "a/main.py".to_string(),
            FALLBACK.to_string(),
        ]
    );
}

#[test]
fn candidates_skip_third_ancestor() {
    // Five path segments: the ancestor three levels up ("a/b") is never a
    // candidate, while the one four levels up ("a") is.
    let v = build_candidates(Platform::Linux, "a/b/c/d/e");
    assert!(!v.contains(&"a/b/main.py".to_string()));
    assert!(v.contains(&"a/main.py".to_string()));
}

#[test]
fn candidates_from_single_component_directory() {
    // The parent of a bare relative component is the empty path, which still
    // has the worker file joined onto it; the empty path itself has no parent.
    let v = build_candidates(Platform::Linux, "work");
    assert_eq!(
        v,
        vec![
            "work/main.py".to_string(),
            "main.py".to_string(),
            FALLBACK.to_string(),
        ]
    );
}

#[test]
fn candidates_from_absolute_directory_stop_at_the_root() {
    let v = build_candidates(Platform::Linux, "/a/b");
    assert_eq!(
        v,
        vec![
            "/a/b/main.py".to_string(),
            "/a/main.py".to_string(),
            "/main.py".to_string(),
            FALLBACK.to_string(),
        ]
    );
}

#[test]
fn candidates_reach_depth_four_at_the_empty_ancestor() {
    let v = build_candidates(Platform::Linux, "a/b/c/d");
    assert_eq!(
        v,
        vec![
            "a/b/c/d/main.py".to_string(),
            "a/b/c/main.py".to_string(),
            "a/b/main.py".to_string(),
            "main.py".to_string(),
            FALLBACK.to_string(),
        ]
    );
}

#[test]
fn candidates_use_backslashes_on_windows() {
    let v = build_candidates(Platform::Windows, "u\\v\\w");
    assert_eq!(
        v,
        vec![
            "u\\v\\w\\main.py".to_string(),
            "u\\v\\main.py".to_string(),
            "u\\main.py".to_string(),
            FALLBACK.to_string(),
        ]
    );
}

#[test]
fn locate_picks_the_only_existing_candidate() {
    let candidates = vec![
        "x/main.py".to_string(),
        "y/main.py".to_string(),
        "z/main.py".to_string(),
    ];
    let r = locate_worker(&candidates, &presence(&[false, true, false]));
    assert_eq!(r, Ok("y/main.py".to_string()));
}

#[test]
fn locate_picks_the_shallowest_of_several() {
    let candidates = vec![
        "cwd/main.py".to_string(),
        "parent/main.py".to_string(),
        "grandparent/main.py".to_string(),
    ];
    let r = locate_worker(&candidates, &presence(&[true, true, true]));
    assert_eq!(r, Ok("cwd/main.py".to_string()));

    let r = locate_worker(&candidates, &presence(&[false, true, true]));
    assert_eq!(r, Ok("parent/main.py".to_string()));
}

#[test]
fn locate_fails_listing_exactly_the_probed_candidates() {
    let candidates = vec!["x/main.py".to_string(), "y/main.py".to_string()];
    let r = locate_worker(&candidates, &presence(&[false, false]));
    assert_eq!(
        r,
        Err(
            "Could not find main.py. Searched in: [\"x/main.py\", \"y/main.py\"]"
                .to_string()
        )
    );
}

#[test]
fn locate_fails_on_empty_candidate_list() {
    let candidates: Vec<String> = Vec::new();
    let present: Vec<bool> = Vec::new();
    let r = locate_worker(&candidates, &present);
    assert_eq!(
        r,
        Err("Could not find main.py. Searched in: []".to_string())
    );
}

#[test]
fn locate_reports_the_full_probed_list_for_a_deep_directory() {
    let candidates = build_candidates(Platform::Linux, "q/w/e/r/t");
    let present = vec![false; candidates.len()];
    let r = locate_worker(&candidates, &present);
    assert_eq!(
        r,
        Err("Could not find main.py. Searched in: [\"q/w/e/r/t/main.py\", \
             \"q/w/e/r/main.py\", \"q/w/e/main.py\", \"q/main.py\", \
             \"D:/projects/youtube_download/main.py\"]"
            .to_string())
    );
}

#[test]
fn locate_fallback_is_last_resort() {
    let candidates = build_candidates(Platform::Linux, "a/b/c/d/e");
    let mut present = vec![false; candidates.len()];
    *present.last_mut().unwrap() = true;
    let r = locate_worker(&candidates, &present);
    assert_eq!(r, Ok(FALLBACK.to_string()));
}
