use parallel_core::grid::{GridApp, Rgb, DEFAULT_GRID_SIZE};
use parallel_core::typename::{is_well_bracketed, pluralize, type_name_key, vec_item_key};
use parallel_core::retry::{backoff_ms, Retrier, RetryStep, MAX_RETRY_LIMIT};

fn snapshot(g: &GridApp) -> Vec<Vec<bool>> {
    let n = g.grid_size();
    (0..n).map(|r| (0..n).map(|c| g.cell(r, c).unwrap()).collect()).collect()
}

#[test]
fn fresh_grid_is_off_and_green() {
    let g = GridApp::new();
    assert_eq!(g.grid_size(), DEFAULT_GRID_SIZE);
    assert_eq!(DEFAULT_GRID_SIZE, 10);
    assert_eq!(snapshot(&g), vec![vec![false; 10]; 10]);
    assert_eq!(g.color(), Rgb { r: 46, g: 182, b: 125 });
    assert_eq!(g.cell(10, 0), None);
    assert_eq!(g.cell(0, 10), None);
}

#[test]
fn toggle_flips_one_cell_in_range_only() {
    let mut g = GridApp::new();
    g.toggle_cell(2, 3);
    assert_eq!(g.cell(2, 3), Some(true));
    assert_eq!(g.cell(3, 2), Some(false));
    g.toggle_cell(2, 3);
    assert_eq!(g.cell(2, 3), Some(false));
    let before = snapshot(&g);
    g.toggle_cell(10, 3);
    g.toggle_cell(3, 10);
    assert_eq!(snapshot(&g), before);
}

#[test]
fn clear_fill_and_randomize_keep_shape() {
    let mut g = GridApp::new();
    g.fill_grid();
    assert_eq!(snapshot(&g), vec![vec![true; 10]; 10]);
    g.clear_grid();
    assert_eq!(snapshot(&g), vec![vec![false; 10]; 10]);
    g.randomize_grid();
    assert_eq!(g.grid_size(), 10);
    assert_eq!(snapshot(&g).len(), 10);
    g.set_color(Rgb { r: 1, g: 2, b: 3 });
    assert_eq!(g.color(), Rgb { r: 1, g: 2, b: 3 });
}

#[test]
fn resize_keeps_what_fits() {
    let mut g = GridApp::new();
    g.toggle_cell(0, 0);
    g.toggle_cell(4, 4);
    g.toggle_cell(9, 9);
    g.resize_grid(5);
    assert_eq!(g.grid_size(), 5);
    assert_eq!(g.cell(0, 0), Some(true));
    assert_eq!(g.cell(4, 4), Some(true));
    assert_eq!(g.cell(1, 1), Some(false));
    g.resize_grid(12);
    assert_eq!(g.grid_size(), 12);
    assert_eq!(g.cell(0, 0), Some(true));
    assert_eq!(g.cell(4, 4), Some(true));
    assert_eq!(g.cell(9, 9), Some(false));
    assert_eq!(g.cell(11, 11), Some(false));
    g.resize_grid(0);
    assert_eq!(g.grid_size(), 0);
    assert_eq!(g.cell(0, 0), None);
}

#[test]
fn type_name_keys() {
    assert_eq!(pluralize("user".to_string()), "users");
    assert_eq!(type_name_key("i32"), "i32s");
    assert_eq!(type_name_key("with2::Consumer"), "consumers");
    assert_eq!(type_name_key("alloc::vec::Vec<with2::User>"), "users");
    assert_eq!(vec_item_key("alloc::vec::Vec<with2::User>"), Some("users".to_string()));
    assert_eq!(vec_item_key("alloc::vec::Vec<i32>"), Some("i32s".to_string()));
    assert_eq!(vec_item_key("Vec<>"), None);
    assert_eq!(vec_item_key("alloc::string::String"), None);
    assert_eq!(vec_item_key("Option<Vec<app::Page>>"), Some("page>s".to_string()));
}

#[test]
fn bracket_check() {
    assert!(is_well_bracketed("Vec<u8>"));
    assert!(is_well_bracketed("u8"));
    assert!(is_well_bracketed("Open<u8"));
    assert!(!is_well_bracketed("a>b<c"));
}

#[test]
fn retry_backoff_doubles_then_gives_up() {
    assert_eq!(backoff_ms(0), 1);
    assert_eq!(backoff_ms(1), 2);
    assert_eq!(backoff_ms(10), 1024);
    assert_eq!(backoff_ms(MAX_RETRY_LIMIT), 1u64 << 63);
    let mut r = Retrier::new(3);
    assert_eq!(r.on_failure(), RetryStep::Retry(2));
    assert_eq!(r.on_failure(), RetryStep::Retry(4));
    assert_eq!(r.on_failure(), RetryStep::Retry(8));
    assert_eq!(r.on_failure(), RetryStep::GiveUp);
    assert_eq!(r.on_failure(), RetryStep::GiveUp);
    assert_eq!(r.retries(), 3);
    let mut none = Retrier::new(0);
    assert_eq!(none.on_failure(), RetryStep::GiveUp);
}
