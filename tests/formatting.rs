use png_optimizer::item::{format_png_item, short_name, PngItem, RowState};
use png_optimizer::options::BatchOptions;
use png_optimizer::size::{compute_percent, format_file_size};

fn item(index: usize, path: &str, original: u64, optimized: u64) -> PngItem {
    PngItem {
        index,
        filepath: path.to_string(),
        original_size: original,
        optimized_size: optimized,
    }
}

#[test]
fn size_just_under_one_kilobyte() {
    assert_eq!(format_file_size(1023), "1.00 KB");
}

#[test]
fn size_one_kilobyte() {
    assert_eq!(format_file_size(1024), "1.00 KB");
}

#[test]
fn size_small_counts() {
    assert_eq!(format_file_size(1), "0.00 KB");
    assert_eq!(format_file_size(5), "0.00 KB");
    assert_eq!(format_file_size(6), "0.01 KB");
    assert_eq!(format_file_size(1536), "1.50 KB");
    assert_eq!(format_file_size(10240), "10.00 KB");
}

#[test]
fn size_megabyte_boundary() {
    assert_eq!(format_file_size(1024 * 1024 - 1), "1024.00 KB");
    assert_eq!(format_file_size(1024 * 1024), "1.00 MB");
    assert_eq!(format_file_size(1024 * 1024 + 1), "1.00 MB");
    assert_eq!(format_file_size(5 * 1024 * 1024 / 2), "2.50 MB");
}

#[test]
fn size_gigabyte_boundary() {
    assert_eq!(format_file_size(1024 * 1024 * 1024 - 1), "1024.00 MB");
    assert_eq!(format_file_size(1024 * 1024 * 1024), "1.00 GB");
    assert_eq!(format_file_size(1024 * 1024 * 1024 + 1), "1.00 GB");
    assert_eq!(format_file_size(3 * 1024 * 1024 * 1024), "3.00 GB");
}

#[test]
fn size_shown_value_stays_within_unit() {
    let mut size: u64 = 1;
    assert_eq!(format_file_size(0), "");
    while size < (1u64 << 40) {
        let text = format_file_size(size);
        let value: f64 = text.split(' ').next().unwrap().parse().unwrap();
        assert!(value <= 1024.0, "{} shows {}", size, text);
        size = size * 3 + 1;
    }
}

#[test]
fn size_zero_is_empty() {
    assert_eq!(format_file_size(0), "");
    assert_eq!(format_file_size(2048), "2.00 KB");
}

#[test]
fn percent_half() {
    assert_eq!(compute_percent(1000, 500), "50.0%");
}

#[test]
fn percent_unknown_original_is_empty() {
    assert_eq!(compute_percent(0, 0), "");
    assert_eq!(compute_percent(0, 500), "");
}

#[test]
fn percent_no_reduction_is_empty() {
    assert_eq!(compute_percent(1000, 1000), "");
    assert_eq!(compute_percent(1000, 1200), "");
}

#[test]
fn percent_rounds_to_one_decimal() {
    assert_eq!(compute_percent(3, 1), "66.7%");
    assert_eq!(compute_percent(1000, 0), "100.0%");
    assert_eq!(compute_percent(10000, 9999), "0.0%");
    assert_eq!(compute_percent(1000, 999), "0.1%");
}

#[test]
fn short_name_takes_file_name() {
    assert_eq!(short_name("/home/user/pictures/cat.png"), "cat.png");
    assert_eq!(short_name("cat.png"), "cat.png");
}

#[test]
fn short_name_truncates_long_names() {
    let long = "a".repeat(45) + ".png";
    let shown = short_name(&format!("/tmp/{}", long));
    assert_eq!(shown, "a".repeat(40) + "...");
    let exact = "b".repeat(36) + ".png";
    assert_eq!(short_name(&format!("/tmp/{}", exact)), exact);
}

#[test]
fn row_placeholder() {
    let row = format_png_item(&item(0, "/tmp/x.png", 0, 0), RowState::Pending);
    assert_eq!(row, "x.png|...|||");
}

#[test]
fn row_done_with_percentage() {
    let row = format_png_item(&item(0, "/tmp/x.png", 2048, 1024), RowState::Done);
    assert_eq!(row, "x.png|Done|2.00 KB|1.00 KB|50.0%");
}

#[test]
fn row_optimizing_shows_original_size_only() {
    let row = format_png_item(&item(4, "/tmp/x.png", 2048, 0), RowState::Optimizing);
    assert_eq!(row, "x.png|Optimizing|2.00 KB||");
}

#[test]
fn row_error_shows_no_sizes() {
    let row = format_png_item(&item(4, "/tmp/x.png", 2048, 0), RowState::Error);
    assert_eq!(row, "x.png|Error|||");
    let row = format_png_item(&item(4, "/tmp/x.png", 2048, 1024), RowState::Error);
    assert_eq!(row, "x.png|Error|||");
}

#[test]
fn row_render_is_repeatable() {
    let it = item(1, "/data/y.png", 4096, 1024);
    assert_eq!(
        format_png_item(&it, RowState::Done),
        format_png_item(&it, RowState::Done)
    );
}

#[test]
fn options_default_reduces_everything() {
    let s = BatchOptions::new().reduction_settings();
    assert!(s.fix_errors);
    assert!(s.bit_depth_reduction);
    assert!(s.color_type_reduction);
    assert!(s.palette_reduction);
    assert!(s.grayscale_reduction);
    assert!(!s.keep_interlacing);
}

#[test]
fn options_single_skips() {
    let mut o = BatchOptions::new();
    o.skip_palette_reduction = true;
    o.skip_bit_depth_reduction = true;
    let s = o.reduction_settings();
    assert!(!s.bit_depth_reduction);
    assert!(s.color_type_reduction);
    assert!(!s.palette_reduction);
    assert!(s.grayscale_reduction);
    assert!(!s.keep_interlacing);
}

#[test]
fn options_force_all_turns_every_step_off() {
    let mut o = BatchOptions::new();
    o.force_all_reductions = true;
    let s = o.reduction_settings();
    assert!(s.fix_errors);
    assert!(!s.bit_depth_reduction);
    assert!(!s.color_type_reduction);
    assert!(!s.palette_reduction);
    assert!(!s.grayscale_reduction);
    assert!(s.keep_interlacing);
}

