use ptouch::error::RenderError;
use ptouch::text::{
    join_lines, plan_ordinary_text, plan_text, plan_weighted_text, render_text,
    render_text_gray_to_height, request_tight_text, split_lines, FontFamily, InkSpan, TextAlign,
    TextExtent, TextPlan, NORMAL_WEIGHT,
};

const NORMAL: u16 = 400;

fn plan(lines: &[&str], height: u32, margin: u32, centered: bool) -> TextPlan {
    plan_text(lines, height, "", margin, TextAlign::Left, NORMAL, centered).unwrap()
}

fn refusal(lines: &[&str], height: u32, margin: u32) -> String {
    let result = plan_text(lines, height, "", margin, TextAlign::Left, NORMAL, true);
    match result {
        Err(RenderError::Text(text)) => text,
        _ => panic!("expected an error"),
    }
}

#[test]
fn test_empty_text_error() {
    let result = plan_text(&[], 64, "sans-serif", 2, TextAlign::Center, NORMAL, true);
    assert!(result.is_err());
}

#[test]
fn test_zero_width_error() {
    let result = plan_text(&["hello"], 0, "sans-serif", 0, TextAlign::Center, NORMAL, true);
    assert!(result.is_err());
}

#[test]
fn test_render_basic_text() {
    let plan = plan_text(&["Test"], 64, "", 2, TextAlign::Left, NORMAL, true).unwrap();
    let measured = TextExtent { width: 48, left: 0, height: 29 };
    let bmp = render_text(&plan, &measured, &vec![]);
    assert!(bmp.width() > 0);
    assert_eq!(bmp.height(), 64);
}

#[test]
fn texts_that_cannot_be_rendered_are_refused_in_order() {
    assert_eq!(refusal(&[], 0, 0), "print_width must be > 0");
    assert_eq!(refusal(&["hello"], 0, u32::MAX), "print_width must be > 0");
    assert_eq!(refusal(&[""], 64, u32::MAX), "no text to render");
    assert_eq!(refusal(&["hello"], 64, 32), "font_margin too large for tape width");
}

#[test]
fn lines_are_joined_by_line_breaks() {
    assert_eq!(join_lines(&[]), "");
    assert_eq!(join_lines(&["a"]), "a");
    assert_eq!(join_lines(&["a", "", "b"]), "a\n\nb");
    assert_eq!(join_lines(&["", ""]), "\n");
    assert_eq!(plan(&["", ""], 64, 2, true).line_count, 2);
}

#[test]
fn plans_hold_what_the_font_engine_needs() {
    let plan = plan_text(&["a", "b"], 64, "DejaVu Sans", 2, TextAlign::Right, 0, false).unwrap();
    assert_eq!(plan.text, "a\nb");
    assert_eq!(plan.available_height, 60);
    assert!(matches!(plan.family, FontFamily::Named(name) if name == "DejaVu Sans"));
    assert_eq!(plan.weight, 1);
    assert_eq!(plan.align, TextAlign::Right);
    let plan = plan_text(&["a"], 64, "", 31, TextAlign::Left, 2000, true).unwrap();
    assert!(matches!(plan.family, FontFamily::SansSerif));
    assert_eq!(plan.weight, 1000);
    assert_eq!(plan.available_height, 2);
    assert_eq!(TextAlign::default(), TextAlign::Left);
}

#[test]
fn text_is_centered_where_it_is_lower_than_the_tape() {
    let span = InkSpan { x: 5, y: 0, width: 1, height: 1, alpha: 255 };
    let row = |plan: &TextPlan, height: u32| {
        let measured = TextExtent { width: 3, left: 4, height };
        let bitmap = render_text(plan, &measured, &vec![span]);
        assert_eq!((bitmap.width(), bitmap.height()), (3, 20));
        (0..20).find(|y| bitmap.get_pixel(1, *y)).unwrap()
    };
    assert_eq!(row(&plan(&["x"], 20, 3, true), 9), 5);
    assert_eq!(row(&plan(&["x"], 20, 3, true), 20), 3);
    assert_eq!(row(&plan(&["x"], 20, 3, false), 9), 3);
}

#[test]
fn overlapping_ink_keeps_the_darkest_level() {
    let plan = plan(&["x"], 2, 0, false);
    let measured = TextExtent { width: 2, left: -1, height: 2 };
    let spans = vec![
        InkSpan { x: -1, y: 0, width: 2, height: 1, alpha: 100 },
        InkSpan { x: -1, y: -5, width: 1, height: 6, alpha: 200 },
        InkSpan { x: -1, y: 0, width: 1, height: 1, alpha: 50 },
        InkSpan { x: 7, y: 7, width: 9, height: 9, alpha: 255 },
    ];
    let image = render_text_gray_to_height(&plan, &measured, &spans);
    assert_eq!(image.levels(), &vec![55, 155, 255, 255]);
}

#[test]
fn half_opacity_prints() {
    let plan = plan(&["x"], 1, 0, false);
    let measured = TextExtent { width: 2, left: 0, height: 1 };
    let spans = vec![
        InkSpan { x: 0, y: 0, width: 1, height: 1, alpha: 127 },
        InkSpan { x: 1, y: 0, width: 1, height: 1, alpha: 128 },
    ];
    let bitmap = render_text(&plan, &measured, &spans);
    assert!(!bitmap.get_pixel(0, 0));
    assert!(bitmap.get_pixel(1, 0));
}

#[test]
fn an_image_has_at_least_one_column() {
    let measured = TextExtent { width: 0, left: 0, height: 1 };
    let image = render_text_gray_to_height(&plan(&["x"], 3, 0, true), &measured, &vec![]);
    assert_eq!((image.width(), image.height()), (1, 3));
    assert_eq!(image.levels(), &vec![255; 3]);
    assert_eq!(image.level(0, 2), 255);
}

#[test]
fn texts_are_split_like_the_standard_library_does() {
    let samples = [
        "", "a", "a\n", "a\nb", "\n", "\n\n", "a\r\nb\r\n", "a\r\r\nb", "a\rb", "a\nb\r", "\r\n",
        "\r", "\n\r", "\u{e4}\u{1f600}\nx\u{2028}y\r\n\nz",
    ];
    for text in samples {
        let expected: Vec<String> = text.lines().map(|line| line.to_string()).collect();
        assert_eq!(split_lines(text), expected, "of {text:?}");
    }
}

#[test]
fn ordinary_text_has_weight_four_hundred() {
    assert_eq!(NORMAL_WEIGHT, 400);
    let ordinary = plan_ordinary_text(&["a", "b"], 64, "Serif", 2, TextAlign::Center).unwrap();
    let font = ("Serif", 400);
    let weighted = plan_weighted_text(&["a", "b"], 64, font, 2, TextAlign::Center).unwrap();
    assert_eq!(format!("{ordinary:?}"), format!("{weighted:?}"));
    assert_eq!(ordinary.weight, 400);
    assert!(ordinary.center_vertically);
}

#[test]
fn weights_act_as_the_nearest_known() {
    for (weight, known) in [(0, 1), (1, 1), (700, 700), (1000, 1000), (1001, 1000), (65535, 1000)] {
        let given = plan_weighted_text(&["a"], 64, ("", weight), 2, TextAlign::Left).unwrap();
        let nearest = plan_weighted_text(&["a"], 64, ("", known), 2, TextAlign::Left).unwrap();
        assert_eq!(given.weight, known);
        assert_eq!(format!("{given:?}"), format!("{nearest:?}"));
    }
}

#[test]
fn tight_texts_have_no_margin() {
    let request = request_tight_text(vec!["a".to_string()], "Serif", 7.0f32.to_bits(), 300);
    assert_eq!(request.lines, vec!["a"]);
    assert_eq!(request.font_name, "Serif");
    assert_eq!(f32::from_bits(request.font_size), 7.0);
    assert_eq!(request.font_weight, 300);
    assert_eq!(request.align, TextAlign::Left);
    assert_eq!(request.font_margin, 0);
    assert!(!request.center_vertically);
}

#[test]
fn line_heights_are_as_large_as_fits() {
    assert_eq!(plan(&["a"], 64, 2, true).largest_line_height(), 60);
    assert_eq!(plan(&["a"; 7], 64, 2, true).largest_line_height(), 8);
    assert_eq!(plan(&["a"; 60], 64, 2, true).largest_line_height(), 1);
    assert_eq!(plan(&["a"; 61], 64, 2, true).largest_line_height(), 0);
}
