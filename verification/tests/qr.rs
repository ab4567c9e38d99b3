use ptouch::document::{QrErrorCorrection, QrSource};
use ptouch::error::RenderError;
use ptouch::qr::{
    codeword_symbol_modules, content_fits, render_modules, render_qr, source_modules,
    try_render_qr, MAX_SCORED_VERSION,
};

#[test]
fn qr_modules_and_quiet_zone_use_whole_pixels() {
    let bitmap = render_qr("HELLO", QrErrorCorrection::Low, 58, 2, None).unwrap();

    assert_eq!((bitmap.width(), bitmap.height()), (58, 58));
    // Version 1 is 21 modules wide. With a four-module quiet zone, a
    // 58-pixel canvas yields exactly two pixels per module.
    assert!(!bitmap.get_pixel(7, 7));
    assert!(bitmap.get_pixel(8, 8));
    assert!(bitmap.get_pixel(9, 9));
    assert!(!bitmap.get_pixel(10, 10));
}

#[test]
fn qr_rejects_a_canvas_smaller_than_its_module_matrix() {
    let error = render_qr("HELLO", QrErrorCorrection::Low, 28, 1, None).unwrap_err();
    assert!(error.message().contains("requires at least 29 pixels"));
}

#[test]
fn qr_enforces_the_requested_minimum_module_size() {
    let error = render_qr("HELLO", QrErrorCorrection::Low, 58, 3, None).unwrap_err();
    assert!(error.message().contains("requires at least 87 pixels"));
}

#[test]
fn qr_rejects_a_minimum_module_size_that_overflows() {
    let error = render_qr("HELLO", QrErrorCorrection::Low, 58, u32::MAX, None).unwrap_err();
    assert!(error
        .message()
        .contains("minimum module size is too large"));
}

fn hello(mask_pattern: u8) -> QrSource {
    QrSource {
        data_codewords_base64: "QFSEVMTE8OwR7BHsEewR7BHsEQ==".to_string(),
        version: 1,
        mask_pattern,
    }
}

#[test]
fn qr_can_preserve_source_codewords_version_and_mask() {
    let source = hello(7);
    let preserved = render_qr("HELLO", QrErrorCorrection::Low, 58, 2, Some(&source)).unwrap();
    let automatic = render_qr("HELLO", QrErrorCorrection::Low, 58, 2, None).unwrap();

    let differences = (0..58)
        .flat_map(|y| (0..58).map(move |x| (x, y)))
        .filter(|&(x, y)| preserved.get_pixel(x, y) != automatic.get_pixel(x, y))
        .count();
    assert!(
        differences > 0,
        "fixed source mask should differ from automatic encoding"
    );
    assert!(preserved.get_pixel(8, 8));
    assert!(!preserved.get_pixel(7, 7));
}

#[test]
fn qr_rejects_invalid_source_metadata() {
    let source = QrSource {
        data_codewords_base64: "not base64".to_string(),
        version: 1,
        mask_pattern: 7,
    };
    let error = render_qr("HELLO", QrErrorCorrection::Low, 58, 2, Some(&source)).unwrap_err();
    assert!(error.message().contains("data_codewords_base64 is invalid"));
}

fn refusal(source: &QrSource) -> String {
    source_modules(source, QrErrorCorrection::Low)
        .unwrap_err()
        .message()
}

#[test]
fn sources_are_checked_before_they_are_encoded() {
    let mut source = hello(8);
    assert_eq!(refusal(&source), "QR source mask_pattern must be between 0 and 7");
    source.version = 0;
    assert_eq!(refusal(&source), "QR source version must be between 1 and 40");
    source.version = 41;
    assert_eq!(refusal(&source), "QR source version must be between 1 and 40");
    source = hello(0);
    source.data_codewords_base64 = String::new();
    assert_eq!(refusal(&source), "QR source data_codewords_base64 cannot be empty");
    source = hello(0);
    source.version = 2;
    assert_eq!(
        refusal(&source),
        "QR source data has 19 codewords, which does not match version 2 at error correction LOW"
    );
    let error = codeword_symbol_modules(&vec![1, 2, 3], 1, 0, QrErrorCorrection::Quartile);
    assert_eq!(
        error.unwrap_err().message(),
        "QR source data has 3 codewords, which does not match version 1 at error correction QUARTILE"
    );
}

#[test]
fn every_version_takes_as_many_codewords_as_it_holds() {
    // Data codewords of version 1, 2, 7 and 40.
    let counts = [
        (QrErrorCorrection::Low, [19, 34, 156, 2956]),
        (QrErrorCorrection::Medium, [16, 28, 124, 2334]),
        (QrErrorCorrection::Quartile, [13, 22, 88, 1666]),
        (QrErrorCorrection::High, [9, 16, 66, 1276]),
    ];
    for (level, held) in counts {
        for (version, count) in [1u8, 2, 7, 40].into_iter().zip(held) {
            let codewords = vec![0xa5u8; count];
            let (side, modules) =
                codeword_symbol_modules(&codewords, version, 3, level).unwrap();
            assert_eq!(side, u32::from(version) * 4 + 17);
            assert_eq!(modules.len(), (side * side) as usize);
            // The three finder patterns have dark corners, the fourth corner
            // is not one of them.
            assert!(modules[0]);
            assert!(modules[side as usize - 1]);
            assert!(modules[(side * (side - 1)) as usize]);
            assert!(codeword_symbol_modules(&vec![0; count + 1], version, 3, level).is_err());
        }
    }
}

#[test]
fn rows_and_columns_of_a_source_symbol_are_not_exchanged() {
    // The dark module stands at column 8 of row 13 in every version 1 symbol.
    let (side, modules) = source_modules(&hello(2), QrErrorCorrection::Low).unwrap();
    assert_eq!(side, 21);
    assert!(modules[13 * 21 + 8]);
}

#[test]
fn left_over_pixels_go_around_the_quiet_zone() {
    let modules = vec![true; 21 * 21];
    let bitmap = render_modules(21, &modules, 63, 1).unwrap();
    // Two pixels per module, five left over: two before the quiet zone.
    for y in 0..63 {
        for x in 0..63 {
            let inside = (10..52).contains(&x) && (10..52).contains(&y);
            assert_eq!(bitmap.get_pixel(x, y), inside);
        }
    }
}

#[test]
fn modules_can_be_read_back_from_the_picture() {
    let modules: Vec<bool> = (0..21 * 21).map(|i| i % 3 == 0).collect();
    let bitmap = render_modules(21, &modules, 90, 3).unwrap();
    for row in 0..21u32 {
        for column in 0..21u32 {
            let dark = modules[(row * 21 + column) as usize];
            for y in 0..3 {
                for x in 0..3 {
                    assert_eq!(bitmap.get_pixel(13 + column * 3 + x, 13 + row * 3 + y), dark);
                }
            }
        }
    }
}

#[test]
fn empty_requests_are_refused() {
    let message = |content: &str, size, min| {
        render_qr(content, QrErrorCorrection::High, size, min, None)
            .unwrap_err()
            .message()
    };
    assert_eq!(message("", 58, 1), "QR code content cannot be empty");
    assert_eq!(message("A", 0, 1), "QR code size must be greater than zero");
    assert_eq!(message("A", 58, 0), "QR code min_module_size must be greater than zero");
    assert_eq!(
        message("A", 28, 1),
        "QR code requires at least 29 pixels for its symbol, quiet zone, and min_module_size 1, \
         but size is 28"
    );
}

#[test]
fn content_that_no_symbol_holds_is_refused() {
    let content = "x".repeat(3000);
    let error = render_qr(&content, QrErrorCorrection::High, 1000, 1, None).unwrap_err();
    assert!(matches!(
        error,
        RenderError::Layout(text) if text == "QR code encoding failed: data too long"
    ));
}

#[test]
fn levels_have_names() {
    assert_eq!(QrErrorCorrection::Low.name(), "LOW");
    assert_eq!(QrErrorCorrection::Medium.name(), "MEDIUM");
    assert_eq!(QrErrorCorrection::Quartile.name(), "QUARTILE");
    assert_eq!(QrErrorCorrection::High.name(), "HIGH");
}

#[test]
fn contents_up_to_the_largest_scored_version_are_drawn() {
    assert_eq!(MAX_SCORED_VERSION, 13);
    // Bytes that a symbol of version 13 holds.
    let held = [
        (QrErrorCorrection::Low, 425),
        (QrErrorCorrection::Medium, 331),
        (QrErrorCorrection::Quartile, 241),
        (QrErrorCorrection::High, 177),
    ];
    for (level, count) in held {
        let content = "x".repeat(count);
        assert!(content_fits(&content, level));
        let bitmap = try_render_qr(&content, level, 77, 1, None).unwrap().unwrap();
        assert_eq!(bitmap.width(), 77);
        assert!(bitmap.get_pixel(4, 4) && bitmap.get_pixel(72, 4) && bitmap.get_pixel(4, 72));
        let content = "x".repeat(count + 1);
        assert!(!content_fits(&content, level));
        assert!(try_render_qr(&content, level, 1000, 1, None).is_none());
    }
}

#[test]
fn what_is_not_encoded_needs_no_scores() {
    let long = "x".repeat(1000);
    let level = QrErrorCorrection::Low;
    assert!(try_render_qr(&long, level, 0, 1, None).unwrap().is_err());
    assert!(try_render_qr(&long, level, 58, 0, None).unwrap().is_err());
    assert!(try_render_qr("", level, 58, 1, None).unwrap().is_err());
    assert!(try_render_qr(&long, level, 58, 2, Some(&hello(7))).unwrap().is_ok());
    // No symbol holds as much, so that none is scored.
    let longer = "x".repeat(3000);
    assert!(content_fits(&longer, level));
    let error = try_render_qr(&longer, level, 1000, 1, None).unwrap().unwrap_err();
    assert_eq!(error.message(), "QR code encoding failed: data too long");
}
