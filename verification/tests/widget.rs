use colour_gen::colour::resolve;
use colour_gen::page::{Msg, Page};
use colour_gen::rgb::{format_rgb, generate, rgb_values, GenerationError};

#[test]
fn resolve_keeps_nonempty_text() {
    assert_eq!(resolve("blue", "red"), "blue");
    assert_eq!(resolve("#11859E", "red"), "#11859E");
    assert_eq!(resolve("rgb(240, 128, 128)", "red"), "rgb(240, 128, 128)");
    assert_eq!(resolve("hsl(217, 90%, 61%)", "red"), "hsl(217, 90%, 61%)");
    assert_eq!(resolve(" ", "red"), " ");
    assert_eq!(resolve("not a colour at all", "red"), "not a colour at all");
}

#[test]
fn resolve_empty_gives_placeholder() {
    assert_eq!(resolve("", "red"), "red");
}

#[test]
fn resolve_is_idempotent() {
    for s in ["", "blue", "#11859E", "hsl(217, 90%, 61%)", " "] {
        for p in ["red", "green", ""] {
            let once = resolve(s, p);
            let twice = resolve(&once, p);
            assert_eq!(twice, once);
        }
    }
}

#[test]
fn format_rgb_exact_values() {
    assert_eq!(format_rgb(0, 0, 0), "rgb(0, 0, 0)");
    assert_eq!(format_rgb(255, 255, 255), "rgb(255, 255, 255)");
    assert_eq!(format_rgb(73, 206, 235), "rgb(73, 206, 235)");
    assert_eq!(format_rgb(7, 42, 100), "rgb(7, 42, 100)");
    assert_eq!(format_rgb(10, 99, 101), "rgb(10, 99, 101)");
    assert_eq!(format_rgb(9, 0, 200), "rgb(9, 0, 200)");
}

fn assert_rgb_shape(s: &str) {
    let inner = s
        .strip_prefix("rgb(")
        .and_then(|rest| rest.strip_suffix(")"))
        .expect("result must look like rgb(...)");
    let parts: Vec<&str> = inner.split(", ").collect();
    assert_eq!(parts.len(), 3, "three channels separated by a comma and a space");
    for part in parts {
        // parsing as u8 enforces an integer in [0, 255]
        let value: u8 = part.parse().expect("each channel is a decimal integer 0-255");
        // no leading zeros: the text is the canonical decimal rendering
        assert_eq!(part, value.to_string());
    }
}

#[test]
fn generate_matches_rgb_pattern() {
    for _ in 0..200 {
        match generate() {
            Ok(s) => assert_rgb_shape(&s),
            Err(GenerationError::EntropyUnavailable) => {
                panic!("entropy source should be available on this platform")
            }
        }
    }
}

#[test]
fn rgb_values_succeeds_here() {
    let drawn = rgb_values();
    assert!(drawn.is_ok());
}

#[test]
fn generate_distribution_is_not_degenerate() {
    // chi-squared uniformity check per byte position: 256 bins over 10,000
    // draws. With 255 degrees of freedom the statistic stays far below 400
    // for a uniform source and far above it for a degenerate one.
    let draws: usize = 10_000;
    let mut counts = [[0u32; 256]; 3];
    for _ in 0..draws {
        let s = generate().expect("entropy source available");
        let inner = s
            .strip_prefix("rgb(")
            .and_then(|rest| rest.strip_suffix(")"))
            .expect("rgb shape");
        let parts: Vec<&str> = inner.split(", ").collect();
        for (pos, part) in parts.iter().enumerate() {
            let value: u8 = part.parse().expect("channel value");
            counts[pos][value as usize] += 1;
        }
    }
    let expected = draws as f64 / 256.0;
    for pos in 0..3 {
        let mut chi2 = 0.0f64;
        for &count in counts[pos].iter() {
            let diff = count as f64 - expected;
            chi2 += diff * diff / expected;
        }
        assert!(
            chi2 < 400.0,
            "position {} rejects uniformity: chi-squared {}",
            pos,
            chi2
        );
    }
}

#[test]
fn initial_page_colour() {
    let page = Page::create();
    assert_eq!(page.colour, "rgb(73, 206, 235)");
    assert_eq!(page.placeholder, "red");
}

#[test]
fn commit_empty_field_falls_back() {
    let mut page = Page::create();
    let changed = page.update(Msg::ReadInput(Some(String::new())));
    assert!(changed);
    assert_eq!(page.colour, "red");
}

#[test]
fn commit_hex_code_passes_through() {
    let mut page = Page::create();
    let changed = page.update(Msg::ReadInput(Some(String::from("#11859E"))));
    assert!(changed);
    assert_eq!(page.colour, "#11859E");
}

#[test]
fn commit_hsl_passes_through_unchanged() {
    let mut page = Page::create();
    let changed = page.update(Msg::ReadInput(Some(String::from("hsl(217, 90%, 61%)"))));
    assert!(changed);
    assert_eq!(page.colour, "hsl(217, 90%, 61%)");
}

#[test]
fn failed_draw_keeps_previous_colour() {
    let mut page = Page::create();
    page.update(Msg::ReadInput(Some(String::from("#11859E"))));
    let before = page.colour.clone();
    let changed = page.apply_random(Err(GenerationError::EntropyUnavailable));
    assert!(!changed);
    assert_eq!(page.colour, before);
    assert_eq!(page.placeholder, "red");
}

#[test]
fn successful_draw_replaces_colour() {
    let mut page = Page::create();
    let changed = page.apply_random(Ok((240, 128, 128)));
    assert!(changed);
    assert_eq!(page.colour, "rgb(240, 128, 128)");
}

#[test]
fn unreadable_field_changes_nothing() {
    let mut page = Page::create();
    let changed = page.update(Msg::ReadInput(None));
    assert!(!changed);
    assert_eq!(page.colour, "rgb(73, 206, 235)");
}

#[test]
fn other_keystrokes_are_a_no_op() {
    let mut page = Page::create();
    let changed = page.update(Msg::DoNothing);
    assert!(!changed);
    assert_eq!(page.colour, "rgb(73, 206, 235)");
}

#[test]
fn randomize_event_produces_rgb_colour() {
    let mut page = Page::create();
    let changed = page.update(Msg::GenerateRandomColour);
    assert!(changed, "entropy source should be available on this platform");
    assert_rgb_shape(&page.colour);
}
