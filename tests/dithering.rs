use mapmaker::colors::{color_list, MinecraftColorTree, MinecraftRgb, Rgb, RgbDifference, BLACK_INDEX};
use mapmaker::dither::{diffuse_error, quantize_canvas, WEIGHT_DENOMINATOR};

fn grey(v: u8) -> Rgb {
    Rgb { r: v, g: v, b: v }
}

fn two_greys() -> MinecraftColorTree {
    MinecraftColorTree::new(vec![
        MinecraftRgb { rgb: grey(10), index: BLACK_INDEX },
        MinecraftRgb { rgb: grey(200), index: 5 },
    ])
    .expect("usable")
}

fn error_of(v: i16) -> RgbDifference {
    RgbDifference { r: v, g: v, b: v }
}

#[test]
fn weights_make_one_whole() {
    // a pixel in the middle passes its whole error on: 7 + 3 + 5 + 1 of 16
    let mut px = vec![grey(10); 6];
    diffuse_error(&mut px, 3, 2, 1, 0, error_of(16));
    assert_eq!(px, vec![grey(10), grey(10), grey(17), grey(13), grey(15), grey(11)]);
    let passed: i32 = px.iter().map(|p| p.r as i32 - 10).sum();
    assert_eq!(passed, WEIGHT_DENOMINATOR);
}

#[test]
fn channel_formula_values() {
    // n = 16 * 100 + 7 * 16 = 1712, 1712 / 16 = 107
    let mut px = vec![grey(100); 2];
    diffuse_error(&mut px, 2, 1, 0, 0, error_of(16));
    assert_eq!(px[1], grey(107));
    // clamped at zero
    let mut px = vec![grey(100); 2];
    diffuse_error(&mut px, 2, 1, 0, 0, error_of(-255));
    assert_eq!(px[1], grey(0));
    // clamped at 255
    let mut px = vec![grey(250); 2];
    diffuse_error(&mut px, 2, 1, 0, 0, error_of(255));
    assert_eq!(px[1], grey(255));
    // one sixteenth of 16 on a black pixel
    let mut px = vec![grey(0); 4];
    diffuse_error(&mut px, 2, 2, 0, 0, error_of(16));
    assert_eq!(px, vec![grey(0), grey(7), grey(5), grey(1)]);
}

#[test]
fn zero_error_is_not_spread() {
    let mut px = vec![grey(3), grey(77), grey(255), grey(0)];
    let before = px.clone();
    diffuse_error(&mut px, 2, 2, 0, 0, error_of(0));
    assert_eq!(px, before);
}

#[test]
fn last_column_does_not_wrap() {
    let mut px = vec![grey(10); 6];
    diffuse_error(&mut px, 3, 2, 2, 0, error_of(16));
    // (x + 1, y) and (x + 1, y + 1) are off the canvas; (0, 1) is untouched
    assert_eq!(px, vec![grey(10), grey(10), grey(10), grey(10), grey(13), grey(15)]);
}

#[test]
fn last_row_writes_only_to_the_right() {
    let mut px = vec![grey(10); 6];
    diffuse_error(&mut px, 3, 2, 1, 1, error_of(16));
    assert_eq!(px, vec![grey(10), grey(10), grey(10), grey(10), grey(10), grey(17)]);
    let mut px = vec![grey(10); 6];
    diffuse_error(&mut px, 3, 2, 2, 1, error_of(16));
    assert_eq!(px, vec![grey(10); 6]);
}

#[test]
fn scan_spreads_error_in_raster_order() {
    let tree = two_greys();
    let mut px = vec![grey(10); 6];
    px[1] = grey(26);
    let out = quantize_canvas(&tree, &mut px, 3, 2);
    assert_eq!(out, vec![BLACK_INDEX; 6]);
    assert_eq!(px, vec![grey(10), grey(26), grey(17), grey(13), grey(17), grey(16)]);
}

#[test]
fn exact_palette_colors_spread_nothing() {
    let tree = MinecraftColorTree::new(color_list()).expect("usable");
    let list = color_list();
    let mut px: Vec<Rgb> = Vec::new();
    let mut expected: Vec<u8> = Vec::new();
    for k in 0..64usize {
        if k % 5 == 0 {
            px.push(grey(0));
            expected.push(BLACK_INDEX);
        } else {
            let e = list[(k * 37) % list.len()];
            px.push(e.rgb);
            expected.push(e.index);
        }
    }
    let before = px.clone();
    let out = quantize_canvas(&tree, &mut px, 8, 8);
    assert_eq!(out, expected);
    assert_eq!(px, before);
    for (k, p) in before.iter().enumerate() {
        assert_eq!(tree.find_closest(p).0, out[k]);
        assert_eq!(tree.find_closest(p).1, error_of(0));
    }
}
