use mapmaker::colors::{
    check_palette, color_list, minecraft_color_tree, MinecraftColorTree, MinecraftRgb, PaletteError, Rgb, RgbDifference, BLACK_INDEX,
    COLOR_COUNT,
};

fn rgb(r: u8, g: u8, b: u8) -> Rgb {
    Rgb { r, g, b }
}

fn entry(r: u8, g: u8, b: u8, index: u8) -> MinecraftRgb {
    MinecraftRgb { rgb: rgb(r, g, b), index }
}

const ZERO: RgbDifference = RgbDifference { r: 0, g: 0, b: 0 };

fn standard_tree() -> MinecraftColorTree {
    MinecraftColorTree::new(color_list()).expect("the standard palette is usable")
}

#[test]
fn standard_palette_has_contiguous_indices() {
    let list = color_list();
    assert_eq!(list.len(), COLOR_COUNT);
    for (i, e) in list.iter().enumerate() {
        assert_eq!(e.index as usize, 4 + i);
    }
    assert_eq!(list[115], entry(13, 13, 13, 119));
}

#[test]
fn standard_palette_passes_the_check() {
    assert_eq!(check_palette(&color_list()), Ok(()));
}

#[test]
fn every_entry_quantizes_to_itself() {
    let tree = standard_tree();
    for e in color_list() {
        assert_eq!(tree.find_closest(&e.rgb), (e.index, ZERO));
    }
}

#[test]
fn black_takes_the_fast_path() {
    let tree = standard_tree();
    assert_eq!(tree.find_closest(&rgb(0, 0, 0)), (BLACK_INDEX, ZERO));
}

#[test]
fn full_search_on_black_agrees_with_fast_path() {
    let tree = standard_tree();
    let nearest = tree.nearest_entry(&rgb(0, 0, 0));
    assert_eq!(nearest, entry(13, 13, 13, BLACK_INDEX));
    assert_eq!(nearest.index, tree.find_closest(&rgb(0, 0, 0)).0);
}

#[test]
fn near_color_gets_nearest_entry_and_difference() {
    let tree = standard_tree();
    assert_eq!(tree.find_closest(&rgb(90, 126, 40)), (4, RgbDifference { r: 1, g: 1, b: 1 }));
    assert_eq!(tree.find_closest(&rgb(250, 0, 0)), (18, RgbDifference { r: -5, g: 0, b: 0 }));
    assert_eq!(tree.find_closest(&rgb(255, 255, 254)), (34, RgbDifference { r: 0, g: 0, b: -1 }));
}

#[test]
fn nearest_matches_a_linear_search() {
    let tree = standard_tree();
    let list = color_list();
    let dist = |a: Rgb, b: Rgb| {
        let d = |x: u8, y: u8| (x as i32 - y as i32) * (x as i32 - y as i32);
        d(a.r, b.r) + d(a.g, b.g) + d(a.b, b.b)
    };
    for r in (1..=255).step_by(37) {
        for g in (0..=255).step_by(51) {
            for b in (0..=255).step_by(29) {
                let c = rgb(r, g, b);
                let best = list.iter().map(|e| dist(c, e.rgb)).min().unwrap();
                let (index, d) = tree.find_closest(&c);
                let chosen = list.iter().find(|e| e.index == index).unwrap();
                assert_eq!(dist(c, chosen.rgb), best);
                assert_eq!(d.r, c.r as i16 - chosen.rgb.r as i16);
                assert_eq!(d.g, c.g as i16 - chosen.rgb.g as i16);
                assert_eq!(d.b, c.b as i16 - chosen.rgb.b as i16);
            }
        }
    }
}

#[test]
fn empty_palette_is_refused() {
    assert!(matches!(MinecraftColorTree::new(vec![]), Err(PaletteError::Empty)));
}

#[test]
fn index_out_of_range_is_refused() {
    let p = vec![entry(13, 13, 13, BLACK_INDEX), entry(100, 0, 0, 3)];
    assert!(matches!(MinecraftColorTree::new(p), Err(PaletteError::IndexOutOfRange)));
    let p = vec![entry(13, 13, 13, BLACK_INDEX), entry(100, 0, 0, 248)];
    assert_eq!(check_palette(&p), Err(PaletteError::IndexOutOfRange));
}

#[test]
fn duplicate_color_is_refused() {
    let p = vec![entry(13, 13, 13, BLACK_INDEX), entry(100, 0, 0, 5), entry(100, 0, 0, 6)];
    assert!(matches!(MinecraftColorTree::new(p), Err(PaletteError::DuplicateColor)));
}

#[test]
fn black_not_nearest_is_refused() {
    let p = vec![entry(13, 13, 13, BLACK_INDEX), entry(5, 5, 5, 5)];
    assert!(matches!(MinecraftColorTree::new(p), Err(PaletteError::BlackNotNearest)));
    let tie = vec![entry(13, 0, 0, BLACK_INDEX), entry(0, 13, 0, 5)];
    assert_eq!(check_palette(&tie), Err(PaletteError::BlackNotNearest));
}

#[test]
fn small_palette_is_accepted() {
    let p = vec![entry(10, 10, 10, BLACK_INDEX), entry(200, 200, 200, 5)];
    let tree = MinecraftColorTree::new(p).expect("usable");
    assert_eq!(tree.find_closest(&rgb(150, 150, 150)), (5, RgbDifference { r: -50, g: -50, b: -50 }));
    assert_eq!(tree.find_closest(&rgb(0, 0, 1)), (BLACK_INDEX, RgbDifference { r: -10, g: -10, b: -9 }));
}

#[test]
fn standard_tree_holds_the_standard_palette() {
    let tree = minecraft_color_tree();
    assert_eq!(tree.palette(), &color_list());
    assert_eq!(tree.palette()[115], entry(13, 13, 13, BLACK_INDEX));
}

#[test]
fn near_black_goes_to_the_black_entry() {
    let tree = minecraft_color_tree();
    assert_eq!(tree.find_closest(&rgb(1, 1, 1)), (BLACK_INDEX, RgbDifference { r: -12, g: -12, b: -12 }));
}
