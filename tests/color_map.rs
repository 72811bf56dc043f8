use mapmaker::color_list::RgbColorMap;
use mapmaker::colors::Rgb;

fn rgb(r: u8, g: u8, b: u8) -> Rgb {
    Rgb { r, g, b }
}

fn small_map() -> RgbColorMap {
    RgbColorMap { colors: vec![rgb(10, 10, 10), rgb(200, 0, 0), rgb(0, 200, 0), rgb(200, 0, 0)] }
}

#[test]
fn black_maps_to_119() {
    assert_eq!(small_map().map_indices(&rgb(0, 0, 0)), (119, [0, 0, 0]));
}

#[test]
fn nearest_position_plus_four() {
    assert_eq!(small_map().map_indices(&rgb(12, 9, 10)), (4, [2, -1, 0]));
    assert_eq!(small_map().map_indices(&rgb(5, 190, 3)), (6, [5, -10, 3]));
}

#[test]
fn first_of_equal_entries_wins() {
    assert_eq!(small_map().map_indices(&rgb(190, 5, 5)), (5, [-10, 5, 5]));
}

#[test]
fn error_wraps_to_a_signed_byte() {
    let map = RgbColorMap { colors: vec![rgb(0, 0, 0)] };
    // 200 - 0 = 200 does not fit in an i8 and wraps to -56
    assert_eq!(map.map_indices(&rgb(200, 0, 1)), (4, [-56, 0, 1]));
}
