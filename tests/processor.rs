use mapmaker::colors::{color_list, MinecraftColorTree, Rgb, BLACK_INDEX};
use mapmaker::processor::{ProcessError, Processor, RgbBuffer};

const RED: Rgb = Rgb { r: 255, g: 0, b: 0 };
const BLACK: Rgb = Rgb { r: 0, g: 0, b: 0 };

fn filled(width: u32, height: u32, c: Rgb) -> RgbBuffer {
    RgbBuffer::from_pixels(width, height, vec![c; (width * height) as usize]).expect("sizes agree")
}

#[test]
fn frame_of_130_by_65() {
    let p = Processor::new(130, 65);
    assert_eq!(p.map_columns(), 2);
    assert_eq!(p.map_rows(), 1);
    assert_eq!(p.map_width(), 256);
    assert_eq!(p.map_height(), 128);
    let mut pixels = vec![Rgb { r: 1, g: 2, b: 3 }; 130 * 65];
    pixels[0] = RED;
    let frame = RgbBuffer::from_pixels(130, 65, pixels).unwrap();
    let canvas = p.process_file(&frame).expect("same size");
    assert_eq!((canvas.width, canvas.height), (256, 128));
    assert_eq!(canvas.get_pixel(63, 31), RED);
    assert_eq!(canvas.get_pixel(64, 31), Rgb { r: 1, g: 2, b: 3 });
    assert_eq!(canvas.get_pixel(62, 31), BLACK);
    assert_eq!(canvas.get_pixel(63, 30), BLACK);
    assert_eq!(canvas.get_pixel(63 + 129, 31 + 64), Rgb { r: 1, g: 2, b: 3 });
    assert_eq!(canvas.get_pixel(63 + 130, 31 + 64), BLACK);
    assert_eq!(canvas.get_pixel(63 + 129, 31 + 65), BLACK);
}

#[test]
fn exact_multiples_need_no_padding() {
    let p = Processor::new(256, 128);
    assert_eq!((p.map_columns(), p.map_rows()), (2, 1));
    let canvas = p.process_file(&filled(256, 128, RED)).unwrap();
    assert!(canvas.pixels.iter().all(|c| *c == RED));
}

#[test]
fn one_pixel_frame() {
    let p = Processor::new(1, 1);
    assert_eq!((p.map_columns(), p.map_rows(), p.map_width(), p.map_height()), (1, 1, 128, 128));
    let canvas = p.process_file(&filled(1, 1, RED)).unwrap();
    assert_eq!(canvas.get_pixel(63, 63), RED);
    assert_eq!(canvas.pixels.iter().filter(|c| **c == RED).count(), 1);
}

#[test]
fn mismatched_frame_is_refused() {
    let p = Processor::new(130, 65);
    assert_eq!(p.process_file(&filled(130, 64, RED)).err(), Some(ProcessError::DimensionMismatch));
    assert_eq!(p.process_file(&filled(129, 65, RED)).err(), Some(ProcessError::DimensionMismatch));
}

#[test]
fn buffer_size_must_match() {
    assert!(RgbBuffer::from_pixels(2, 2, vec![RED; 3]).is_none());
    assert!(RgbBuffer::from_pixels(2, 2, vec![RED; 4]).is_some());
}

#[test]
fn frame_to_chunks() {
    let tree = MinecraftColorTree::new(color_list()).unwrap();
    let p = Processor::new(130, 65);
    let canvas = p.process_file(&filled(130, 65, RED)).unwrap();
    let chunks = p.convert_colors(&tree, canvas);
    assert_eq!(chunks.len(), 2);
    assert!(chunks.iter().all(|c| c.len() == 16384));
    // padding is black, the red source is exact palette color 18
    assert_eq!(chunks[0][0], BLACK_INDEX);
    assert_eq!(chunks[0][31 * 128 + 63], 18);
    assert_eq!(chunks[1][31 * 128], 18);
    assert_eq!(chunks[1][95 * 128 + 64], 18);
    assert_eq!(chunks[1][95 * 128 + 65], BLACK_INDEX);
    assert_eq!(chunks[1][127 * 128 + 127], BLACK_INDEX);
}

#[test]
fn emitted_indices_in_range() {
    let tree = MinecraftColorTree::new(color_list()).unwrap();
    let p = Processor::new(200, 150);
    let pixels: Vec<Rgb> = (0..200u32 * 150)
        .map(|i| {
            let (x, y) = (i % 200, i / 200);
            Rgb { r: (x * 255 / 199) as u8, g: (y * 255 / 149) as u8, b: ((x + y) % 256) as u8 }
        })
        .collect();
    let frame = RgbBuffer::from_pixels(200, 150, pixels).unwrap();
    let chunks = p.convert_colors(&tree, p.process_file(&frame).unwrap());
    assert_eq!(chunks.len(), 4);
    assert!(chunks.iter().all(|c| c.len() == 16384));
    assert!(chunks.iter().flatten().all(|&i| (4..=247).contains(&i)));
}
