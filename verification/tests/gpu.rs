use sad_boy::backend::{mismatch_report, Color, FrameBuffer};
use sad_boy::emu::clock::{Clock, Cycles};
use sad_boy::emu::gpu::{Gpu, Scanline, Vram};
use sad_boy::util::FlagBits;
use sad_boy::emu::gpu::ColorIndex;
use sad_boy::emu::gpu::tile::{Tile, TileData, TileDataArea, TileIndex};

/// Test [Tile::pixel]
#[test]
fn tile_color_index() {
    let row = [
        ColorIndex::Zero,
        ColorIndex::One,
        ColorIndex::Two,
        ColorIndex::Three,
        ColorIndex::Three,
        ColorIndex::Two,
        ColorIndex::One,
        ColorIndex::Zero,
    ];
    let lines = [row; 8];
    let tile = Tile::from_pixels(lines);

    for x in 0..8u8 {
        for y in 0..8u8 {
            let expected = lines[y as usize][x as usize];
            let actual = tile.pixel(x, y);
            assert_eq!(actual, expected, "Mismatch at ({x}, {y})");
        }
    }
}

/// Test drawing a simple object to the screen
#[test]
fn objects() {
    let mut clock = Clock::new();
    let mut gpu = Gpu::new();
    let mut frame = FrameBuffer::new();

    // Create a tile of all light gray
    let mut lcdc = gpu.vram.registers.lcdc.unpack();
    lcdc.object_enable = true;
    gpu.vram.registers.lcdc = FlagBits::pack(lcdc);
    gpu.vram.tile_data.set(0, Tile::from_pixels([[ColorIndex::Two; 8]; 8]));

    // Put an object in the top-left with that tile: OAM holds y + 16, x + 8,
    // the tile index and the flags
    gpu.vram.oam[0] = 16;
    gpu.vram.oam[1] = 8;
    gpu.vram.oam[2] = 0;
    gpu.vram.oam[3] = 0;

    // Render one frame
    loop {
        // Clock has to tick first
        clock.tick();
        if gpu.tick(&clock, &mut frame) {
            break;
        }
    }

    let mut expected = FrameBuffer::from_pixels(vec![Color::black(); FrameBuffer::LENGTH]);
    expected.set_region(0, 0, 8, 8, Color::light_gray());
    if let Err(found) = frame.compare_pixels(&expected) {
        panic!("{}", mismatch_report(&found));
    }
}

/// At most 10 objects are drawn on a line: the first 10 in OAM that cross
/// it, sorted by x, ties broken by OAM position
#[test]
fn objects_per_line() {
    let mut vram = Vram::new();
    // 12 objects on line 0, x decreasing; object 5 shares x with object 4
    for i in 0..12usize {
        let x = if i == 5 { 100 - 4 * 5 + 4 } else { 100 - 4 * i as u8 };
        vram.oam[4 * i] = 16;
        vram.oam[4 * i + 1] = x;
    }
    // One more that does not cross line 0
    vram.oam[4 * 12] = 100;
    vram.oam[4 * 12 + 1] = 1;
    let objects = vram.get_objects();
    let indexes: Vec<u8> = objects.iter().map(|o| o.oam_index).collect();
    assert_eq!(indexes, vec![9, 8, 7, 6, 4, 5, 3, 2, 1, 0]);
    let xs: Vec<u8> = objects.iter().map(|o| o.attributes.x).collect();
    assert!(xs.windows(2).all(|w| w[0] <= w[1]));
}

/// The clock's cycle within a frame splits into a scanline and a dot
#[test]
fn scanline_from_clock() {
    let mut clock = Clock::new();
    for _ in 0..(456 * 3 + 17) {
        clock.tick();
    }
    let (line, dot) = Scanline::from_clock(&clock);
    assert_eq!(line.as_u8(), 3);
    assert_eq!(dot, Cycles(17));
    assert_eq!(u8::from(line), 3);
    assert_eq!(Scanline::from(7u8).as_u8(), 7);
}

/// The next frame end is the next multiple of a frame's cycles
#[test]
fn next_frame_end() {
    assert_eq!(Clock::next_frame_end(Cycles(0)), Cycles(70224));
    assert_eq!(Clock::next_frame_end(Cycles(70223)), Cycles(70224));
    assert_eq!(Clock::next_frame_end(Cycles(70224)), Cycles(2 * 70224));
}

#[test]
fn tile_line_bit_order() {
    // First byte of the line holds the lesser bit, bit 7 is the left-most pixel
    let mut data = TileData::new();
    data.as_slice_mut()[2 * 3] = 0b1000_0000;
    data.as_slice_mut()[2 * 3 + 1] = 0b0000_0000;
    data.as_slice_mut()[2 * 4] = 0b0000_0000;
    data.as_slice_mut()[2 * 4 + 1] = 0b0000_0001;
    let tile = data.get(TileIndex(0), TileDataArea::Low);
    assert_eq!(tile.pixel(0, 3), ColorIndex::One);
    assert_eq!(tile.pixel(7, 3), ColorIndex::Zero);
    assert_eq!(tile.pixel(7, 4), ColorIndex::Two);
    assert_eq!(tile.pixel(0, 4), ColorIndex::Zero);
}

#[test]
fn tile_data_area_high_is_signed() {
    let mut data = TileData::new();
    // Mark each tile by its first byte
    for t in 0..384usize {
        data.as_slice_mut()[16 * t] = (t % 251) as u8;
    }
    for i in 0..=255u8 {
        let low = data.get(TileIndex(i), TileDataArea::Low);
        let high = data.get(TileIndex(i), TileDataArea::High);
        let expected_high = if i < 128 { 256 + i as usize } else { i as usize };
        assert_eq!(low.lines[0].low, (i as usize % 251) as u8);
        assert_eq!(high.lines[0].low, (expected_high % 251) as u8);
    }
}
