use flow::fluid::{grid_cells, Color, GRID_LEN};
use flow::world::{draw_background, draw_frame, set_pixel, PX_HEIGHT, PX_WIDTH};

#[test]
fn set_pixel_writes_four_bytes() {
    let mut frame = vec![0u8; PX_WIDTH * PX_HEIGHT * 4];
    set_pixel(&mut frame, 3, 2, Color { r: 1, g: 2, b: 3, a: 4 });
    let i = (3 + 2 * PX_WIDTH) * 4;
    assert_eq!(&frame[i..i + 4], &[1, 2, 3, 4]);
    assert_eq!(frame.iter().filter(|b| **b != 0).count(), 4);
}

#[test]
fn background_corners() {
    let mut frame = vec![0u8; PX_WIDTH * PX_HEIGHT * 4];
    draw_background(&mut frame);
    assert_eq!(&frame[0..4], &[50, 15, 25, 255]);
    let last = (PX_WIDTH * PX_HEIGHT - 1) * 4;
    assert_eq!(&frame[last..last + 4], &[144, 78, 88, 255]);
    // Row 10, column 40: j = 10, i = 40.
    let k = (40 + 10 * PX_WIDTH) * 4;
    assert_eq!(&frame[k..k + 4], &[56, 19, 37, 255]);
}

#[test]
fn background_keeps_trailing_bytes() {
    let mut frame = vec![7u8; 10];
    draw_background(&mut frame);
    assert_eq!(frame, vec![50, 15, 25, 255, 50, 15, 25, 255, 7, 7]);
}

#[test]
fn first_frame_draws_background_then_points() {
    let mut frame = vec![0u8; PX_WIDTH * PX_HEIGHT * 4];
    let white = Color::white();
    draw_frame(&mut frame, true, &vec![(0, 0), (99, 149)], white);
    assert_eq!(&frame[0..4], &[255, 255, 255, 255]);
    assert_eq!(&frame[4..8], &[50, 15, 25, 255]);
    let last = (PX_WIDTH * PX_HEIGHT - 1) * 4;
    assert_eq!(&frame[last..last + 4], &[255, 255, 255, 255]);
}

#[test]
fn later_frames_keep_what_was_drawn() {
    let mut frame = vec![9u8; PX_WIDTH * PX_HEIGHT * 4];
    draw_frame(&mut frame, false, &vec![(5, 5)], Color::white());
    let i = (5 + 5 * PX_WIDTH) * 4;
    assert_eq!(&frame[i..i + 4], &[255, 255, 255, 255]);
    assert_eq!(frame.iter().filter(|b| **b == 9).count(), frame.len() - 4);
}

#[test]
fn white_is_opaque_white() {
    assert_eq!(Color::white(), Color { r: 255, g: 255, b: 255, a: 255 });
}

#[test]
fn grid_cells_order() {
    let cells = grid_cells();
    assert_eq!(cells.len(), GRID_LEN);
    assert_eq!(cells[0], (1, 1));
    assert_eq!(cells[17], (1, 18));
    assert_eq!(cells[18], (2, 1));
    assert_eq!(cells[GRID_LEN - 1], (18, 18));
}

#[test]
fn grid_positions_lie_inside_canvas() {
    for (x, y) in grid_cells() {
        let px = 0.5 + 5.0 * x as f64;
        let py = PX_HEIGHT as f64 - (0.5 + 5.0 * y as f64);
        assert!(px >= 0.0 && px <= PX_WIDTH as f64);
        assert!(py >= 0.0 && py <= PX_HEIGHT as f64);
    }
}
