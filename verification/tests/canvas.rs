use crane_game::canvas::PixelCanvas;

#[test]
fn canvas_starts_light_and_draws_row_major() {
    let mut canvas = PixelCanvas::new(3, 2);
    assert_eq!((canvas.width(), canvas.height()), (3, 2));
    assert!((0..6).all(|i| !canvas.is_dark(i)));
    canvas.draw_dark_pixel(2, 1);
    canvas.draw_dark_pixel(0, 1);
    canvas.draw_dark_pixel(0, 1);
    let dark: Vec<bool> = (0..6).map(|i| canvas.is_dark(i)).collect();
    assert_eq!(dark, vec![false, false, false, true, false, true]);
}

#[test]
fn every_pixel_inside_the_canvas_can_be_drawn() {
    let mut canvas = PixelCanvas::new(4, 3);
    for y in 0..3 {
        for x in 0..4 {
            canvas.draw_dark_pixel(x, y);
        }
    }
    assert!((0..12).all(|i| canvas.is_dark(i)));
}
