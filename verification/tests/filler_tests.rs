use zipbench::filler::filler_pixels;
use zipbench::filler::unrelated_operation;

#[test]
fn filler_buffer_has_one_red_pixel() {
    let pixels = filler_pixels();
    assert_eq!(pixels.len(), 1_000_000);
    assert_eq!(pixels[500_000], (255, 0, 0));
    assert_eq!(pixels[0], (0, 0, 0));
    assert_eq!(pixels[499_999], (0, 0, 0));
    assert_eq!(pixels[999_999], (0, 0, 0));
}

#[test]
fn filler_task_runs() {
    unrelated_operation();
}
