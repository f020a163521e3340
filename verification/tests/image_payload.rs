use gpu_shell::image::Image1024;
use gpu_shell::image::Pixel;
use gpu_shell::image::IMAGE_SIZE;

#[test]
fn image_is_a_full_square_of_the_fill() {
    let fill = Pixel { r: 1, g: 2, b: 3, a: 4 };
    let img = Image1024::new(fill);
    assert_eq!(img.size(), IMAGE_SIZE);
    assert_eq!(img.pixel(0, 0), fill);
    assert_eq!(img.pixel(2, 3), fill);
    assert_eq!(img.pixel(IMAGE_SIZE - 1, IMAGE_SIZE - 1), fill);
}
