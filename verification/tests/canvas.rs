use raytracer::color::Canvas;
use raytracer::object::ObjectType;

#[derive(Debug, PartialEq, Copy, Clone)]
struct Color {
    red: f64,
    green: f64,
    blue: f64,
}

const BLACK: Color = Color { red: 0.0, green: 0.0, blue: 0.0 };

#[test]
fn test_canvas_new() {
    let c: Canvas<Color> = Canvas::new(2, 2, BLACK);
    assert_eq!(c.pixel_at(0, 0), Some(&BLACK));
    assert_eq!(c.pixel_at(1, 0), Some(&BLACK));
    assert_eq!(c.pixel_at(0, 1), Some(&BLACK));
    assert_eq!(c.pixel_at(1, 1), Some(&BLACK));
    assert_eq!(c.pixel_at(2, 1), None);
}

#[test]
fn test_canvas_write_pixel() {
    let mut c: Canvas<Color> = Canvas::new(2, 2, BLACK);
    let red = Color { red: 1.0, green: 0.0, blue: 0.0 };

    assert_eq!(c.pixel_at(0, 0), Some(&BLACK));
    assert_eq!(c.pixel_at(1, 0), Some(&BLACK));
    assert_eq!(c.pixel_at(0, 1), Some(&BLACK));
    assert_eq!(c.pixel_at(1, 1), Some(&BLACK));
    c.write_pixel(1, 1, &red);

    assert_eq!(c.pixel_at(0, 0), Some(&BLACK));
    assert_eq!(c.pixel_at(1, 0), Some(&BLACK));
    assert_eq!(c.pixel_at(0, 1), Some(&BLACK));
    assert_eq!(c.pixel_at(1, 1), Some(&red));
}

#[test]
fn canvas_rejects_out_of_range_coordinates() {
    let mut c: Canvas<i32> = Canvas::new(3, 2, 0);
    assert_eq!(c.pixel_at(3, 0), None);
    assert_eq!(c.pixel_at(0, 2), None);
    assert_eq!(c.pixel_at(-1, 0), None);
    assert_eq!(c.pixel_at(0, -1), None);
    assert_eq!(c.write_pixel(3, 0, &7), None);
    assert_eq!(c.write_pixel(-1, 1, &7), None);
    // the failed writes left every pixel untouched
    for y in 0..2 {
        for x in 0..3 {
            assert_eq!(c.pixel_at(x, y), Some(&0));
        }
    }
}

#[test]
fn canvas_dimensions() {
    let c: Canvas<i32> = Canvas::new(5, 3, 0);
    assert_eq!(c.width(), 5);
    assert_eq!(c.height(), 3);
}

#[test]
fn canvas_zero_sized() {
    let c: Canvas<i32> = Canvas::new(0, 4, 0);
    assert_eq!(c.pixel_at(0, 0), None);
}

#[test]
fn object_type_is_copied_by_value() {
    let a = ObjectType::Sphere;
    let b = a;
    let sphere_first = matches!(a, ObjectType::Sphere);
    let sphere_second = matches!(b, ObjectType::Sphere);
    let plane = matches!(ObjectType::Plane, ObjectType::Plane);
    assert!(sphere_first && sphere_second && plane);
}
