use basics::{Button, Image, Screen, Shape};

#[test]
fn empty_screen_run() {
    let screen = Screen::new();
    let lines = screen.run();
    assert_eq!(lines.len(), 0);
}

#[test]
fn button_then_image_scenario() {
    let mut screen = Screen::new();
    screen.add(Shape::Button(Button {
        width: 10,
        height: 25,
        label: "OK".to_string(),
    }));
    screen.add(Shape::Image(Image {
        width: 10,
        height: 25,
        pixel: "X".to_string(),
    }));
    let lines = screen.run();
    assert_eq!(lines.len(), 2);
    assert_eq!(lines[0], "label is OK");
    assert_eq!(lines[1], "pixel is X");
}

#[test]
fn run_draws_each_component_once_in_order() {
    let mut screen = Screen::new();
    screen.add(Shape::Button(Button {
        width: 10,
        height: 25,
        label: "120".to_string(),
    }));
    screen.add(Shape::Image(Image {
        width: 10,
        height: 25,
        pixel: "00000010".to_string(),
    }));
    screen.add(Shape::Button(Button {
        width: 3,
        height: 4,
        label: "Cancel".to_string(),
    }));
    let lines = screen.run();
    assert_eq!(lines.len(), 3);
    assert_eq!(lines[0], "label is 120");
    assert_eq!(lines[1], "pixel is 00000010");
    assert_eq!(lines[2], "label is Cancel");
}

#[test]
fn draw_button_emits_label_line() {
    let shape = Shape::Button(Button {
        width: 1,
        height: 1,
        label: "press me".to_string(),
    });
    assert_eq!(shape.draw(), "label is press me");
}

#[test]
fn draw_image_emits_pixel_line() {
    let shape = Shape::Image(Image {
        width: 1,
        height: 1,
        pixel: "raster".to_string(),
    });
    assert_eq!(shape.draw(), "pixel is raster");
}
