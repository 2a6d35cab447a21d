use esp_remotecontrolled_led_matrix_client::client::Client;
use esp_remotecontrolled_led_matrix_client::error::ClientError;
use esp_remotecontrolled_led_matrix_client::geometry::{Area, Point, Rgb, Size};
use esp_remotecontrolled_led_matrix_client::transport::BufferTransport;

fn connected(width: u8, height: u8) -> Client<BufferTransport> {
    let transport = BufferTransport::new(vec![1, width, height]);
    Client::connect(transport).unwrap()
}

fn rgb(red: u8, green: u8, blue: u8) -> Rgb {
    Rgb { red, green, blue }
}

#[test]
fn surface_reports_matrix_size() {
    let client = connected(8, 6);
    assert_eq!(client.size(), Size { width: 8, height: 6 });
    let bounds = client.bounding_box();
    assert_eq!(bounds.top_left, Point { x: 0, y: 0 });
    assert_eq!(bounds.size, Size { width: 8, height: 6 });
}

#[test]
fn area_contains_its_points_only() {
    let area = Area::new(-2, 1, 3, 2);
    assert!(area.contains(Point { x: -2, y: 1 }));
    assert!(area.contains(Point { x: 0, y: 2 }));
    assert!(!area.contains(Point { x: 1, y: 1 }));
    assert!(!area.contains(Point { x: -3, y: 1 }));
    assert!(!area.contains(Point { x: 0, y: 3 }));
    assert!(!Area::new(0, 0, 0, 5).contains(Point { x: 0, y: 0 }));
}

#[test]
fn intersection_clips_to_overlap() {
    let a = Area::new(-2, -2, 4, 4);
    let b = Area::new(0, 0, 8, 8);
    let r = a.intersection(&b);
    assert_eq!(r, Area::new(0, 0, 2, 2));
    let far = Area::new(100, 100, 4, 4);
    assert!(far.intersection(&b).is_zero_sized());
}

#[test]
fn draw_points_clips_outside_points() {
    let mut client = connected(8, 8);
    let pixels = vec![
        (Point { x: -1, y: 0 }, rgb(9, 9, 9)),
        (Point { x: 3, y: 4 }, rgb(255, 0, 0)),
        (Point { x: 8, y: 0 }, rgb(9, 9, 9)),
        (Point { x: 0, y: 7 }, rgb(0, 255, 0)),
        (Point { x: 0, y: 8 }, rgb(9, 9, 9)),
    ];
    client.draw_points(&pixels).unwrap();
    assert_eq!(
        client.transport.written_bytes(),
        vec![2, 3, 4, 255, 0, 0, 2, 0, 7, 0, 255, 0]
    );
}

#[test]
fn draw_points_with_nothing_inside_writes_nothing() {
    let mut client = connected(4, 4);
    let pixels = vec![
        (Point { x: -1, y: -1 }, rgb(1, 1, 1)),
        (Point { x: 4, y: 4 }, rgb(1, 1, 1)),
    ];
    client.draw_points(&pixels).unwrap();
    assert_eq!(client.transport.written_bytes(), Vec::<u8>::new());
}

#[test]
fn fill_solid_area_outside_is_a_no_op() {
    let mut client = connected(8, 8);
    assert!(client.fill_solid_area(&Area::new(8, 0, 4, 4), rgb(1, 2, 3)).is_ok());
    assert!(client.fill_solid_area(&Area::new(-5, -5, 5, 5), rgb(1, 2, 3)).is_ok());
    assert_eq!(client.transport.written_bytes(), Vec::<u8>::new());
}

#[test]
fn fill_solid_area_clips_to_one_rectangle() {
    let mut client = connected(8, 8);
    client.fill_solid_area(&Area::new(6, -1, 4, 3), rgb(7, 8, 9)).unwrap();
    // The overlap is x in [6, 8), y in [0, 2).
    assert_eq!(client.transport.written_bytes(), vec![3, 6, 0, 2, 2, 7, 8, 9]);
}

#[test]
fn fill_rectangular_area_keeps_only_overlapping_colors() {
    let mut client = connected(8, 8);
    let colors: Vec<Rgb> = (0..9).map(|i| rgb(i * 10, i * 10 + 1, i * 10 + 2)).collect();
    // Of the 3 by 3 area at (-1, -1), only its bottom-right 2 by 2 part
    // lies on the matrix: ranks 4, 5, 7 and 8 in row-major order.
    client.fill_rectangular_area(&Area::new(-1, -1, 3, 3), &colors).unwrap();
    assert_eq!(
        client.transport.written_bytes(),
        vec![
            4, 0, 0, 2, 2, //
            40, 41, 42, 50, 51, 52, 70, 71, 72, 80, 81, 82,
        ]
    );
}

#[test]
fn fill_rectangular_area_outside_is_a_no_op() {
    let mut client = connected(8, 8);
    let colors = vec![rgb(1, 1, 1); 16];
    assert!(client.fill_rectangular_area(&Area::new(20, 20, 4, 4), &colors).is_ok());
    assert_eq!(client.transport.written_bytes(), Vec::<u8>::new());
}

#[test]
fn fill_rectangular_area_with_too_few_colors_fails() {
    let mut client = connected(8, 8);
    // Only five colors pair with the nine points, so the clipped payload
    // cannot cover the overlap.
    let colors = vec![rgb(1, 1, 1); 5];
    assert_eq!(
        client.fill_rectangular_area(&Area::new(-1, -1, 3, 3), &colors),
        Err(ClientError::WrongColorLength)
    );
    assert_eq!(client.transport.written_bytes(), Vec::<u8>::new());
}

#[test]
fn fill_rectangular_area_fully_inside_sends_all_colors() {
    let mut client = connected(8, 8);
    let colors: Vec<Rgb> = (0..4).map(|i| rgb(i, i, i)).collect();
    client.fill_rectangular_area(&Area::new(1, 1, 2, 2), &colors).unwrap();
    assert_eq!(
        client.transport.written_bytes(),
        vec![4, 1, 1, 2, 2, 0, 0, 0, 1, 1, 1, 2, 2, 2, 3, 3, 3]
    );
}

#[test]
fn clear_fills_the_whole_matrix() {
    let mut client = connected(8, 8);
    client.clear(rgb(0, 0, 255)).unwrap();
    client.flush().unwrap();
    assert_eq!(client.transport.wire_bytes(), &vec![1, 0, 0, 255]);
}
