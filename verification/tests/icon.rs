use harvux::icon::generate_clock_icon;

fn pixel(data: &[u8], size: i32, x: i32, y: i32) -> [u8; 4] {
    let i = ((y * size + x) * 4) as usize;
    [data[i], data[i + 1], data[i + 2], data[i + 3]]
}

const BLUE: [u8; 4] = [0xFF, 0x35, 0x84, 0xE4];
const DARK: [u8; 4] = [0xFF, 0x1C, 0x71, 0xD8];
const WHITE: [u8; 4] = [0xFF, 0xFF, 0xFF, 0xFF];
const CLEAR: [u8; 4] = [0, 0, 0, 0];

#[test]
fn tray_icon_of_24_pixels() {
    let icon = generate_clock_icon(24);
    assert_eq!((icon.width, icon.height), (24, 24));
    assert_eq!(icon.data.len(), 24 * 24 * 4);
    // Corners lie outside the circle.
    assert_eq!(pixel(&icon.data, 24, 0, 0), CLEAR);
    assert_eq!(pixel(&icon.data, 24, 23, 23), CLEAR);
    // The ring, then the face.
    assert_eq!(pixel(&icon.data, 24, 0, 12), CLEAR);
    assert_eq!(pixel(&icon.data, 24, 1, 12), BLUE);
    assert_eq!(pixel(&icon.data, 24, 2, 12), BLUE);
    assert_eq!(pixel(&icon.data, 24, 3, 12), WHITE);
    // Centre, hour hand and minute hand.
    assert_eq!(pixel(&icon.data, 24, 12, 12), DARK);
    for i in 2..=6 {
        assert_eq!(pixel(&icon.data, 24, 12, 12 - i), DARK);
    }
    assert_eq!(pixel(&icon.data, 24, 12, 12 - 7), WHITE);
    for i in 2..=7 {
        assert_eq!(pixel(&icon.data, 24, 12 + i * 3 / 4, 12 - i / 2), DARK);
    }
    assert_eq!(pixel(&icon.data, 24, 12, 13), WHITE);
}

#[test]
fn icon_matches_the_circle_drawn_with_floats() {
    let size = 24;
    let icon = generate_clock_icon(size);
    let s = size as f64;
    let center = s / 2.0;
    let outer_r = center - 0.5;
    let border_r = outer_r - 2.0;
    for y in 0..size {
        for x in 0..size {
            let dx = x as f64 - center + 0.5;
            let dy = y as f64 - center + 0.5;
            let dist = (dx * dx + dy * dy).sqrt();
            let expected = if dist > outer_r {
                CLEAR
            } else if dist > border_r {
                BLUE
            } else {
                WHITE
            };
            let got = pixel(&icon.data, size, x, y);
            assert!(got == expected || got == DARK, "pixel ({x}, {y})");
        }
    }
}

#[test]
fn tiny_and_negative_icons() {
    assert!(generate_clock_icon(0).data.is_empty());
    let one = generate_clock_icon(1);
    assert_eq!(one.data, DARK.to_vec());
    let neg = generate_clock_icon(-2);
    assert_eq!(neg.data, vec![0u8; 16]);
}
