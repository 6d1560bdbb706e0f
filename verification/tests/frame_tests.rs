use julia_frame::color::pixel;
use julia_frame::frame::choose_max_iter;
use julia_frame::frame::Frame;
use julia_frame::AREA;
use julia_frame::HALF_AREA;
use julia_frame::HEIGHT;
use julia_frame::WIDTH;

fn sample_counts() -> Vec<u8> {
    let mut counts: Vec<u8> = Vec::new();
    for i in 0..HALF_AREA {
        counts.push((i % 251) as u8);
    }
    counts
}

#[test]
fn constants_match_geometry() {
    assert_eq!(WIDTH, 360);
    assert_eq!(HEIGHT, 270);
    assert_eq!(AREA, WIDTH * HEIGHT);
    assert_eq!(HALF_AREA, WIDTH * (HEIGHT / 2));
}

#[test]
fn choose_max_iter_depths() {
    assert_eq!(choose_max_iter(true), 52);
    assert_eq!(choose_max_iter(false), 255);
}

#[test]
fn new_frame_is_zeroed() {
    let f = Frame::new();
    assert_eq!(f.len(), 97200);
    for i in 0..f.len() {
        assert_eq!(f.get(i), 0);
    }
}

#[test]
fn render_writes_every_pixel_mirrored() {
    let counts = sample_counts();
    let mut f = Frame::new();
    f.render(&counts, false);
    assert_eq!(f.len(), AREA);
    for y in 0..HEIGHT / 2 {
        for x in 0..WIDTH {
            let expected = pixel(counts[y * WIDTH + x]);
            assert_eq!(f.get(y * WIDTH + x), expected);
            assert_eq!(f.get((HEIGHT - y) * WIDTH - x - 1), expected);
        }
    }
}

#[test]
fn render_symmetry_without_marker() {
    let counts = sample_counts();
    let mut f = Frame::new();
    f.render(&counts, false);
    for y in 0..HEIGHT / 2 {
        for x in 0..WIDTH {
            assert_eq!(f.get(y * WIDTH + x), f.get((HEIGHT - y) * WIDTH - x - 1));
        }
    }
}

#[test]
fn render_marker_iff_reduced_depth() {
    let counts = sample_counts();

    let mut with_marker = Frame::new();
    with_marker.render(&counts, true);
    let mut without_marker = Frame::new();
    without_marker.render(&counts, false);

    for y in 0..HEIGHT / 2 {
        for x in 0..WIDTH {
            let idx = y * WIDTH + x;
            if (2..5).contains(&y) && (2..5).contains(&x) {
                assert_eq!(with_marker.get(idx), 0xFFFFFFFF);
            } else {
                assert_eq!(with_marker.get(idx), pixel(counts[idx]));
            }
            assert_ne!(without_marker.get(idx), 0xFFFFFFFF);
        }
    }
}

#[test]
fn render_overwrites_previous_frame() {
    let zeros: Vec<u8> = vec![0; HALF_AREA];
    let ones: Vec<u8> = vec![1; HALF_AREA];
    let mut f = Frame::new();
    f.render(&zeros, true);
    f.render(&ones, false);
    for i in 0..f.len() {
        assert_eq!(f.get(i), pixel(1));
    }
}

#[test]
fn buffer_slice_matches_pixels() {
    let counts = sample_counts();
    let mut f = Frame::new();
    f.render(&counts, false);
    let s = f.as_slice();
    assert_eq!(s.len(), AREA);
    for i in 0..AREA {
        assert_eq!(s[i], f.get(i));
    }
}
