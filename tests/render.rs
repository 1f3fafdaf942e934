use ciphercanvas::{
    encode_wifi, generate_kitty, generate_png, generate_svg, kitty_png_sequence, kitty_sequence,
    module_size, rasterize, render_svg, Error, QrCodeOptions,
};

fn options(size: u32, format: &str) -> QrCodeOptions {
    QrCodeOptions {
        ssid: "MyWifi".to_string(),
        encryption: "WPA".to_string(),
        password: "secret123".to_string(),
        output_path: None,
        dark_color: "#000000".to_string(),
        light_color: "#ffffff".to_string(),
        size,
        format: format.to_string(),
        overwrite: false,
    }
}

fn png_size(png: &[u8]) -> (u32, u32) {
    assert_eq!(&png[0..8], &[0x89, b'P', b'N', b'G', 0x0d, 0x0a, 0x1a, 0x0a]);
    let w = u32::from_be_bytes([png[16], png[17], png[18], png[19]]);
    let h = u32::from_be_bytes([png[20], png[21], png[22], png[23]]);
    (w, h)
}

#[test]
fn module_size_rounds_up() {
    assert_eq!(module_size(21, 512), 18);
    assert_eq!(module_size(21, 522), 18);
    assert_eq!(module_size(21, 523), 19);
    assert_eq!(module_size(21, 29), 1);
    assert_eq!(module_size(21, 30), 2);
    assert_eq!(module_size(21, 1), 1);
    assert_eq!(module_size(21, 0), 1);
    assert_eq!(module_size(177, u32::MAX), 23_216_040);
}

#[test]
fn rendered_dimension_is_the_least_multiple_at_least_size() {
    let m = encode_wifi("MyWifi", "WPA", "secret123").unwrap();
    let across = (m.side() + 8) as u32;
    for size in [0u32, 1, 100, 128, 256, 512, 1000] {
        let v = render_svg(&m, size, "#000", "#fff");
        assert!(v.dimension >= size);
        assert_eq!(v.dimension % across, 0);
        assert!(v.dimension < size + across || v.dimension == across);
    }
}

#[test]
fn rendering_is_deterministic() {
    let m = encode_wifi("MyWifi", "WPA", "secret123").unwrap();
    let a = render_svg(&m, 300, "#123456", "#abcdef");
    let b = render_svg(&m, 300, "#123456", "#abcdef");
    assert_eq!(a.svg, b.svg);
    assert_eq!(a.dimension, b.dimension);
}

#[test]
fn svg_scenario_for_size_512() {
    let m = encode_wifi("MyWifi", "WPA", "secret123").unwrap();
    let v = generate_svg(&options(512, "svg")).unwrap();
    let across = (m.side() + 8) as u32;
    let unit = module_size(m.side() as u32, 512);
    assert_eq!(v.dimension, across * unit);
    assert!(v.dimension >= 512);
    assert_eq!(v.dimension % unit, 0);
    let view_box = format!("viewBox=\"0 0 {} {}\"", v.dimension, v.dimension);
    assert!(v.svg.contains(&view_box));
    assert!(v.svg.contains("fill=\"#000000\""));
    assert!(v.svg.contains("fill=\"#ffffff\""));
}

#[test]
fn raster_matches_the_rendered_dimension() {
    for size in [64u32, 128, 300] {
        let v = generate_svg(&options(size, "png")).unwrap();
        let img = generate_png(&options(size, "png")).unwrap();
        assert_eq!(img.width, v.dimension);
        assert_eq!(img.height, v.dimension);
        assert_eq!(png_size(&img.png), (v.dimension, v.dimension));
    }
}

#[test]
fn rasterize_makes_a_square_of_the_given_size() {
    let v = generate_svg(&options(128, "png")).unwrap();
    let img = rasterize(&v.svg, 128).unwrap();
    assert_eq!((img.width, img.height), (128, 128));
    assert_eq!(png_size(&img.png), (128, 128));
}

#[test]
fn rasterize_rejects_malformed_svg() {
    let r = rasterize("<svg", 64);
    match r {
        Err(Error::Image(m)) => {
            assert!(m.starts_with("Failed to create SVG tree from data of size 64x64: "), "{m}")
        }
        _ => panic!("expected an image error"),
    }
}

#[test]
fn rasterize_rejects_an_empty_buffer() {
    let v = generate_svg(&options(64, "png")).unwrap();
    let r = rasterize(&v.svg, 0);
    assert_eq!(r.unwrap_err(), Error::Image("Failed to create a new Pixmap".to_string()));
}

#[test]
fn too_long_payload_fails_every_generator() {
    let mut o = options(128, "svg");
    o.password = "\u{e9}".repeat(2000);
    assert!(matches!(generate_svg(&o), Err(Error::QrCode(_))));
    assert!(matches!(generate_png(&o), Err(Error::QrCode(_))));
    assert!(matches!(generate_kitty(&o), Err(Error::QrCode(_))));
}

#[test]
fn kitty_single_chunk() {
    let r = kitty_sequence(&b"abc".to_vec());
    assert_eq!(r, b"\x1b_Gf=100,a=T,m=0;abc\x1b\\".to_vec());
}

#[test]
fn kitty_empty_text_sends_nothing() {
    assert!(kitty_sequence(&Vec::new()).is_empty());
}

#[test]
fn kitty_splits_into_chunks_of_4096() {
    let text = vec![b'A'; 5000];
    let r = kitty_sequence(&text);
    let mut expected = b"\x1b_Gf=100,a=T,m=1;".to_vec();
    expected.extend(vec![b'A'; 4096]);
    expected.extend(b"\x1b\\\x1b_Gm=0;");
    expected.extend(vec![b'A'; 904]);
    expected.extend(b"\x1b\\");
    assert_eq!(r, expected);
}

#[test]
fn kitty_exact_chunk_is_last() {
    let text = vec![b'B'; 4096];
    let r = kitty_sequence(&text);
    assert!(r.starts_with(b"\x1b_Gf=100,a=T,m=0;"));
    assert_eq!(r.len(), 13 + 4 + 4096 + 2);
}

#[test]
fn kitty_png_sequence_encodes_base64() {
    let r = kitty_png_sequence(b"hi");
    assert_eq!(r, b"\x1b_Gf=100,a=T,m=0;aGk=\x1b\\".to_vec());
}

#[test]
fn kitty_output_of_options() {
    let r = generate_kitty(&options(128, "png")).unwrap();
    assert!(r.starts_with(b"\x1b_Gf=100,a=T,m="));
    assert!(r.ends_with(b"\x1b\\"));
}

#[test]
fn parse_failure_is_reported_before_the_buffer() {
    match rasterize("nonsense", 0) {
        Err(Error::Image(m)) => assert!(m.starts_with("Failed to create SVG tree from data of size 0x0: ")),
        _ => panic!("expected an image error"),
    }
}

#[test]
fn svg_header_carries_the_dimension() {
    let m = ciphercanvas::encode_level_h("a").unwrap();
    let v = render_svg(&m, 512, "#000", "#fff");
    assert_eq!(v.dimension, 522);
    let header = [
        "<?xml version=\"1.0\" standalone=\"yes\"?><svg xmlns=\"http://www.w3.org/2000/svg\"",
        " version=\"1.1\" width=\"522\" height=\"522\" viewBox=\"0 0 522 522\"",
        " shape-rendering=\"crispEdges\">",
    ]
    .join("");
    assert!(v.svg.starts_with(&header));
}

#[test]
fn kitty_output_frames_the_generated_png() {
    let o = options(128, "svg");
    let img = generate_png(&o).unwrap();
    let bytes = generate_kitty(&o).unwrap();
    assert_eq!(bytes, kitty_png_sequence(&img.png));
    let mut other = options(128, "bogus");
    other.overwrite = true;
    assert_eq!(generate_kitty(&other).unwrap(), bytes);
}

#[test]
fn qr_error_message_has_its_prefix() {
    let mut o = options(128, "svg");
    o.password = "\u{e9}".repeat(2000);
    match generate_svg(&o) {
        Err(Error::QrCode(m)) => assert!(m.starts_with("Failed to generate the QR code: "), "{m}"),
        _ => panic!("expected a QR error"),
    }
}
