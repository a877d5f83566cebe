use basketball::numfmt::centi_to_string;
use basketball::numfmt::u64_to_string;
use basketball::svg_gen::Color;
use basketball::svg_gen::SVG;

#[test]
fn decimal_rendering() {
    assert_eq!(u64_to_string(0), "0");
    assert_eq!(u64_to_string(7), "7");
    assert_eq!(u64_to_string(10), "10");
    assert_eq!(u64_to_string(12345), "12345");
}

#[test]
fn centi_rendering() {
    assert_eq!(centi_to_string(0), "0.00");
    assert_eq!(centi_to_string(12), "0.12");
    assert_eq!(centi_to_string(250), "2.50");
    assert_eq!(centi_to_string(3600), "36.00");
    assert_eq!(centi_to_string(-5), "-0.05");
    assert_eq!(centi_to_string(-123456), "-1234.56");
}

#[test]
fn color_names() {
    assert_eq!(Color::Black.to_string(), "black");
    assert_eq!(Color::White.to_string(), "white");
    assert_eq!(Color::Blue.to_string(), "blue");
    assert_eq!(Color::Green.to_string(), "green");
    assert_eq!(Color::Red.to_string(), "red");
    assert_eq!(Color::Yellow.to_string(), "yellow");
    assert_eq!(Color::Rgb(1, 23, 255).to_string(), "rgb(1,23,255)");
}

#[test]
fn body_appends_missing_newlines() {
    let mut svg = SVG::new(500, 300, None);
    svg.add_elem("<a />".to_string());
    svg.add_elem("<b />\n".to_string());
    assert_eq!(svg.to_string(), "<a />\n<b />\n");
}

#[test]
fn body_paints_background_first() {
    let mut svg = SVG::new(500, 300, Some(Color::Blue));
    svg.add_elem("<a />".to_string());
    assert_eq!(
        svg.to_string(),
        "<rect width=\"100%\" height=\"100%\" fill=\"blue\" />\n<a />\n"
    );
}

#[test]
fn file_string_has_header_and_footer() {
    let mut svg = SVG::new(500, 300, None);
    svg.add_elem("<a />".to_string());
    let s = svg.to_file_string();
    let header = "<svg version=\"1.1\"\nbaseProfile=\"full\"\nwidth=\"500.00\" height=\"300.00\"\nxmlns=\"http://www.w3.org/2000/svg\"\nxmlns:xlink=\"http://www.w3.org/1999/xlink\">\n";
    assert!(s.starts_with(header));
    assert!(s.ends_with("<a />\n</svg>\n"));
}

#[test]
fn html_fragment_has_short_header() {
    let mut svg = SVG::new(500, 300, None);
    svg.add_elem("<a />".to_string());
    assert_eq!(
        svg.to_string_insert_in_html(),
        "<svg width=\"500.00\" height=\"300.00\">\n<a />\n</svg>\n"
    );
}
