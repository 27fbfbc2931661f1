use parang::widths::{parse_w_array, width_in_array, CidWidths, WItem, WKind};

fn num(v: u32) -> WItem<f32> {
    WItem { as_cid: Some(v), as_width: v as f32, kind: WKind::Number }
}

fn arr(ws: &[f32]) -> WItem<f32> {
    WItem { as_cid: None, as_width: 0.0, kind: WKind::Array(ws.to_vec()) }
}

#[test]
fn simple_font_widths_by_code() {
    let widths = vec![500.0f32, 600.0, 700.0];
    assert_eq!(width_in_array(&widths, 32, 250.0, 32), 500.0);
    assert_eq!(width_in_array(&widths, 32, 250.0, 34), 700.0);
    assert_eq!(width_in_array(&widths, 32, 250.0, 35), 250.0);
    assert_eq!(width_in_array(&widths, 32, 250.0, 31), 250.0);
}

#[test]
fn single_widths_win_over_ranges() {
    let mut w: CidWidths<f32> = CidWidths::new();
    w.insert_range(0, 1000, 300.0);
    w.insert_individual(5, 900.0);
    w.finalize();
    assert_eq!(w.get(5), Some(900.0));
    assert_eq!(w.get(6), Some(300.0));
    assert_eq!(w.get(1001), None);
}

#[test]
fn short_ranges_are_stored_per_cid() {
    let mut w: CidWidths<f32> = CidWidths::new();
    w.insert_range(10, 12, 400.0);
    assert_eq!(w.get(10), Some(400.0));
    assert_eq!(w.get(12), Some(400.0));
    assert_eq!(w.get(13), None);
}

#[test]
fn ranges_found_after_finalize() {
    let mut w: CidWidths<f32> = CidWidths::new();
    w.insert_range(5000, 6000, 2.0);
    w.insert_range(100, 200, 1.0);
    w.insert_range(300, 400, 3.0);
    w.finalize();
    assert_eq!(w.get(150), Some(1.0));
    assert_eq!(w.get(350), Some(3.0));
    assert_eq!(w.get(5500), Some(2.0));
    assert_eq!(w.get(250), None);
    assert_eq!(w.get(7000), None);
}

#[test]
fn w_array_entries() {
    // [1 [500 600] 100 200 700 300]
    let items = vec![num(1), arr(&[500.0, 600.0]), num(100), num(200), num(700), num(300)];
    let mut w: CidWidths<f32> = CidWidths::new();
    parse_w_array(&items, &mut w, 1000.0);
    w.finalize();
    assert_eq!(w.get(1), Some(500.0));
    assert_eq!(w.get(2), Some(600.0));
    assert_eq!(w.get(150), Some(700.0));
    // a trailing start CID with nothing after it is ignored
    assert_eq!(w.get(300), None);
}

#[test]
fn w_array_range_without_width_uses_absent_width() {
    let items = vec![num(10), num(20)];
    let mut w: CidWidths<f32> = CidWidths::new();
    parse_w_array(&items, &mut w, 1000.0);
    assert_eq!(w.get(15), Some(1000.0));
}
