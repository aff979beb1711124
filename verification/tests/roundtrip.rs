use kurzlink::assets::asset_handler;

fn decode_png_artifact(bytes: &[u8]) -> String {
    let img = image::load_from_memory(bytes).unwrap().to_luma8();
    let (w, h) = img.dimensions();
    let mut prepared = rqrr::PreparedImage::prepare_from_greyscale(w as usize, h as usize, |x, y| {
        img.get_pixel(x as u32, y as u32).0[0]
    });
    let grids = prepared.detect_grids();
    assert_eq!(grids.len(), 1);
    let (_meta, text) = grids[0].decode().unwrap();
    text
}

#[test]
fn raster_artifact_decodes_to_the_payload() {
    let r = asset_handler("/kurzlink.png", "q=https://example.org");
    assert_eq!(r.status, 200);
    assert_eq!(r.content_type, Some("image/png"));
    assert_eq!(decode_png_artifact(&r.body), "https://example.org");
}

#[test]
fn raster_artifact_without_query_decodes_to_the_default() {
    let r = asset_handler("/kurzlink.png", "");
    assert_eq!(r.status, 200);
    assert_eq!(decode_png_artifact(&r.body), "https://www.vetmed.fu-berlin.de/");
}

#[test]
fn percent_encoded_payload_survives_the_round_trip() {
    let r = asset_handler("/kurzlink.png", "q=https%3A%2F%2Fexample.org%2Fa+b");
    assert_eq!(r.status, 200);
    assert_eq!(decode_png_artifact(&r.body), "https://example.org/a b");
}
