use bgp_sessions::models::{AsPath, AsPathSegment};
use bgp_sessions::mrt_records::{format_as_path, handle_attributes};
use bgpkit_parser::models::{AttrRaw, AttrType};

fn raw(attr_type: AttrType) -> AttrRaw {
    AttrRaw { attr_type, bytes: vec![1, 2, 3] }
}

#[test]
fn attributes_give_their_type_numbers() {
    assert_eq!(handle_attributes(None), None);
    assert_eq!(handle_attributes(Some(vec![])), Some(vec![]));
    assert_eq!(
        handle_attributes(Some(vec![
            raw(AttrType::ORIGIN),
            raw(AttrType::Unknown(99)),
            raw(AttrType::LARGE_COMMUNITIES),
            raw(AttrType::DEVELOPMENT),
            raw(AttrType::RESERVED),
            raw(AttrType::Unknown(1)),
        ])),
        Some(vec![1, 99, 32, 255, 0, 1])
    );
}

#[test]
fn every_named_attribute_type_gives_the_number_it_was_decoded_from() {
    for code in 0..=255u8 {
        let attr_type = AttrType::from(code);
        assert_eq!(handle_attributes(Some(vec![raw(attr_type)])), Some(vec![code]));
    }
}

#[test]
fn a_sequence_gives_one_numeral_for_each_system() {
    let path = AsPath { segments: vec![AsPathSegment::AsSequence(vec![64500, 3356, 0])] };
    assert_eq!(format_as_path(path), vec!["64500", "3356", "0"]);
}

#[test]
fn a_set_gives_its_numerals_in_braces() {
    let path = AsPath { segments: vec![AsPathSegment::AsSet(vec![1, 22, 333])] };
    assert_eq!(format_as_path(path), vec!["{1 22 333}"]);

    let path = AsPath { segments: vec![AsPathSegment::ConfedSet(vec![7])] };
    assert_eq!(format_as_path(path), vec!["{7}"]);

    let path = AsPath { segments: vec![AsPathSegment::AsSet(vec![])] };
    assert_eq!(format_as_path(path), vec!["{}"]);
}

#[test]
fn the_segments_of_a_path_follow_each_other() {
    let path = AsPath {
        segments: vec![
            AsPathSegment::ConfedSequence(vec![65001, 65002]),
            AsPathSegment::AsSequence(vec![174]),
            AsPathSegment::AsSet(vec![4_294_967_295, 10]),
            AsPathSegment::AsSequence(vec![]),
            AsPathSegment::AsSequence(vec![100000]),
        ],
    };
    assert_eq!(
        format_as_path(path),
        vec!["65001", "65002", "174", "{4294967295 10}", "100000"]
    );
    assert_eq!(format_as_path(AsPath { segments: vec![] }), Vec::<String>::new());
}
