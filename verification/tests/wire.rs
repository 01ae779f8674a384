use esl_services_backend::services::pricer_service::{PricerEsl, PricerFishProperties};
use esl_services_backend::services::wire::{
    decode_attribute, encode_attribute, WireEsl, WireProperties,
};

fn absent() -> PricerFishProperties {
    PricerFishProperties {
        fish_calibre: None,
        fish_engin: None,
        fish_engin_2: None,
        fish_engin_3: None,
        fish_info: None,
        fish_name: None,
        fish_name_2: None,
        fish_name_scien: None,
        fish_origin: None,
        fish_origin_2: None,
        fish_production: None,
        fish_size: None,
        plu: None,
        allergenes: None,
        promo: None,
    }
}

fn empty_wire() -> WireProperties {
    WireProperties {
        fish_calibre: String::new(),
        fish_engin: String::new(),
        fish_engin_2: String::new(),
        fish_engin_3: String::new(),
        fish_info: String::new(),
        fish_name: String::new(),
        fish_name_2: String::new(),
        fish_name_scien: String::new(),
        fish_origin: String::new(),
        fish_origin_2: String::new(),
        fish_production: String::new(),
        fish_size: String::new(),
        plu: String::new(),
        allergenes: String::new(),
        promo: String::new(),
    }
}

fn full() -> PricerFishProperties {
    PricerFishProperties {
        fish_calibre: Some("c".to_string()),
        fish_engin: Some("e1".to_string()),
        fish_engin_2: Some("e2".to_string()),
        fish_engin_3: Some("e3".to_string()),
        fish_info: Some("i".to_string()),
        fish_name: Some("n".to_string()),
        fish_name_2: Some("n2".to_string()),
        fish_name_scien: Some("ns".to_string()),
        fish_origin: Some("o".to_string()),
        fish_origin_2: Some("o2".to_string()),
        fish_production: Some("p".to_string()),
        fish_size: Some("s".to_string()),
        plu: Some("plu".to_string()),
        allergenes: Some("a".to_string()),
        promo: Some("pr".to_string()),
    }
}

#[test]
fn absent_attribute_is_written_as_the_empty_string() {
    assert_eq!(encode_attribute(&None), "");
}

#[test]
fn present_attribute_is_written_as_its_text() {
    assert_eq!(encode_attribute(&Some("Ligne".to_string())), "Ligne");
}

#[test]
fn empty_string_is_read_as_absent() {
    assert_eq!(decode_attribute(&String::new()), None);
}

#[test]
fn text_is_read_as_present() {
    assert_eq!(decode_attribute(&"Ligne".to_string()), Some("Ligne".to_string()));
    assert_eq!(decode_attribute(&" ".to_string()), Some(" ".to_string()));
}

#[test]
fn every_absent_property_is_written_empty() {
    assert_eq!(absent().encode(), empty_wire());
}

#[test]
fn every_empty_property_is_read_absent() {
    assert_eq!(PricerFishProperties::decode(&empty_wire()), absent());
}

#[test]
fn absent_properties_come_back_absent() {
    assert_eq!(PricerFishProperties::decode(&absent().encode()), absent());
}

#[test]
fn present_properties_come_back_as_they_were() {
    let wire = full().encode();
    assert_eq!(wire.fish_calibre, "c");
    assert_eq!(wire.fish_engin, "e1");
    assert_eq!(wire.fish_engin_2, "e2");
    assert_eq!(wire.fish_engin_3, "e3");
    assert_eq!(wire.fish_info, "i");
    assert_eq!(wire.fish_name, "n");
    assert_eq!(wire.fish_name_2, "n2");
    assert_eq!(wire.fish_name_scien, "ns");
    assert_eq!(wire.fish_origin, "o");
    assert_eq!(wire.fish_origin_2, "o2");
    assert_eq!(wire.fish_production, "p");
    assert_eq!(wire.fish_size, "s");
    assert_eq!(wire.plu, "plu");
    assert_eq!(wire.allergenes, "a");
    assert_eq!(wire.promo, "pr");
    assert_eq!(PricerFishProperties::decode(&wire), full());
}

#[test]
fn each_property_alone_survives_the_wire() {
    let setters: Vec<fn(&mut PricerFishProperties)> = vec![
        |p| p.fish_calibre = None,
        |p| p.fish_engin = None,
        |p| p.fish_engin_2 = None,
        |p| p.fish_engin_3 = None,
        |p| p.fish_info = None,
        |p| p.fish_name = None,
        |p| p.fish_name_2 = None,
        |p| p.fish_name_scien = None,
        |p| p.fish_origin = None,
        |p| p.fish_origin_2 = None,
        |p| p.fish_production = None,
        |p| p.fish_size = None,
        |p| p.plu = None,
        |p| p.allergenes = None,
        |p| p.promo = None,
    ];
    assert_eq!(setters.len(), 15);
    for clear in setters {
        let mut properties = full();
        clear(&mut properties);
        let wire = properties.encode();
        assert_eq!(PricerFishProperties::decode(&wire), properties);
    }
}

#[test]
fn empty_text_comes_back_absent() {
    let mut properties = absent();
    properties.fish_origin = Some(String::new());
    let back = PricerFishProperties::decode(&properties.encode());
    assert_eq!(back.fish_origin, None);
}

#[test]
fn record_is_written_with_its_ids_and_price() {
    let esl = PricerEsl {
        barcode: "123".to_string(),
        item_id: "A1".to_string(),
        item_name: "Bar".to_string(),
        price: None,
        properties: absent(),
    };
    let wire = esl.encode();
    assert_eq!(
        wire,
        WireEsl {
            barcode: "123".to_string(),
            item_id: "A1".to_string(),
            item_name: "Bar".to_string(),
            price: None,
            properties: empty_wire(),
        }
    );
    assert_eq!(PricerEsl::decode(&wire), esl);
}

#[test]
fn record_keeps_a_price_across_the_wire() {
    let esl = PricerEsl {
        barcode: "123".to_string(),
        item_id: "A1".to_string(),
        item_name: "Bar".to_string(),
        price: Some("12,90".to_string()),
        properties: full(),
    };
    let wire = esl.encode();
    assert_eq!(wire.price, Some("12,90".to_string()));
    assert_eq!(PricerEsl::decode(&wire), esl);
}
