//! The target record as it travels: every display attribute is a string,
//! and an empty string stands for an absent attribute, both ways.

use crate::services::generic_label::clone_text;
use crate::services::pricer_service::{
    or_empty, PricerEsl, PricerEslView, PricerFishProperties, PricerFishPropertiesView,
};
use vstd::prelude::*;
use vstd::string::*;

verus! {

/// What is written for an attribute: its text, or nothing where it is absent.
pub open spec fn wire_text(attribute: Option<Seq<char>>) -> Seq<char> {
    or_empty(attribute)
}

/// What an attribute is after it was read: absent where nothing was written.
pub open spec fn attribute_of(text: Seq<char>) -> Option<Seq<char>> {
    if text.len() == 0 {
        None
    } else {
        Some(text)
    }
}

/// Writes one attribute.
pub fn encode_attribute(attribute: &Option<String>) -> (text: String)
    ensures
        text@ == wire_text(attribute.deep_view()),
{
    match attribute {
        Some(t) => t.clone(),
        None => String::new(),
    }
}

/// Reads one attribute.
pub fn decode_attribute(text: &String) -> (attribute: Option<String>)
    ensures
        attribute.deep_view() == attribute_of(text@),
{
    if text.as_str().is_empty() {
        None
    } else {
        Some(text.clone())
    }
}

/// The display attributes on the wire.
#[derive(Debug, PartialEq, Eq)]
pub struct WireProperties {
    pub fish_calibre: String,
    pub fish_engin: String,
    pub fish_engin_2: String,
    pub fish_engin_3: String,
    pub fish_info: String,
    pub fish_name: String,
    pub fish_name_2: String,
    pub fish_name_scien: String,
    pub fish_origin: String,
    pub fish_origin_2: String,
    pub fish_production: String,
    pub fish_size: String,
    pub plu: String,
    pub allergenes: String,
    pub promo: String,
}

/// What a [`WireProperties`] holds, as mathematical text.
pub struct WirePropertiesView {
    pub fish_calibre: Seq<char>,
    pub fish_engin: Seq<char>,
    pub fish_engin_2: Seq<char>,
    pub fish_engin_3: Seq<char>,
    pub fish_info: Seq<char>,
    pub fish_name: Seq<char>,
    pub fish_name_2: Seq<char>,
    pub fish_name_scien: Seq<char>,
    pub fish_origin: Seq<char>,
    pub fish_origin_2: Seq<char>,
    pub fish_production: Seq<char>,
    pub fish_size: Seq<char>,
    pub plu: Seq<char>,
    pub allergenes: Seq<char>,
    pub promo: Seq<char>,
}

impl View for WireProperties {
    type V = WirePropertiesView;

    open spec fn view(&self) -> WirePropertiesView {
        WirePropertiesView {
            fish_calibre: self.fish_calibre@,
            fish_engin: self.fish_engin@,
            fish_engin_2: self.fish_engin_2@,
            fish_engin_3: self.fish_engin_3@,
            fish_info: self.fish_info@,
            fish_name: self.fish_name@,
            fish_name_2: self.fish_name_2@,
            fish_name_scien: self.fish_name_scien@,
            fish_origin: self.fish_origin@,
            fish_origin_2: self.fish_origin_2@,
            fish_production: self.fish_production@,
            fish_size: self.fish_size@,
            plu: self.plu@,
            allergenes: self.allergenes@,
            promo: self.promo@,
        }
    }
}

impl DeepView for WireProperties {
    type V = WirePropertiesView;

    open spec fn deep_view(&self) -> WirePropertiesView {
        self@
    }
}

/// The target record on the wire.
#[derive(Debug, PartialEq, Eq)]
pub struct WireEsl {
    pub barcode: String,
    pub item_id: String,
    pub item_name: String,
    pub price: Option<String>,
    pub properties: WireProperties,
}

/// What a [`WireEsl`] holds, as mathematical text.
pub struct WireEslView {
    pub barcode: Seq<char>,
    pub item_id: Seq<char>,
    pub item_name: Seq<char>,
    pub price: Option<Seq<char>>,
    pub properties: WirePropertiesView,
}

impl View for WireEsl {
    type V = WireEslView;

    open spec fn view(&self) -> WireEslView {
        WireEslView {
            barcode: self.barcode@,
            item_id: self.item_id@,
            item_name: self.item_name@,
            price: self.price.deep_view(),
            properties: self.properties@,
        }
    }
}

impl DeepView for WireEsl {
    type V = WireEslView;

    open spec fn deep_view(&self) -> WireEslView {
        self@
    }
}

/// The attributes as they are written.
pub open spec fn encoded_properties(p: PricerFishPropertiesView) -> WirePropertiesView {
    WirePropertiesView {
        fish_calibre: wire_text(p.fish_calibre),
        fish_engin: wire_text(p.fish_engin),
        fish_engin_2: wire_text(p.fish_engin_2),
        fish_engin_3: wire_text(p.fish_engin_3),
        fish_info: wire_text(p.fish_info),
        fish_name: wire_text(p.fish_name),
        fish_name_2: wire_text(p.fish_name_2),
        fish_name_scien: wire_text(p.fish_name_scien),
        fish_origin: wire_text(p.fish_origin),
        fish_origin_2: wire_text(p.fish_origin_2),
        fish_production: wire_text(p.fish_production),
        fish_size: wire_text(p.fish_size),
        plu: wire_text(p.plu),
        allergenes: wire_text(p.allergenes),
        promo: wire_text(p.promo),
    }
}

/// The attributes as they are read.
pub open spec fn decoded_properties(w: WirePropertiesView) -> PricerFishPropertiesView {
    PricerFishPropertiesView {
        fish_calibre: attribute_of(w.fish_calibre),
        fish_engin: attribute_of(w.fish_engin),
        fish_engin_2: attribute_of(w.fish_engin_2),
        fish_engin_3: attribute_of(w.fish_engin_3),
        fish_info: attribute_of(w.fish_info),
        fish_name: attribute_of(w.fish_name),
        fish_name_2: attribute_of(w.fish_name_2),
        fish_name_scien: attribute_of(w.fish_name_scien),
        fish_origin: attribute_of(w.fish_origin),
        fish_origin_2: attribute_of(w.fish_origin_2),
        fish_production: attribute_of(w.fish_production),
        fish_size: attribute_of(w.fish_size),
        plu: attribute_of(w.plu),
        allergenes: attribute_of(w.allergenes),
        promo: attribute_of(w.promo),
    }
}

/// The record as it is written.
pub open spec fn encoded(esl: PricerEslView) -> WireEslView {
    WireEslView {
        barcode: esl.barcode,
        item_id: esl.item_id,
        item_name: esl.item_name,
        price: esl.price,
        properties: encoded_properties(esl.properties),
    }
}

/// The record as it is read.
pub open spec fn decoded(wire: WireEslView) -> PricerEslView {
    PricerEslView {
        barcode: wire.barcode,
        item_id: wire.item_id,
        item_name: wire.item_name,
        price: wire.price,
        properties: decoded_properties(wire.properties),
    }
}

impl PricerFishProperties {
    /// Writes every attribute, absent ones as empty strings.
    pub fn encode(&self) -> (wire: WireProperties)
        ensures
            wire@ == encoded_properties(self@),
    {
        WireProperties {
            fish_calibre: encode_attribute(&self.fish_calibre),
            fish_engin: encode_attribute(&self.fish_engin),
            fish_engin_2: encode_attribute(&self.fish_engin_2),
            fish_engin_3: encode_attribute(&self.fish_engin_3),
            fish_info: encode_attribute(&self.fish_info),
            fish_name: encode_attribute(&self.fish_name),
            fish_name_2: encode_attribute(&self.fish_name_2),
            fish_name_scien: encode_attribute(&self.fish_name_scien),
            fish_origin: encode_attribute(&self.fish_origin),
            fish_origin_2: encode_attribute(&self.fish_origin_2),
            fish_production: encode_attribute(&self.fish_production),
            fish_size: encode_attribute(&self.fish_size),
            plu: encode_attribute(&self.plu),
            allergenes: encode_attribute(&self.allergenes),
            promo: encode_attribute(&self.promo),
        }
    }

    /// Reads every attribute, empty strings as absent.
    pub fn decode(wire: &WireProperties) -> (properties: PricerFishProperties)
        ensures
            properties@ == decoded_properties(wire@),
    {
        PricerFishProperties {
            fish_calibre: decode_attribute(&wire.fish_calibre),
            fish_engin: decode_attribute(&wire.fish_engin),
            fish_engin_2: decode_attribute(&wire.fish_engin_2),
            fish_engin_3: decode_attribute(&wire.fish_engin_3),
            fish_info: decode_attribute(&wire.fish_info),
            fish_name: decode_attribute(&wire.fish_name),
            fish_name_2: decode_attribute(&wire.fish_name_2),
            fish_name_scien: decode_attribute(&wire.fish_name_scien),
            fish_origin: decode_attribute(&wire.fish_origin),
            fish_origin_2: decode_attribute(&wire.fish_origin_2),
            fish_production: decode_attribute(&wire.fish_production),
            fish_size: decode_attribute(&wire.fish_size),
            plu: decode_attribute(&wire.plu),
            allergenes: decode_attribute(&wire.allergenes),
            promo: decode_attribute(&wire.promo),
        }
    }
}

impl PricerEsl {
    /// Writes the record.
    pub fn encode(&self) -> (wire: WireEsl)
        ensures
            wire@ == encoded(self@),
    {
        WireEsl {
            barcode: self.barcode.clone(),
            item_id: self.item_id.clone(),
            item_name: self.item_name.clone(),
            price: clone_text(&self.price),
            properties: self.properties.encode(),
        }
    }

    /// Reads the record.
    pub fn decode(wire: &WireEsl) -> (esl: PricerEsl)
        ensures
            esl@ == decoded(wire@),
    {
        PricerEsl {
            barcode: wire.barcode.clone(),
            item_id: wire.item_id.clone(),
            item_name: wire.item_name.clone(),
            price: clone_text(&wire.price),
            properties: PricerFishProperties::decode(&wire.properties),
        }
    }
}

/// An absent attribute is written as the empty string, and the empty string
/// is read as an absent attribute.
pub proof fn lemma_absent_is_empty()
    ensures
        wire_text(None) == Seq::<char>::empty(),
        attribute_of(Seq::<char>::empty()) == None::<Seq<char>>,
        attribute_of(wire_text(None)) == None::<Seq<char>>,
{
}

/// Writing an attribute and reading it back gives the attribute again,
/// except that empty text comes back absent.
pub proof fn lemma_attribute_round_trip(attribute: Option<Seq<char>>)
    ensures
        attribute_of(wire_text(attribute)) == if attribute == Some(Seq::<char>::empty()) {
            None
        } else {
            attribute
        },
{
    match attribute {
        Some(t) => {
            if t.len() == 0 {
                assert(t =~= Seq::<char>::empty());
            }
        },
        None => {},
    }
}

/// Reading a string and writing the attribute back gives the string again.
pub proof fn lemma_wire_round_trip(text: Seq<char>)
    ensures
        wire_text(attribute_of(text)) == text,
{
    if text.len() == 0 {
        assert(text =~= Seq::<char>::empty());
    }
}

/// Whatever is read from the wire is written back unchanged, attribute by
/// attribute: the wire form loses nothing.
pub proof fn lemma_record_wire_round_trip(wire: WireEslView)
    ensures
        encoded(decoded(wire)) == wire,
{
    let w = wire.properties;
    lemma_wire_round_trip(w.fish_calibre);
    lemma_wire_round_trip(w.fish_engin);
    lemma_wire_round_trip(w.fish_engin_2);
    lemma_wire_round_trip(w.fish_engin_3);
    lemma_wire_round_trip(w.fish_info);
    lemma_wire_round_trip(w.fish_name);
    lemma_wire_round_trip(w.fish_name_2);
    lemma_wire_round_trip(w.fish_name_scien);
    lemma_wire_round_trip(w.fish_origin);
    lemma_wire_round_trip(w.fish_origin_2);
    lemma_wire_round_trip(w.fish_production);
    lemma_wire_round_trip(w.fish_size);
    lemma_wire_round_trip(w.plu);
    lemma_wire_round_trip(w.allergenes);
    lemma_wire_round_trip(w.promo);
}

/// For every attribute of every record: where it is absent, the empty string
/// is written, and it is read back absent.
pub proof fn lemma_absent_attributes_survive(esl: PricerEslView)
    ensures
        ({
            let p = esl.properties;
            let w = encoded(esl).properties;
            let q = decoded(encoded(esl)).properties;
            &&& p.fish_calibre is None ==> w.fish_calibre.len() == 0 && q.fish_calibre is None
            &&& p.fish_engin is None ==> w.fish_engin.len() == 0 && q.fish_engin is None
            &&& p.fish_engin_2 is None ==> w.fish_engin_2.len() == 0 && q.fish_engin_2 is None
            &&& p.fish_engin_3 is None ==> w.fish_engin_3.len() == 0 && q.fish_engin_3 is None
            &&& p.fish_info is None ==> w.fish_info.len() == 0 && q.fish_info is None
            &&& p.fish_name is None ==> w.fish_name.len() == 0 && q.fish_name is None
            &&& p.fish_name_2 is None ==> w.fish_name_2.len() == 0 && q.fish_name_2 is None
            &&& p.fish_name_scien is None ==> w.fish_name_scien.len() == 0
                && q.fish_name_scien is None
            &&& p.fish_origin is None ==> w.fish_origin.len() == 0 && q.fish_origin is None
            &&& p.fish_origin_2 is None ==> w.fish_origin_2.len() == 0 && q.fish_origin_2 is None
            &&& p.fish_production is None ==> w.fish_production.len() == 0
                && q.fish_production is None
            &&& p.fish_size is None ==> w.fish_size.len() == 0 && q.fish_size is None
            &&& p.plu is None ==> w.plu.len() == 0 && q.plu is None
            &&& p.allergenes is None ==> w.allergenes.len() == 0 && q.allergenes is None
            &&& p.promo is None ==> w.promo.len() == 0 && q.promo is None
        }),
{
}

} // verus!
