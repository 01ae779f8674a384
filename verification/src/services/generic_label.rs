//! The source record: one shelf label that the source server wants refreshed.

use vstd::prelude::*;

verus! {

/// The vendor of a shelf label.
#[derive(Clone, Copy, Debug, PartialEq, Eq, Structural)]
pub enum EslType {
    Hanshow,
    Pricer,
}

/// One pending update, as the source server's queue delivers it. A record
/// lives for one processing attempt; the queue delivers it again until the
/// update has gone through.
#[derive(Debug, PartialEq, Eq)]
pub struct GenericEsl {
    pub kind: EslType,
    /// The label id: a generated string for one vendor, a hand-set barcode
    /// for the other.
    pub id: String,
    pub nom: String,
    pub nom_scientifique: String,
    /// The price as it is displayed; never computed with.
    pub prix: String,
    pub engin: Option<String>,
    pub zone: Option<String>,
    pub sous_zone: Option<String>,
    pub zone_code: Option<String>,
    pub sous_zone_code: Option<String>,
    pub plu: String,
    pub taille: String,
    pub congel_infos: Option<String>,
    pub origine: Option<String>,
    pub production: Option<String>,
    pub allergenes: Option<String>,
    pub object_id: Option<String>,
}

/// What a [`GenericEsl`] holds, as mathematical text.
pub struct GenericEslView {
    pub kind: EslType,
    pub id: Seq<char>,
    pub nom: Seq<char>,
    pub nom_scientifique: Seq<char>,
    pub prix: Seq<char>,
    pub engin: Option<Seq<char>>,
    pub zone: Option<Seq<char>>,
    pub sous_zone: Option<Seq<char>>,
    pub zone_code: Option<Seq<char>>,
    pub sous_zone_code: Option<Seq<char>>,
    pub plu: Seq<char>,
    pub taille: Seq<char>,
    pub congel_infos: Option<Seq<char>>,
    pub origine: Option<Seq<char>>,
    pub production: Option<Seq<char>>,
    pub allergenes: Option<Seq<char>>,
    pub object_id: Option<Seq<char>>,
}

impl View for GenericEsl {
    type V = GenericEslView;

    open spec fn view(&self) -> GenericEslView {
        GenericEslView {
            kind: self.kind,
            id: self.id@,
            nom: self.nom@,
            nom_scientifique: self.nom_scientifique@,
            prix: self.prix@,
            engin: self.engin.deep_view(),
            zone: self.zone.deep_view(),
            sous_zone: self.sous_zone.deep_view(),
            zone_code: self.zone_code.deep_view(),
            sous_zone_code: self.sous_zone_code.deep_view(),
            plu: self.plu@,
            taille: self.taille@,
            congel_infos: self.congel_infos.deep_view(),
            origine: self.origine.deep_view(),
            production: self.production.deep_view(),
            allergenes: self.allergenes.deep_view(),
            object_id: self.object_id.deep_view(),
        }
    }
}

impl DeepView for GenericEsl {
    type V = GenericEslView;

    open spec fn deep_view(&self) -> GenericEslView {
        self@
    }
}

/// A copy of an optional text.
pub fn clone_text(text: &Option<String>) -> (copy: Option<String>)
    ensures
        copy == *text,
{
    match text {
        Some(s) => Some(s.clone()),
        None => None,
    }
}

impl Clone for GenericEsl {
    fn clone(&self) -> (copy: Self)
        ensures
            copy == *self,
    {
        GenericEsl {
            kind: self.kind,
            id: self.id.clone(),
            nom: self.nom.clone(),
            nom_scientifique: self.nom_scientifique.clone(),
            prix: self.prix.clone(),
            engin: clone_text(&self.engin),
            zone: clone_text(&self.zone),
            sous_zone: clone_text(&self.sous_zone),
            zone_code: clone_text(&self.zone_code),
            sous_zone_code: clone_text(&self.sous_zone_code),
            plu: self.plu.clone(),
            taille: self.taille.clone(),
            congel_infos: clone_text(&self.congel_infos),
            origine: clone_text(&self.origine),
            production: clone_text(&self.production),
            allergenes: clone_text(&self.allergenes),
            object_id: clone_text(&self.object_id),
        }
    }
}

} // verus!
